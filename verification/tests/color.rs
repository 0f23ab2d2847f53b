use tui_color_picker::color::Hsv;
use tui_color_picker::frac::Frac;
use tui_color_picker::utils::{fade_color, hsv_from_rgb, rgb_from_hsv};

#[test]
fn rgb_round_trip_samples() {
    // A spread of triples covering every hue sector, ties and the gray axis.
    let cases: [(u8, u8, u8); 16] = [
        (0, 0, 0),
        (255, 255, 255),
        (128, 128, 128),
        (255, 0, 0),
        (0, 255, 0),
        (0, 0, 255),
        (255, 255, 0),
        (0, 255, 255),
        (255, 0, 255),
        (255, 87, 51),
        (51, 255, 87),
        (87, 51, 255),
        (1, 2, 3),
        (200, 100, 100),
        (100, 200, 150),
        (254, 255, 253),
    ];
    for &(r, g, b) in cases.iter() {
        assert_eq!(rgb_from_hsv(&hsv_from_rgb(r, g, b)), (r, g, b));
    }
}

#[test]
fn rgb_round_trip_dense_slice() {
    // Every red level against a grid of green and blue levels.
    for r in 0..=255u8 {
        for g in (0..=255u8).step_by(17) {
            for b in (0..=255u8).step_by(51) {
                assert_eq!(rgb_from_hsv(&hsv_from_rgb(r, g, b)), (r, g, b));
            }
        }
    }
}

#[test]
fn primary_hues_convert_exactly() {
    let red = Hsv {
        hue: Frac { num: 0, den: 1 },
        saturation: Frac { num: 1, den: 1 },
        value: Frac { num: 1, den: 1 },
    };
    assert_eq!(rgb_from_hsv(&red), (255, 0, 0));
    let green = Hsv { hue: Frac { num: 120, den: 1 }, ..red };
    assert_eq!(rgb_from_hsv(&green), (0, 255, 0));
    let blue = Hsv { hue: Frac { num: 240, den: 1 }, ..red };
    assert_eq!(rgb_from_hsv(&blue), (0, 0, 255));
    let yellow = Hsv { hue: Frac { num: 60, den: 1 }, ..red };
    assert_eq!(rgb_from_hsv(&yellow), (255, 255, 0));
}

#[test]
fn half_value_red_rounds_to_nearest() {
    // value 1/2 of pure red: 255/2 rounds up to 128.
    let c = Hsv {
        hue: Frac { num: 0, den: 1 },
        saturation: Frac { num: 1, den: 1 },
        value: Frac { num: 1, den: 2 },
    };
    assert_eq!(rgb_from_hsv(&c), (128, 0, 0));
}

#[test]
fn fade_lowers_value_and_clamps() {
    let c = Hsv {
        hue: Frac { num: 30, den: 1 },
        saturation: Frac { num: 1, den: 2 },
        value: Frac { num: 1, den: 1 },
    };
    let faded = fade_color(c);
    assert_eq!(faded.hue, c.hue);
    assert_eq!(faded.saturation, c.saturation);
    // 1 - 2/5 = 3/5.
    assert_eq!(faded.value, Frac { num: 3, den: 5 });
    let dark = Hsv { value: Frac { num: 1, den: 4 }, ..c };
    // 1/4 - 2/5 clamps at zero.
    assert_eq!(fade_color(dark).value, Frac { num: 0, den: 1 });
}
