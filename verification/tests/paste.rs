use tui_color_picker::clipboard::paste::validate_pasted_color;
use tui_color_picker::color::Hsv;
use tui_color_picker::frac::Frac;
use tui_color_picker::utils::hsv_from_rgb;

#[test]
fn test_paste_validation() {
    struct TestCase {
        input: &'static str,
        expected: Option<Hsv>,
    }
    let correct_hsv = hsv_from_rgb(255, 87, 51);
    let hsv_11_08_10 = Hsv {
        hue: Frac { num: 11, den: 1 },
        saturation: Frac { num: 4, den: 5 },
        value: Frac { num: 1, den: 1 },
    };
    let test_cases = [
        TestCase { input: "#FF5733", expected: Some(correct_hsv) },
        TestCase { input: "#ff5733", expected: Some(correct_hsv) },
        TestCase { input: "Ff5733", expected: Some(correct_hsv) },
        TestCase { input: "0xFf5733", expected: Some(correct_hsv) },
        TestCase { input: "xFf5733", expected: Some(correct_hsv) },
        TestCase { input: "0XFf5733", expected: Some(correct_hsv) },
        TestCase { input: "rgb(255, 87, 51)", expected: Some(correct_hsv) },
        TestCase { input: "rgb(  255 ,  87 ,  51  )", expected: Some(correct_hsv) },
        TestCase { input: "(255,87,51)", expected: Some(correct_hsv) },
        TestCase { input: "(  255 ,  87 ,  51  )", expected: Some(correct_hsv) },
        TestCase { input: "255,87,51", expected: Some(correct_hsv) },
        TestCase { input: "  255    ,   87    , 51   ", expected: Some(correct_hsv) },
        TestCase { input: "hsv(11, 80%, 100%)", expected: Some(hsv_11_08_10) },
        TestCase { input: "hsv(11, 80, 100)", expected: Some(hsv_11_08_10) },
        TestCase { input: "hsv(  11  ,  80%  ,  100%  )", expected: Some(hsv_11_08_10) },
        TestCase { input: "hsv(11.00, 0.8, 1.0)", expected: Some(hsv_11_08_10) },
        TestCase { input: "invalid string", expected: None },
        TestCase { input: "#AABBCG", expected: None },
        TestCase { input: "rgb(12, 34)", expected: None },
        TestCase { input: "rgb(256, 87, 51)", expected: None },
        TestCase { input: "#F53", expected: None },
        TestCase { input: "#FF5733FF", expected: None },
        TestCase { input: "rgba(255,87,51,0.8)", expected: None },
        TestCase { input: "hsl(11, 100%, 60%)", expected: None },
        TestCase { input: "", expected: None },
        TestCase { input: "  ", expected: None },
        TestCase { input: "color:#FF5733;", expected: None },
    ];
    for case in test_cases.iter() {
        assert_eq!(
            validate_pasted_color(case.input),
            case.expected,
            "Failed for input: {}",
            case.input
        );
    }
}

#[test]
fn codec_priority_bare_triple_is_rgb() {
    // A bare comma-separated triple superficially resembles an hsv list, but
    // the rgb grammar is tried first and wins.
    let parsed = validate_pasted_color("255,87,51").unwrap();
    assert_eq!(parsed, hsv_from_rgb(255, 87, 51));
    let as_hsv = Hsv {
        hue: Frac { num: 255, den: 1 },
        saturation: Frac { num: 87, den: 100 },
        value: Frac { num: 51, den: 100 },
    };
    assert_ne!(parsed, as_hsv);
}

#[test]
fn codec_priority_hex_before_rgb() {
    // Six digits parse as hex even though they would never match rgb; a
    // string matching both hex and nothing else still picks hex.
    assert_eq!(validate_pasted_color("112233"), Some(hsv_from_rgb(0x11, 0x22, 0x33)));
}

#[test]
fn hsv_fractional_and_percent_forms_agree() {
    let a = validate_pasted_color("hsv(180, 50%, 25%)").unwrap();
    let b = validate_pasted_color("hsv(180.0, 0.5, 0.25)").unwrap();
    assert_eq!(a, b);
    assert_eq!(a.hue, Frac { num: 180, den: 1 });
    assert_eq!(a.saturation, Frac { num: 1, den: 2 });
    assert_eq!(a.value, Frac { num: 1, den: 4 });
}

#[test]
fn hsv_hue_360_wraps_to_zero() {
    let parsed = validate_pasted_color("hsv(360, 100%, 100%)").unwrap();
    assert_eq!(parsed.hue, Frac { num: 0, den: 1 });
}

#[test]
fn hsv_out_of_range_components_rejected() {
    assert_eq!(validate_pasted_color("hsv(361, 50%, 50%)"), None);
    assert_eq!(validate_pasted_color("hsv(10, 101%, 50%)"), None);
    assert_eq!(validate_pasted_color("hsv(10, 50%, 250)"), None);
    assert_eq!(validate_pasted_color("hsv(10, 50)"), None);
}

#[test]
fn rgb_without_label_and_unbalanced_parens() {
    let expected = Some(hsv_from_rgb(1, 2, 3));
    assert_eq!(validate_pasted_color("rgb(1,2,3)"), expected);
    assert_eq!(validate_pasted_color("RGB(1,2,3)"), expected);
    assert_eq!(validate_pasted_color("(1,2,3"), expected);
    assert_eq!(validate_pasted_color("1,2,3)"), expected);
}

#[test]
fn conversion_from_rgb_exact_fractions() {
    // max 255, min 51, spread 204: hue 60*(87-51)/204 degrees, saturation
    // 204/255, value 255/255, all stored exactly.
    let c = hsv_from_rgb(255, 87, 51);
    assert_eq!(c.hue, Frac { num: 2160, den: 204 });
    assert_eq!(c.saturation, Frac { num: 204, den: 255 });
    assert_eq!(c.value, Frac { num: 255, den: 255 });
}

#[test]
fn hsv_fraction_beyond_resolution_truncates() {
    // Fractions are kept to six digits: a hair above 360 truncates to
    // exactly 360 and wraps to zero, as a single-precision reader would
    // also accept it.
    let parsed = validate_pasted_color("hsv(360.0000001, 1.0, 1.0)").unwrap();
    assert_eq!(parsed.hue, Frac { num: 0, den: 1 });
    let near = validate_pasted_color("hsv(359.999999, 1.0, 1.0)").unwrap();
    assert_eq!(near.hue, Frac { num: 359999999, den: 1000000 });
}

#[test]
fn number_grammar_limits() {
    // Four integer digits, a bare point, or a missing component all fail.
    assert_eq!(validate_pasted_color("hsv(1000, 50%, 50%)"), None);
    assert_eq!(validate_pasted_color("hsv(12., 50%, 50%)"), None);
    assert_eq!(validate_pasted_color("rgb(1234, 5, 6)"), None);
}
