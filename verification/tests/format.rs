use tui_color_picker::clipboard::paste::validate_pasted_color;
use tui_color_picker::clipboard::ui::{
    handle_copy_input_format_selection_input, ColorFormat,
};
use tui_color_picker::color::Hsv;
use tui_color_picker::frac::Frac;
use tui_color_picker::types::KeyCode;
use tui_color_picker::utils::hsv_from_rgb;

fn hsv_11_08_10() -> Hsv {
    Hsv {
        hue: Frac { num: 11, den: 1 },
        saturation: Frac { num: 4, den: 5 },
        value: Frac { num: 1, den: 1 },
    }
}

#[test]
fn format_names() {
    assert_eq!(ColorFormat::Hex.as_str(), "Hex");
    assert_eq!(ColorFormat::Rgb.as_str(), "RGB");
    assert_eq!(ColorFormat::Hsv.as_str(), "HSV");
    assert_eq!(ColorFormat::Hex.title(), "He[x]");
    assert_eq!(ColorFormat::Rgb.title(), "[R]GB");
    assert_eq!(ColorFormat::Hsv.title(), "[H]SV");
    assert_eq!(ColorFormat::Hex.as_char(), 'x');
    assert_eq!(ColorFormat::Rgb.as_char(), 'r');
    assert_eq!(ColorFormat::Hsv.as_char(), 'h');
}

#[test]
fn format_color_exact_texts() {
    let c = hsv_from_rgb(255, 87, 51);
    assert_eq!(ColorFormat::Hex.format_color(&c), "#FF5733");
    assert_eq!(ColorFormat::Rgb.format_color(&c), "rgb(255, 87, 51)");
    // hue 60*36/204 = 10.58.. truncates to 10; saturation 204/255 = 80%,
    // value 100%.
    assert_eq!(ColorFormat::Hsv.format_color(&c), "hsv(10, 80%, 100%)");
    let d = hsv_11_08_10();
    assert_eq!(ColorFormat::Hsv.format_color(&d), "hsv(11, 80%, 100%)");
}

#[test]
fn encoded_texts_decode_back() {
    let c = hsv_11_08_10();
    let text = ColorFormat::Hsv.format_color(&c);
    assert_eq!(validate_pasted_color(text.as_str()), Some(c));
    let d = hsv_from_rgb(12, 200, 7);
    let hex = ColorFormat::Hex.format_color(&d);
    assert_eq!(validate_pasted_color(hex.as_str()), Some(d));
    let rgb = ColorFormat::Rgb.format_color(&d);
    assert_eq!(validate_pasted_color(rgb.as_str()), Some(d));
}

#[test]
fn copy_selector_keys() {
    let c = hsv_from_rgb(1, 2, 3);
    let hex = handle_copy_input_format_selection_input(KeyCode::Char('x'), &c);
    assert_eq!(hex, Some("#010203".to_string()));
    let rgb = handle_copy_input_format_selection_input(KeyCode::Char('r'), &c);
    assert_eq!(rgb, Some("rgb(1, 2, 3)".to_string()));
    let hsv = handle_copy_input_format_selection_input(KeyCode::Char('h'), &c);
    assert!(hsv.is_some());
    assert_eq!(handle_copy_input_format_selection_input(KeyCode::Char('z'), &c), None);
    assert_eq!(handle_copy_input_format_selection_input(KeyCode::Enter, &c), None);
}
