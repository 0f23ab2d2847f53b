use tui_color_picker::color::Hsv;
use tui_color_picker::frac::Frac;
use tui_color_picker::types::{KeyCode, Vec2};
use tui_color_picker::ui::inputs::{Focus, Inputs};
use tui_color_picker::utils::hsv_from_rgb;

fn red() -> Hsv {
    Hsv {
        hue: Frac { num: 0, den: 1 },
        saturation: Frac { num: 1, den: 1 },
        value: Frac { num: 1, den: 1 },
    }
}

#[test]
fn focus_rows_and_lengths() {
    assert_eq!(Focus::Hex.value(), 4);
    assert_eq!(Focus::R.value(), 6);
    assert_eq!(Focus::V.value(), 12);
    assert_eq!(Focus::NONE.value(), 0);
    assert_eq!(Focus::Hex.prefix(), "#");
    assert_eq!(Focus::R.prefix(), "R ");
    assert_eq!(Focus::Hex.input_max_len(), 6);
    assert_eq!(Focus::S.input_max_len(), 3);
    assert_eq!(Focus::NONE.input_max_len(), 0);
}

#[test]
fn typing_into_r_field_caps_at_three_digits() {
    // Focusing field R and typing four digits: the fourth is beyond the
    // field's width and is dropped; committing yields 255 and defocuses.
    let mut inputs = Inputs::new(Vec2 { x: 0, y: 0 });
    assert_eq!(inputs.mouse_click(0, 6), Ok(()));
    assert_eq!(inputs.focus, Focus::R);
    inputs.gain_focus(&red());
    assert_eq!(inputs.value_input(KeyCode::Char('2')), None);
    assert_eq!(inputs.value_input(KeyCode::Char('5')), None);
    assert_eq!(inputs.value_input(KeyCode::Char('5')), None);
    assert_eq!(inputs.value_input(KeyCode::Char('5')), None);
    assert_eq!(inputs.input_str().as_str(), "255");
    assert_eq!(inputs.value_input(KeyCode::Enter), Some((Focus::R, 255)));
    assert_eq!(inputs.focus, Focus::NONE);
}

#[test]
fn prefill_shows_formatted_values() {
    let mut inputs = Inputs::new(Vec2 { x: 0, y: 0 });
    let color = hsv_from_rgb(255, 87, 51);
    inputs.focus = Focus::Hex;
    inputs.gain_focus(&color);
    assert_eq!(inputs.input_str().as_str(), "ff5733");
    inputs.focus = Focus::R;
    inputs.gain_focus(&color);
    assert_eq!(inputs.input_str().as_str(), "255");
    inputs.focus = Focus::G;
    inputs.gain_focus(&color);
    assert_eq!(inputs.input_str().as_str(), " 87");
    inputs.focus = Focus::H;
    inputs.gain_focus(&color);
    // 2160/204 = 10.588.. rounds to 11 at the field's whole-degree width.
    assert_eq!(inputs.input_str().as_str(), " 11");
    inputs.focus = Focus::S;
    inputs.gain_focus(&color);
    assert_eq!(inputs.input_str().as_str(), " 80");
}

#[test]
fn committing_untouched_padded_prefill_yields_zero() {
    // A pre-filled narrow value keeps its padding spaces; committing it
    // unedited fails the strict parse and yields zero, as specified.
    let mut inputs = Inputs::new(Vec2 { x: 0, y: 0 });
    let color = hsv_from_rgb(5, 5, 5);
    inputs.focus = Focus::R;
    inputs.gain_focus(&color);
    assert_eq!(inputs.input_str().as_str(), "  5");
    assert_eq!(inputs.value_input(KeyCode::Enter), Some((Focus::R, 0)));
}

#[test]
fn first_keystroke_overwrites_prefill() {
    let mut inputs = Inputs::new(Vec2 { x: 0, y: 0 });
    inputs.focus = Focus::B;
    inputs.gain_focus(&hsv_from_rgb(0, 0, 123));
    assert_eq!(inputs.input_str().as_str(), "123");
    assert_eq!(inputs.value_input(KeyCode::Char('7')), None);
    assert_eq!(inputs.input_str().as_str(), "7");
}

#[test]
fn hex_field_lowercases_and_filters() {
    let mut inputs = Inputs::new(Vec2 { x: 0, y: 0 });
    inputs.focus = Focus::Hex;
    inputs.gain_focus(&red());
    inputs.value_input(KeyCode::Char('A'));
    inputs.value_input(KeyCode::Char('b'));
    inputs.value_input(KeyCode::Char('3'));
    inputs.value_input(KeyCode::Char('z'));
    assert_eq!(inputs.input_str().as_str(), "ab3");
    assert_eq!(inputs.value_input(KeyCode::Enter), Some((Focus::Hex, 0xab3)));
}

#[test]
fn decimal_field_rejects_hex_letters() {
    let mut inputs = Inputs::new(Vec2 { x: 0, y: 0 });
    inputs.focus = Focus::G;
    inputs.gain_focus(&red());
    inputs.value_input(KeyCode::Char('a'));
    inputs.value_input(KeyCode::Char('9'));
    assert_eq!(inputs.input_str().as_str(), "9");
}

#[test]
fn backspace_shortens_and_escape_cancels() {
    let mut inputs = Inputs::new(Vec2 { x: 0, y: 0 });
    inputs.focus = Focus::R;
    inputs.gain_focus(&hsv_from_rgb(200, 0, 0));
    inputs.value_input(KeyCode::Char('4'));
    inputs.value_input(KeyCode::Char('2'));
    assert_eq!(inputs.input_str().as_str(), "42");
    inputs.value_input(KeyCode::Backspace);
    assert_eq!(inputs.input_str().as_str(), "4");
    assert_eq!(inputs.value_input(KeyCode::Esc), None);
    assert_eq!(inputs.focus, Focus::NONE);
}

#[test]
fn click_outside_fields_defocuses() {
    let mut inputs = Inputs::new(Vec2 { x: 0, y: 0 });
    inputs.focus = Focus::R;
    assert_eq!(inputs.mouse_click(9, 6), Err(()));
    assert_eq!(inputs.focus, Focus::NONE);
    // A dead row between fields holds no field either: it too is a defocus
    // click.
    inputs.focus = Focus::R;
    assert_eq!(inputs.mouse_click(0, 5), Err(()));
    assert_eq!(inputs.focus, Focus::NONE);
    inputs.focus = Focus::R;
    assert_eq!(inputs.mouse_click(0, 9), Err(()));
    assert_eq!(inputs.focus, Focus::NONE);
}

#[test]
fn lose_focus_reports_untouched_buffer() {
    let mut inputs = Inputs::new(Vec2 { x: 0, y: 0 });
    inputs.focus = Focus::R;
    inputs.gain_focus(&red());
    assert!(inputs.lose_focus());
    inputs.focus = Focus::R;
    inputs.gain_focus(&red());
    inputs.value_input(KeyCode::Char('1'));
    assert!(!inputs.lose_focus());
    assert_eq!(inputs.focus, Focus::NONE);
}
