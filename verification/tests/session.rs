use tui_color_picker::state::{KeyAction, State};
use tui_color_picker::types::{KeyCode, MouseEvent, MouseEventKind, Vec2};
use tui_color_picker::ui::hue_picker::HuePicker;
use tui_color_picker::ui::inputs::{Focus, Inputs};
use tui_color_picker::ui::sv_picker::SVPicker;
use tui_color_picker::frac::Frac;

fn fresh_state() -> State {
    let mut s = State::new(
        SVPicker::new(Vec2 { x: 0, y: 2 }, 60, 30),
        HuePicker::new(Vec2 { x: 63, y: 2 }, 5, 30),
        Inputs::new(Vec2 { x: 71, y: 2 }),
        120,
        40,
    );
    s.update_offset(120, 40);
    s.offset_all();
    s
}

fn down(column: u16, row: u16) -> MouseEvent {
    MouseEvent { kind: MouseEventKind::DownLeft, column, row }
}

#[test]
fn click_outside_everything_defocuses_and_keeps_color() {
    // A press strictly outside every component's bounding box drops any
    // active focus and leaves the selected color untouched.
    let mut s = fresh_state();
    let inputs_pos = s.inputs.pos;
    s.handle_mouse_event(down(inputs_pos.x as u16, (inputs_pos.y + 6) as u16));
    assert_eq!(s.inputs.focus, Focus::R);
    let color = s.sv_picker.get_current();
    s.handle_mouse_event(down(0, 0));
    assert_eq!(s.inputs.focus, Focus::NONE);
    assert_eq!(s.sv_picker.get_current(), color);
}

#[test]
fn grid_click_changes_color() {
    let mut s = fresh_state();
    let pos = s.sv_picker.pos;
    s.handle_mouse_event(down((pos.x + 10) as u16, (pos.y + 5) as u16));
    let c = s.sv_picker.get_current();
    assert_eq!(c.saturation, Frac { num: 10, den: 60 });
    assert_eq!(c.value, Frac { num: 25, den: 30 });
}

#[test]
fn hue_click_keeps_saturation_and_value() {
    let mut s = fresh_state();
    let grid = s.sv_picker.pos;
    s.handle_mouse_event(down((grid.x + 10) as u16, (grid.y + 5) as u16));
    let before = s.sv_picker.get_current();
    let strip = s.hue_picker.pos;
    s.handle_mouse_event(down(strip.x as u16, (strip.y + 15) as u16));
    let after = s.sv_picker.get_current();
    assert_eq!(after.hue, Frac { num: 360 * 15, den: 30 });
    assert_eq!(after.saturation, before.saturation);
    assert_eq!(after.value, before.value);
}

#[test]
fn quit_keys_request_exit() {
    let mut s = fresh_state();
    let (action, _) = s.handle_key_event(KeyCode::Char('q'));
    assert_eq!(action, KeyAction::Exit);
    assert!(s.exit_requested);
    let mut t = fresh_state();
    let (action, _) = t.handle_key_event(KeyCode::Esc);
    assert_eq!(action, KeyAction::Exit);
}

#[test]
fn copy_selector_consumes_next_key() {
    let mut s = fresh_state();
    let (action, _) = s.handle_key_event(KeyCode::Char('y'));
    assert_eq!(action, KeyAction::Nothing);
    assert!(s.copy_mode);
    // The selector now owns the keystroke: `x` copies the hex text and the
    // modal closes; the quit key is not interpreted globally here.
    let (action, _) = s.handle_key_event(KeyCode::Char('x'));
    assert_eq!(action, KeyAction::Copy("#FF0000".to_string()));
    assert!(!s.copy_mode);
    assert!(s.copy_confirmed);
    let mut t = fresh_state();
    t.handle_key_event(KeyCode::Char('y'));
    let (action, _) = t.handle_key_event(KeyCode::Char('q'));
    assert_eq!(action, KeyAction::Nothing);
    assert!(!t.exit_requested);
}

#[test]
fn paste_key_requests_clipboard() {
    let mut s = fresh_state();
    let (action, _) = s.handle_key_event(KeyCode::Char('p'));
    assert_eq!(action, KeyAction::PasteRequest);
}

#[test]
fn apply_paste_updates_color_or_keeps_it() {
    let mut s = fresh_state();
    let (ok, _) = s.apply_paste("#336699");
    assert!(ok);
    assert!(s.paste_confirmed);
    assert_eq!(
        s.sv_picker.get_current(),
        tui_color_picker::utils::hsv_from_rgb(0x33, 0x66, 0x99),
    );
    let before = s.sv_picker.get_current();
    let (ok, cmds) = s.apply_paste("not a color");
    assert!(!ok);
    assert!(cmds.is_empty());
    assert_eq!(s.sv_picker.get_current(), before);
}

#[test]
fn committed_field_values_update_color() {
    let mut s = fresh_state();
    let inputs_pos = s.inputs.pos;
    // Focus the G field and commit 128.
    s.handle_mouse_event(down(inputs_pos.x as u16, (inputs_pos.y + 7) as u16));
    assert_eq!(s.inputs.focus, Focus::G);
    s.handle_key_event(KeyCode::Char('1'));
    s.handle_key_event(KeyCode::Char('2'));
    s.handle_key_event(KeyCode::Char('8'));
    s.handle_key_event(KeyCode::Enter);
    assert_eq!(s.inputs.focus, Focus::NONE);
    assert_eq!(
        s.sv_picker.get_current(),
        tui_color_picker::utils::hsv_from_rgb(255, 128, 0),
    );
}

#[test]
fn resize_tracks_terminal_size() {
    let mut s = fresh_state();
    s.handle_resize(20, 10);
    assert!(s.term_too_small);
    s.handle_resize(200, 50);
    assert!(!s.term_too_small);
    assert_eq!(s.offset, Vec2 { x: (200 - 95) / 2, y: (50 - 32) / 2 });
}

#[test]
fn clear_confirmations_resets_flags() {
    let mut s = fresh_state();
    let _ = s.apply_paste("#336699");
    assert!(s.paste_confirmed);
    let cmds = s.clear_confirmations();
    assert!(!s.paste_confirmed && !s.copy_confirmed);
    assert!(!cmds.is_empty());
}
