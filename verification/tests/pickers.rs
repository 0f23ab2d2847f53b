use tui_color_picker::color::Hsv;
use tui_color_picker::frac::Frac;
use tui_color_picker::render::DrawCmd;
use tui_color_picker::types::Vec2;
use tui_color_picker::ui::hue_picker::HuePicker;
use tui_color_picker::ui::sv_picker::SVPicker;

fn frac_le(a: &Frac, b: &Frac) -> bool {
    (a.num as u128) * (b.den as u128) <= (b.num as u128) * (a.den as u128)
}

#[test]
fn grid_corners_map_exactly() {
    let p = SVPicker::new(Vec2 { x: 0, y: 0 }, 60, 30);
    let top_left = p.get(0, 0).unwrap();
    assert_eq!(top_left.saturation, Frac { num: 0, den: 60 });
    assert_eq!(top_left.value, Frac { num: 30, den: 30 });
    let bottom_right = p.get(59, 29).unwrap();
    assert_eq!(bottom_right.saturation, Frac { num: 59, den: 60 });
    assert_eq!(bottom_right.value, Frac { num: 1, den: 30 });
    assert_eq!(p.get(60, 0), Err(()));
    assert_eq!(p.get(0, 30), Err(()));
}

#[test]
fn grid_mapping_is_monotonic() {
    // Saturation never falls as x grows; value never rises as y grows.
    let p = SVPicker::new(Vec2 { x: 0, y: 0 }, 17, 9);
    for y in 0..9 {
        for x in 1..17 {
            let left = p.get(x - 1, y).unwrap();
            let here = p.get(x, y).unwrap();
            assert!(frac_le(&left.saturation, &here.saturation));
        }
    }
    for x in 0..17 {
        for y in 1..9 {
            let above = p.get(x, y - 1).unwrap();
            let here = p.get(x, y).unwrap();
            assert!(frac_le(&here.value, &above.value));
        }
    }
}

#[test]
fn grid_selection_keeps_hue_and_rejects_out_of_bounds() {
    let mut p = SVPicker::new(Vec2 { x: 0, y: 0 }, 60, 30);
    p.set_hue(Frac { num: 200, den: 1 });
    let before = p.get_current();
    assert_eq!(p.change_color(60, 0), Err(()));
    assert_eq!(p.get_current(), before);
    assert_eq!(p.change_color(30, 10), Ok(()));
    let after = p.get_current();
    assert_eq!(after.hue, Frac { num: 200, den: 1 });
    assert_eq!(after.saturation, Frac { num: 30, den: 60 });
    assert_eq!(after.value, Frac { num: 20, den: 30 });
}

#[test]
fn hue_strip_rows_advance_linearly() {
    let p = HuePicker::new(Vec2 { x: 0, y: 0 }, 5, 30);
    assert_eq!(p.get(0, 0), Ok(Frac { num: 0, den: 30 }));
    assert_eq!(p.get(4, 15), Ok(Frac { num: 5400, den: 30 }));
    assert_eq!(p.get(0, 29), Ok(Frac { num: 10440, den: 30 }));
    assert_eq!(p.get(5, 0), Err(()));
    assert_eq!(p.get(0, 30), Err(()));
}

#[test]
fn sv_render_cells_sample_the_gradient() {
    let p = SVPicker::new(Vec2 { x: 0, y: 0 }, 2, 2);
    let cells = p.render_cells(false);
    assert_eq!(cells.len(), 4);
    // Top-left cell: saturation 0, value 1 -> white above, slightly darker
    // white below (value 3/4 of the half-cell step grid).
    assert_eq!((cells[0].top.r, cells[0].top.g, cells[0].top.b), (255, 255, 255));
    assert_eq!(cells[0].bottom.r, cells[0].bottom.g);
    assert!(cells[0].bottom.r < 255);
}

#[test]
fn hue_strip_render_starts_red() {
    let p = HuePicker::new(Vec2 { x: 0, y: 0 }, 5, 30);
    let rows = p.render_rows(false);
    assert_eq!(rows.len(), 30);
    assert_eq!((rows[0].top.r, rows[0].top.g, rows[0].top.b), (255, 0, 0));
    // Half-way down the strip the hue is 180 degrees: cyan.
    assert_eq!((rows[15].top.r, rows[15].top.g, rows[15].top.b), (0, 255, 255));
}

#[test]
fn draw_streams_start_at_component_origin() {
    let p = SVPicker::new(Vec2 { x: 3, y: 7 }, 4, 2);
    let cmds = p.draw(false);
    assert_eq!(cmds[0], DrawCmd::MoveTo(3, 7));
    assert_eq!(cmds.len(), 1 + 2 * (2 * 4 + 2) + 1);
    let h = HuePicker::new(Vec2 { x: 9, y: 1 }, 2, 3);
    let hcmds = h.draw(true);
    assert_eq!(hcmds[0], DrawCmd::MoveTo(9, 1));
    assert_eq!(hcmds.len(), 1 + 4 * 3 + 1);
}
