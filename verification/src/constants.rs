use vstd::prelude::*;
use crate::types::Vec2;

verus! {

// Layout constants, in terminal cells.

pub const SV_PICKER_WIDTH: u32 = 60;
pub const SV_PICKER_HEIGHT: u32 = 30;

pub const HUE_PICKER_WIDTH: u32 = 5;
pub const HUE_PICKER_HEIGHT: u32 = SV_PICKER_HEIGHT;

pub const INPUTS_CB_HEIGHT: u32 = 4;
pub const INPUTS_CB_WIDTH: u32 = 16;

pub const COPY_FORMAT_SELECTOR_SPACING: u32 = 6;
pub const COPY_FORMAT_SELECTOR_WIDTH: u32 = COPY_FORMAT_SELECTOR_SPACING + 18;
pub const COPY_FORMAT_SELECTOR_HEIGHT: u32 = 4;

/// Width of the whole layout; the copy-format selector is the widest part
/// right of the hue strip.
pub const TOTAL_WIDTH: u32 = SV_PICKER_WIDTH + 3 + HUE_PICKER_WIDTH + 3 + COPY_FORMAT_SELECTOR_WIDTH;
pub const TOTAL_HEIGHT: u32 = 2 + SV_PICKER_HEIGHT;

pub fn value_display_rel_pos() -> (v: Vec2)
    ensures
        v == (Vec2 { x: 0u32, y: 0u32 }),
{
    Vec2 { x: 0, y: 0 }
}

pub fn sv_picker_rel_pos() -> (v: Vec2)
    ensures
        v == (Vec2 { x: 0u32, y: 2u32 }),
{
    Vec2 { x: 0, y: 2 }
}

pub fn hue_picker_rel_pos() -> (v: Vec2)
    ensures
        v.x == SV_PICKER_WIDTH + 3,
        v.y == 2,
{
    Vec2 { x: SV_PICKER_WIDTH + 3, y: 2 }
}

pub fn inputs_rel_pos() -> (v: Vec2)
    ensures
        v.x == SV_PICKER_WIDTH + 3 + HUE_PICKER_WIDTH + 3,
        v.y == 2,
{
    Vec2 { x: SV_PICKER_WIDTH + 3 + HUE_PICKER_WIDTH + 3, y: 2 }
}

pub fn copy_format_selector_rel_pos() -> (v: Vec2)
    ensures
        v.x == SV_PICKER_WIDTH + 3 + HUE_PICKER_WIDTH + 3,
        v.y == 2 + SV_PICKER_HEIGHT - COPY_FORMAT_SELECTOR_HEIGHT,
{
    Vec2 { x: SV_PICKER_WIDTH + 3 + HUE_PICKER_WIDTH + 3, y: 2 + SV_PICKER_HEIGHT - COPY_FORMAT_SELECTOR_HEIGHT }
}

pub fn const_max(a: u16, b: u16) -> (m: u16)
    ensures
        m == if a > b { a } else { b },
{
    if a > b { a } else { b }
}

// Glyphs used by the renderers.

pub const LOWER_HALF_BLOCK: char = '\u{2584}';
pub const FULL_CELL_BLOCK: char = '\u{2588}';

pub const TOP_LEFT_ROUNDED: char = '\u{256d}';
pub const TOP_RIGHT_ROUNDED: char = '\u{256e}';
pub const BOTTOM_LEFT_ROUNDED: char = '\u{2570}';
pub const BOTTOM_RIGHT_ROUNDED: char = '\u{256f}';
pub const TOP_LEFT_SHARP: char = '\u{250c}';
pub const TOP_RIGHT_SHARP: char = '\u{2510}';
pub const BOTTOM_LEFT_SHARP: char = '\u{2514}';
pub const BOTTOM_RIGHT_SHARP: char = '\u{2518}';
pub const HORIZONTAL_LINE: char = '\u{2500}';
pub const VERTICAL_LINE: char = '\u{2502}';

/// A plain 8-bit RGB triple, as handed to the terminal renderer.
#[derive(Debug, Clone, Copy, PartialEq, Eq, Structural)]
pub struct CustomRgb {
    pub r: u8,
    pub g: u8,
    pub b: u8,
}

pub fn background_color() -> (c: CustomRgb)
    ensures
        c == (CustomRgb { r: 0x1du8, g: 0x1du8, b: 0x1du8 }),
{
    CustomRgb { r: 0x1d, g: 0x1d, b: 0x1d }
}

pub fn text_color() -> (c: CustomRgb)
    ensures
        c == (CustomRgb { r: 0xffu8, g: 0xffu8, b: 0xffu8 }),
{
    CustomRgb { r: 0xff, g: 0xff, b: 0xff }
}

pub fn faded_text_color() -> (c: CustomRgb)
    ensures
        c == (CustomRgb { r: 0x80u8, g: 0x80u8, b: 0x80u8 }),
{
    CustomRgb { r: 0x80, g: 0x80, b: 0x80 }
}

// The fade factor: a faded sample's value is lowered by 2/5 (clamped at zero).

pub const FADE_VALUE_NUM: u64 = 2;
pub const FADE_VALUE_DEN: u64 = 5;

} // verus!
