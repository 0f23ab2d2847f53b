use vstd::prelude::*;
use vstd::arithmetic::div_mod::{lemma_multiply_divide_le, lemma_multiply_divide_lt};
use vstd::string::StringExecFns;
use crate::color::{Hsv, spec_rgb_from_hsv};
use crate::constants::CustomRgb;
use crate::crossterm_commands::{FillRect, ResetDefaultColors, spec_default_fg, spec_rendered_rgb};
use crate::frac::Frac;
use crate::render::DrawCmd;
use crate::text::{spec_dec, spec_hex_byte_upper, spec_repeat, dec_string, hex_byte_upper};
use crate::types::{KeyCode, Vec2};
use crate::utils::rgb_from_hsv;

verus! {

/// The textual formats a color can be copied in.
#[derive(Debug, Clone, Copy, PartialEq, Eq, Structural)]
pub enum ColorFormat {
    Hex,
    Rgb,
    Hsv,
}

pub open spec fn spec_format_name(f: ColorFormat) -> Seq<char> {
    match f {
        ColorFormat::Hex => "Hex"@,
        ColorFormat::Rgb => "RGB"@,
        ColorFormat::Hsv => "HSV"@,
    }
}

pub open spec fn spec_format_title(f: ColorFormat) -> Seq<char> {
    match f {
        ColorFormat::Hex => "He[x]"@,
        ColorFormat::Rgb => "[R]GB"@,
        ColorFormat::Hsv => "[H]SV"@,
    }
}

pub open spec fn spec_format_char(f: ColorFormat) -> char {
    match f {
        ColorFormat::Hex => 'x',
        ColorFormat::Rgb => 'r',
        ColorFormat::Hsv => 'h',
    }
}

/// The hue in whole degrees, truncated.
pub open spec fn spec_hue_degrees(c: Hsv) -> int {
    c.hue.num as int / c.hue.den as int
}

/// The saturation in whole percent, truncated.
pub open spec fn spec_sat_percent(c: Hsv) -> int {
    (100 * c.saturation.num) as int / c.saturation.den as int
}

/// The value in whole percent, truncated.
pub open spec fn spec_val_percent(c: Hsv) -> int {
    (100 * c.value.num) as int / c.value.den as int
}

/// `#RRGGBB`, uppercase.
pub open spec fn spec_hex_text(c: Hsv) -> Seq<char> {
    let rgb = spec_rgb_from_hsv(c);
    "#"@ + spec_hex_byte_upper(rgb.0 as int) + spec_hex_byte_upper(rgb.1 as int)
        + spec_hex_byte_upper(rgb.2 as int)
}

/// `rgb(r, g, b)` in decimal.
pub open spec fn spec_rgb_text(c: Hsv) -> Seq<char> {
    let rgb = spec_rgb_from_hsv(c);
    "rgb("@ + spec_dec(rgb.0 as int) + ", "@ + spec_dec(rgb.1 as int) + ", "@ + spec_dec(
        rgb.2 as int,
    ) + ")"@
}

/// `hsv(h, s%, v%)`: the hue truncated to whole degrees, saturation and value
/// truncated to whole percent.
pub open spec fn spec_hsv_text(c: Hsv) -> Seq<char> {
    "hsv("@ + spec_dec(spec_hue_degrees(c)) + ", "@ + spec_dec(spec_sat_percent(c)) + "%, "@
        + spec_dec(spec_val_percent(c)) + "%)"@
}

/// The text a format produces for a color.
pub open spec fn spec_format_text(f: ColorFormat, c: Hsv) -> Seq<char> {
    match f {
        ColorFormat::Hex => spec_hex_text(c),
        ColorFormat::Rgb => spec_rgb_text(c),
        ColorFormat::Hsv => spec_hsv_text(c),
    }
}

impl ColorFormat {
    pub fn as_str(&self) -> (r: &'static str)
        ensures
            r@ == spec_format_name(*self),
    {
        match self {
            ColorFormat::Hex => "Hex",
            ColorFormat::Rgb => "RGB",
            ColorFormat::Hsv => "HSV",
        }
    }

    pub fn title(&self) -> (r: &'static str)
        ensures
            r@ == spec_format_title(*self),
    {
        match self {
            ColorFormat::Hex => "He[x]",
            ColorFormat::Rgb => "[R]GB",
            ColorFormat::Hsv => "[H]SV",
        }
    }

    pub fn as_char(&self) -> (r: char)
        ensures
            r == spec_format_char(*self),
    {
        match self {
            ColorFormat::Hex => 'x',
            ColorFormat::Rgb => 'r',
            ColorFormat::Hsv => 'h',
        }
    }

    /// The exact clipboard text for a color in this format.
    pub fn format_color(&self, color: &Hsv) -> (r: String)
        requires
            color.wf(),
        ensures
            r@ == spec_format_text(*self, *color),
    {
        match self {
            ColorFormat::Hex => hex_text(color),
            ColorFormat::Rgb => rgb_text(color),
            ColorFormat::Hsv => hsv_text(color),
        }
    }
}

/// The `#RRGGBB` text of a color.
pub fn hex_text_of(color: &Hsv) -> (r: String)
    requires
        color.wf(),
    ensures
        r@ == spec_hex_text(*color),
{
    hex_text(color)
}

fn hex_text(color: &Hsv) -> (r: String)
    requires
        color.wf(),
    ensures
        r@ == spec_hex_text(*color),
{
    let rgb = rgb_from_hsv(color);
    let mut r = String::from_str("#");
    r.append(hex_byte_upper(rgb.0).as_str());
    r.append(hex_byte_upper(rgb.1).as_str());
    r.append(hex_byte_upper(rgb.2).as_str());
    proof {
        assert(r@ =~= spec_hex_text(*color));
    }
    r
}

fn rgb_text(color: &Hsv) -> (r: String)
    requires
        color.wf(),
    ensures
        r@ == spec_rgb_text(*color),
{
    let rgb = rgb_from_hsv(color);
    let mut r = String::from_str("rgb(");
    r.append(dec_string(rgb.0 as u32).as_str());
    r.append(", ");
    r.append(dec_string(rgb.1 as u32).as_str());
    r.append(", ");
    r.append(dec_string(rgb.2 as u32).as_str());
    r.append(")");
    proof {
        assert(r@ =~= spec_rgb_text(*color));
    }
    r
}

/// The hue of a color in whole degrees, truncated; below 360.
pub fn hue_degrees(color: &Hsv) -> (d: u32)
    requires
        color.wf(),
    ensures
        d == spec_hue_degrees(*color),
        d < 360,
{
    proof {
        lemma_multiply_divide_lt(color.hue.num as int, color.hue.den as int, 360);
    }
    (color.hue.num / color.hue.den) as u32
}

/// The saturation of a color in whole percent, truncated; at most 100.
pub fn sat_percent(color: &Hsv) -> (p: u32)
    requires
        color.wf(),
    ensures
        p == spec_sat_percent(*color),
        p <= 100,
{
    proof {
        lemma_multiply_divide_le(
            (100 * color.saturation.num) as int,
            color.saturation.den as int,
            100,
        );
    }
    ((100 * color.saturation.num) / color.saturation.den) as u32
}

/// The value of a color in whole percent, truncated; at most 100.
pub fn val_percent(color: &Hsv) -> (p: u32)
    requires
        color.wf(),
    ensures
        p == spec_val_percent(*color),
        p <= 100,
{
    proof {
        lemma_multiply_divide_le((100 * color.value.num) as int, color.value.den as int, 100);
    }
    ((100 * color.value.num) / color.value.den) as u32
}

fn hsv_text(color: &Hsv) -> (r: String)
    requires
        color.wf(),
    ensures
        r@ == spec_hsv_text(*color),
{
    let mut r = String::from_str("hsv(");
    r.append(dec_string(hue_degrees(color)).as_str());
    r.append(", ");
    r.append(dec_string(sat_percent(color)).as_str());
    r.append("%, ");
    r.append(dec_string(val_percent(color)).as_str());
    r.append("%)");
    proof {
        assert(r@ =~= spec_hsv_text(*color));
    }
    r
}

/// Decides what a keystroke in the copy-format selector copies: `x`, `r` and
/// `h` select a format and yield its exact text for the color; any other key
/// selects nothing.
pub fn handle_copy_input_format_selection_input(event: KeyCode, color: &Hsv) -> (r: Option<
    String,
>)
    requires
        color.wf(),
    ensures
        r is Some <==> (event == KeyCode::Char('x') || event == KeyCode::Char('r') || event
            == KeyCode::Char('h')),
        event == KeyCode::Char('x') ==> (r matches Some(s) && s@ == spec_hex_text(*color)),
        event == KeyCode::Char('r') ==> (r matches Some(s) && s@ == spec_rgb_text(*color)),
        event == KeyCode::Char('h') ==> (r matches Some(s) && s@ == spec_hsv_text(*color)),
{
    match event {
        KeyCode::Char(c) => {
            if c == 'x' {
                Some(ColorFormat::Hex.format_color(color))
            } else if c == 'r' {
                Some(ColorFormat::Rgb.format_color(color))
            } else if c == 'h' {
                Some(ColorFormat::Hsv.format_color(color))
            } else {
                None
            }
        },
        _ => None,
    }
}

/// The accented color the selector letters are shown in: the current hue at
/// half saturation and near-full value.
pub open spec fn spec_accent_color(c: Hsv) -> Hsv {
    Hsv {
        hue: c.hue,
        saturation: Frac { num: 1u64, den: 2u64 },
        value: Frac { num: 19u64, den: 20u64 },
    }
}

/// Renders the copy-format selector: a title and one row per format, each
/// with its key letter accented and the exact text it would copy.
pub fn draw_clipboard_format_selector(pos: Vec2, color: &Hsv, fade: bool) -> (cmds: Vec<DrawCmd>)
    requires
        color.wf(),
        pos.x + 6 <= u16::MAX,
        pos.y + 3 <= u16::MAX,
    ensures
        cmds@.len() == 19,
        cmds@[0] == DrawCmd::SetColors(
            spec_default_fg(fade),
            CustomRgb { r: 0x1du8, g: 0x1du8, b: 0x1du8 },
        ),
        cmds@[1] == DrawCmd::MoveTo(pos.x as u16, pos.y as u16),
        cmds@[2] matches DrawCmd::PrintBold(s) && s@ == "Select Copy Format:"@,
        cmds@[5] matches DrawCmd::PrintBoldColored(s, c) && s@ == "x"@ && c == spec_rendered_rgb(
            spec_accent_color(*color),
            false,
        ),
        cmds@[8] matches DrawCmd::Print(s) && s@ == spec_hex_text(*color),
        cmds@[13] matches DrawCmd::Print(s) && s@ == spec_rgb_text(*color),
        cmds@[18] matches DrawCmd::Print(s) && s@ == spec_hsv_text(*color),
{
    let hex_str = hex_text(color);
    let rgb_str = rgb_text(color);
    let hsv_str = hsv_text(color);
    // The key letters are shown in the current hue at half saturation and
    // near-full value.
    let accent = Hsv {
        hue: color.hue,
        saturation: Frac { num: 1, den: 2 },
        value: Frac { num: 19, den: 20 },
    };
    let argb = rgb_from_hsv(&accent);
    let acc = CustomRgb { r: argb.0, g: argb.1, b: argb.2 };
    let mut cmds: Vec<DrawCmd> = Vec::new();
    let mut reset = ResetDefaultColors(fade).commands();
    cmds.push(reset.remove(0));
    cmds.push(DrawCmd::MoveTo(pos.x as u16, pos.y as u16));
    cmds.push(DrawCmd::PrintBold(String::from_str("Select Copy Format:")));
    cmds.push(DrawCmd::MoveTo(pos.x as u16, (pos.y + 1) as u16));
    cmds.push(DrawCmd::Print(String::from_str("He")));
    cmds.push(DrawCmd::PrintBoldColored(String::from_str("x"), acc));
    cmds.push(DrawCmd::Print(String::from_str(":")));
    cmds.push(DrawCmd::MoveTo((pos.x + 6) as u16, (pos.y + 1) as u16));
    cmds.push(DrawCmd::Print(hex_str));
    cmds.push(DrawCmd::MoveTo(pos.x as u16, (pos.y + 2) as u16));
    cmds.push(DrawCmd::PrintBoldColored(String::from_str("R"), acc));
    cmds.push(DrawCmd::Print(String::from_str("GB:")));
    cmds.push(DrawCmd::MoveTo((pos.x + 6) as u16, (pos.y + 2) as u16));
    cmds.push(DrawCmd::Print(rgb_str));
    cmds.push(DrawCmd::MoveTo(pos.x as u16, (pos.y + 3) as u16));
    cmds.push(DrawCmd::PrintBoldColored(String::from_str("H"), acc));
    cmds.push(DrawCmd::Print(String::from_str("SV:")));
    cmds.push(DrawCmd::MoveTo((pos.x + 6) as u16, (pos.y + 3) as u16));
    cmds.push(DrawCmd::Print(hsv_str));
    cmds
}

/// Blanks the rectangle the copy-format selector was drawn in.
pub fn clear_clipboard_format_selector(pos: Vec2) -> (cmds: Vec<DrawCmd>)
    requires
        pos.x <= u16::MAX,
        pos.y <= u16::MAX,
    ensures
        cmds@.len() == 14,
        cmds@[0] == DrawCmd::SetColors(
            spec_default_fg(false),
            CustomRgb { r: 0x1du8, g: 0x1du8, b: 0x1du8 },
        ),
        cmds@[1] == DrawCmd::MoveTo(pos.x as u16, pos.y as u16),
        forall|i: int|
            0 <= i < 4 ==> ((#[trigger] cmds@[2 + 3 * i]) matches DrawCmd::Print(s) && s@
                == spec_repeat(' ', 24)),
{
    let mut cmds = ResetDefaultColors(false).commands();
    let mut rect = FillRect(pos, 24, 4).commands();
    let ghost orig = rect@;
    let mut k: usize = 0;
    proof {
        assert(rect@ =~= orig.subrange(0, orig.len() as int));
    }
    #[verifier::loop_isolation(false)]
    while rect.len() > 0
        invariant
            k + rect@.len() == orig.len(),
            rect@ == orig.subrange(k as int, orig.len() as int),
            cmds@.len() == 1 + k,
            cmds@[0] == DrawCmd::SetColors(
                spec_default_fg(false),
                CustomRgb { r: 0x1du8, g: 0x1du8, b: 0x1du8 },
            ),
            forall|i: int| 0 <= i < k ==> cmds@[1 + i] == orig[i],
        decreases rect@.len(),
    {
        let cmd = rect.remove(0);
        cmds.push(cmd);
        k = k + 1;
        proof {
            assert(rect@ =~= orig.subrange(k as int, orig.len() as int));
        }
    }
    proof {
        assert(cmds@[1] == orig[0]);
        assert forall|i: int| 0 <= i < 4 implies ((#[trigger] cmds@[2 + 3 * i]) matches DrawCmd::Print(s)
            && s@ == spec_repeat(' ', 24)) by {
            assert(cmds@[2 + 3 * i] == orig[1 + 3 * i]);
        }
    }
    cmds
}

/// A short confirmation line after a copy.
pub fn draw_copied_confirmation(pos: Vec2, fade: bool) -> (cmds: Vec<DrawCmd>)
    requires
        pos.x <= u16::MAX,
        pos.y <= u16::MAX,
    ensures
        cmds@.len() == 3,
        cmds@[1] == DrawCmd::MoveTo(pos.x as u16, pos.y as u16),
        cmds@[2] matches DrawCmd::PrintBold(s) && s@ == "Copied to clipboard!"@,
{
    let mut cmds = ResetDefaultColors(fade).commands();
    cmds.push(DrawCmd::MoveTo(pos.x as u16, pos.y as u16));
    cmds.push(DrawCmd::PrintBold(String::from_str("Copied to clipboard!")));
    cmds
}

/// A short confirmation line after a paste.
pub fn draw_pasted_confirmation(pos: Vec2, fade: bool) -> (cmds: Vec<DrawCmd>)
    requires
        pos.x <= u16::MAX,
        pos.y <= u16::MAX,
    ensures
        cmds@.len() == 3,
        cmds@[1] == DrawCmd::MoveTo(pos.x as u16, pos.y as u16),
        cmds@[2] matches DrawCmd::PrintBold(s) && s@ == "Pasted from clipboard!"@,
{
    let mut cmds = ResetDefaultColors(fade).commands();
    cmds.push(DrawCmd::MoveTo(pos.x as u16, pos.y as u16));
    cmds.push(DrawCmd::PrintBold(String::from_str("Pasted from clipboard!")));
    cmds
}

} // verus!
