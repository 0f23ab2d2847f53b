use vstd::prelude::*;
use vstd::string::StringExecFns;
use crate::clipboard::ui::{spec_hex_text, hex_text_of};
use crate::color::{Hsv, spec_rgb_from_hsv, spec_round_div};
use crate::constants::FADE_VALUE_DEN;
use crate::crossterm_commands::{ResetDefaultColors, spec_rendered_rgb, rendered_rgb};
use crate::frac::{Frac, DEN_MAX};
use crate::render::DrawCmd;
use crate::text::{spec_pad3, spec_two_digits, pad3_string, two_digit_string, repeat_glyph};
use crate::types::Vec2;
use crate::ui::inputs::rounded_ratio;
use crate::utils::rgb_from_hsv;

verus! {

/// The RGB triple as three right-aligned decimal numbers.
pub open spec fn spec_rgb_triple_text(c: Hsv) -> Seq<char> {
    let rgb = spec_rgb_from_hsv(c);
    spec_pad3(rgb.0 as int) + ", "@ + spec_pad3(rgb.1 as int) + ", "@ + spec_pad3(rgb.2 as int)
}

/// A fraction in [0, 1] as a percentage with two decimals, rounded to the
/// nearest hundredth of a percent.
pub open spec fn spec_percent2_text(f: Frac) -> Seq<char> {
    let scaled = spec_round_div(10000 * f.num, f.den as int);
    crate::text::spec_dec(scaled / 100) + "."@ + spec_two_digits(scaled % 100)
}

/// The HSV triple as shown in the value display: the hue rounded to whole
/// degrees, saturation and value as two-decimal percentages.
pub open spec fn spec_hsv_triple_text(c: Hsv) -> Seq<char> {
    spec_pad3(spec_round_div(c.hue.num as int, c.hue.den as int)) + ", "@ + spec_percent2_text(
        c.saturation,
    ) + "%, "@ + spec_percent2_text(c.value) + "%"@
}

fn percent2_text(f: &Frac) -> (r: String)
    requires
        1 <= f.den <= DEN_MAX,
        f.num <= f.den,
    ensures
        r@ == spec_percent2_text(*f),
{
    let scaled = rounded_ratio(10000 * f.num, f.den);
    let mut r = crate::text::dec_string(scaled / 100);
    r.append(".");
    r.append(two_digit_string(scaled % 100).as_str());
    proof {
        assert(r@ =~= spec_percent2_text(*f));
    }
    r
}

/// The draw instructions for the one-line value display: a swatch of the
/// color followed by its exact hex, RGB and HSV texts.
pub fn draw_value_display(pos: &Vec2, color: &Hsv, fade: bool) -> (cmds: Vec<DrawCmd>)
    requires
        color.wf(),
        FADE_VALUE_DEN * color.value.den <= DEN_MAX,
        pos.x <= 0xffff,
        pos.y <= 0xffff,
    ensures
        cmds@.len() == 14,
        cmds@[0] == DrawCmd::MoveTo(pos.x as u16, pos.y as u16),
        cmds@[2] == DrawCmd::SetFg(spec_rendered_rgb(*color, fade)),
        cmds@[7] matches DrawCmd::Print(s) && s@ == spec_hex_text(*color),
        cmds@[10] matches DrawCmd::Print(s) && s@ == spec_rgb_triple_text(*color),
        cmds@[13] matches DrawCmd::Print(s) && s@ == spec_hsv_triple_text(*color),
{
    proof {
        reveal_strlit("\u{2588}");
    }
    let rgb = rgb_from_hsv(color);
    let mut cmds: Vec<DrawCmd> = Vec::new();
    cmds.push(DrawCmd::MoveTo(pos.x as u16, pos.y as u16));
    cmds.push(DrawCmd::ClearLine);
    cmds.push(DrawCmd::SetFg(rendered_rgb(color, fade)));
    cmds.push(DrawCmd::Print(repeat_glyph("\u{2588}", 8)));
    let mut reset = ResetDefaultColors(fade).commands();
    cmds.push(reset.remove(0));
    cmds.push(DrawCmd::Print(String::from_str("   ")));
    cmds.push(DrawCmd::PrintBold(String::from_str("HEX: ")));
    cmds.push(DrawCmd::Print(hex_text_of(color)));
    cmds.push(DrawCmd::Print(String::from_str("   ")));
    cmds.push(DrawCmd::PrintBold(String::from_str("RGB: ")));
    let mut rgb_line = pad3_string(rgb.0 as u32);
    rgb_line.append(", ");
    rgb_line.append(pad3_string(rgb.1 as u32).as_str());
    rgb_line.append(", ");
    rgb_line.append(pad3_string(rgb.2 as u32).as_str());
    proof {
        assert(rgb_line@ =~= spec_rgb_triple_text(*color));
    }
    cmds.push(DrawCmd::Print(rgb_line));
    cmds.push(DrawCmd::Print(String::from_str("   ")));
    cmds.push(DrawCmd::PrintBold(String::from_str("HSV: ")));
    let mut hsv_line = pad3_string(rounded_ratio(color.hue.num, color.hue.den));
    hsv_line.append(", ");
    hsv_line.append(percent2_text(&color.saturation).as_str());
    hsv_line.append("%, ");
    hsv_line.append(percent2_text(&color.value).as_str());
    hsv_line.append("%");
    proof {
        assert(hsv_line@ =~= spec_hsv_triple_text(*color));
    }
    cmds.push(DrawCmd::Print(hsv_line));
    cmds
}

} // verus!
