use vstd::prelude::*;
use vstd::arithmetic::div_mod::{lemma_fundamental_div_mod_converse, lemma_div_is_ordered};
use vstd::arithmetic::mul::lemma_mul_upper_bound;
use crate::color::{Hsv, max3, min3, spec_hsv_from_rgb, spec_rgb_parts, spec_rgb_from_hsv, spec_round_div};
use crate::constants::{FADE_VALUE_NUM, FADE_VALUE_DEN, TOTAL_WIDTH, TOTAL_HEIGHT};
use crate::frac::{Frac, DEN_MAX};
use crate::types::{MouseEvent, Vec2};

verus! {

/// Largest common denominator that can arise in `rgb_from_hsv`:
/// `DEN_MAX * DEN_MAX * (60 * DEN_MAX)`.
pub const COMMON_DEN_MAX: u128 = 60_000_000_000_000_000_000_000_000_000_000;

/// The exact HSV color of an 8-bit RGB triple.
pub fn hsv_from_rgb(r: u8, g: u8, b: u8) -> (c: Hsv)
    ensures
        c == spec_hsv_from_rgb(r, g, b),
        c.wf(),
{
    let mx: u8 = if r >= g && r >= b { r } else if g >= b { g } else { b };
    let mn: u8 = if r <= g && r <= b { r } else if g <= b { g } else { b };
    let d: u64 = (mx - mn) as u64;
    proof {
        assert(mx as int == max3(r as int, g as int, b as int));
        assert(mn as int == min3(r as int, g as int, b as int));
    }
    let value = Frac { num: mx as u64, den: 255 };
    if d == 0 {
        Hsv { hue: Frac { num: 0, den: 1 }, saturation: Frac { num: 0, den: 1 }, value }
    } else {
        let saturation = Frac { num: d, den: mx as u64 };
        let hue_num: u64 = if r == mx {
            if g >= b {
                60 * ((g - b) as u64)
            } else {
                360 * d - 60 * ((b - g) as u64)
            }
        } else if g == mx {
            if b >= r {
                120 * d + 60 * ((b - r) as u64)
            } else {
                120 * d - 60 * ((r - b) as u64)
            }
        } else {
            if r >= g {
                240 * d + 60 * ((r - g) as u64)
            } else {
                240 * d - 60 * ((g - r) as u64)
            }
        };
        Hsv { hue: Frac { num: hue_num, den: d }, saturation, value }
    }
}

/// One RGB channel: `255 * (x / dd)` rounded to the nearest integer.
fn round_channel(x: u128, dd: u128) -> (r: u8)
    requires
        1 <= dd <= COMMON_DEN_MAX,
        x <= dd,
    ensures
        r as int == spec_round_div(255 * x, dd as int),
{
    let n: u128 = 510 * x + dd;
    let q: u128 = n / (2 * dd);
    proof {
        assert(n <= 511 * dd);
        lemma_div_is_ordered(n as int, 511 * dd, 2 * dd);
        lemma_fundamental_div_mod_converse(511 * dd, 2 * dd, 255, dd as int);
        assert(q <= 255);
        assert(2 * (255 * x) == 510 * x);
    }
    q as u8
}

/// The 8-bit RGB triple of an HSV color, computed with exact rational
/// arithmetic over a common denominator and rounded per channel.
pub fn rgb_from_hsv(hsv: &Hsv) -> (rgb: (u8, u8, u8))
    requires
        hsv.wf(),
    ensures
        rgb == spec_rgb_from_hsv(*hsv),
        rgb.0 as int == spec_rgb_parts(*hsv).0,
        rgb.1 as int == spec_rgb_parts(*hsv).1,
        rgb.2 as int == spec_rgb_parts(*hsv).2,
{
    let hn = hsv.hue.num as u128;
    let hd = hsv.hue.den as u128;
    let sn = hsv.saturation.num as u128;
    let sd = hsv.saturation.den as u128;
    let vn = hsv.value.num as u128;
    let vd = hsv.value.den as u128;
    let step: u128 = 60 * hd;
    let sector: u128 = hn / step;
    let f: u128 = hn % step;
    proof {
        lemma_mul_upper_bound(sd as int, DEN_MAX as int, step as int, 60 * DEN_MAX as int);
        lemma_mul_upper_bound(
            vd as int,
            DEN_MAX as int,
            (sd * step) as int,
            6_000_000_000_000_000_000_000,
        );
        assert(sd * step <= 6_000_000_000_000_000_000_000 && vd * (sd * step) <= COMMON_DEN_MAX);
        assert(1 <= vd * (sd * step)) by (nonlinear_arith)
            requires
                1 <= vd,
                1 <= sd,
                60 <= step,
        ;
        assert(f < step && sn * f <= sd * step && sn * step <= sd * step) by (nonlinear_arith)
            requires
                step >= 60,
                f == hn % step,
                sn <= sd,
        ;
        assert(vn * (sd * step) <= vd * (sd * step)) by (nonlinear_arith)
            requires
                vn <= vd,
                sd * step >= 0,
        ;
        assert((sd - sn) * step + sn * f <= sd * step && sd * step - sn * f <= sd * step)
            by (nonlinear_arith)
            requires
                sn <= sd,
                0 <= f <= step,
        ;
        assert(vn * ((sd - sn) * step) <= vd * (sd * step)
            && vn * (sd * step - sn * f) <= vd * (sd * step)
            && vn * ((sd - sn) * step + sn * f) <= vd * (sd * step)) by (nonlinear_arith)
            requires
                vn <= vd,
                0 <= sn <= sd,
                0 <= f <= step,
                (sd - sn) * step + sn * f <= sd * step,
                sd * step - sn * f <= sd * step,
        ;
    }
    let dd: u128 = vd * (sd * step);
    let v: u128 = vn * (sd * step);
    let p: u128 = vn * ((sd - sn) * step);
    let q: u128 = vn * (sd * step - sn * f);
    let t: u128 = vn * ((sd - sn) * step + sn * f);
    let parts: (u128, u128, u128) = if sector == 0 {
        (v, t, p)
    } else if sector == 1 {
        (q, v, p)
    } else if sector == 2 {
        (p, v, t)
    } else if sector == 3 {
        (p, q, v)
    } else if sector == 4 {
        (t, p, v)
    } else {
        (v, p, q)
    };
    let r = round_channel(parts.0, dd);
    let g = round_channel(parts.1, dd);
    let b = round_channel(parts.2, dd);
    (r, g, b)
}

/// Lowers a color's value by the fade factor, clamping at zero; hue and
/// saturation are unchanged.  Used to dim components behind a modal.
pub open spec fn spec_fade(v: Frac) -> Frac {
    if FADE_VALUE_DEN * v.num >= FADE_VALUE_NUM * v.den {
        Frac {
            num: (FADE_VALUE_DEN * v.num - FADE_VALUE_NUM * v.den) as u64,
            den: (FADE_VALUE_DEN * v.den) as u64,
        }
    } else {
        Frac { num: 0u64, den: 1u64 }
    }
}

pub fn fade_color(color: Hsv) -> (c: Hsv)
    requires
        color.wf(),
        FADE_VALUE_DEN * color.value.den <= DEN_MAX,
    ensures
        c.wf(),
        c.hue == color.hue,
        c.saturation == color.saturation,
        c.value == spec_fade(color.value),
{
    let vn = color.value.num;
    let vd = color.value.den;
    let value = if FADE_VALUE_DEN * vn >= FADE_VALUE_NUM * vd {
        Frac { num: FADE_VALUE_DEN * vn - FADE_VALUE_NUM * vd, den: FADE_VALUE_DEN * vd }
    } else {
        Frac { num: 0, den: 1 }
    };
    Hsv { hue: color.hue, saturation: color.saturation, value }
}

/// Translates an absolute mouse position into a component-local one; fails
/// when the event lies above or left of the component's origin.
pub fn normalize_pos(event: &MouseEvent, pos: &Vec2) -> (r: Option<Vec2>)
    ensures
        r is Some <==> (event.column >= pos.x && event.row >= pos.y),
        r matches Some(p) ==> p.x == event.column - pos.x && p.y == event.row - pos.y,
{
    let col = event.column as u32;
    let row = event.row as u32;
    if col < pos.x || row < pos.y {
        return None;
    }
    Some(Vec2 { x: col - pos.x, y: row - pos.y })
}

/// True when the terminal is too small for the whole layout plus a margin.
pub fn check_terminal_size(width: u16, height: u16) -> (small: bool)
    ensures
        small == ((width as int) < TOTAL_WIDTH + 2 || (height as int) < TOTAL_HEIGHT + 2),
{
    (width as u32) < TOTAL_WIDTH + 2 || (height as u32) < TOTAL_HEIGHT + 2
}

} // verus!
