use vstd::prelude::*;
use crate::frac::Frac;
use vstd::arithmetic::div_mod::lemma_fundamental_div_mod_converse;

verus! {

/// A hue/saturation/value color.  Hue is a fraction of degrees in [0, 360),
/// saturation and value are fractions in [0, 1].  All components are exact
/// rationals, so converting an 8-bit RGB triple in and back out loses nothing.
#[derive(Debug, Clone, Copy, PartialEq, Eq, Structural)]
pub struct Hsv {
    pub hue: Frac,
    pub saturation: Frac,
    pub value: Frac,
}

impl Hsv {
    pub open spec fn wf(self) -> bool {
        &&& self.hue.wf()
        &&& self.hue.is_hue()
        &&& self.saturation.wf()
        &&& self.saturation.is_unit()
        &&& self.value.wf()
        &&& self.value.is_unit()
    }

    pub fn new(hue: Frac, saturation: Frac, value: Frac) -> (c: Hsv)
        requires
            hue.wf() && hue.is_hue(),
            saturation.wf() && saturation.is_unit(),
            value.wf() && value.is_unit(),
        ensures
            c == (Hsv { hue, saturation, value }),
            c.wf(),
    {
        Hsv { hue, saturation, value }
    }

    /// The color the picker starts from: pure red.
    pub fn red() -> (c: Hsv)
        ensures
            c.wf(),
            c.hue.num == 0,
            c.saturation.eq_frac(Frac { num: 1u64, den: 1u64 }),
            c.value.eq_frac(Frac { num: 1u64, den: 1u64 }),
    {
        Hsv { hue: Frac { num: 0, den: 1 }, saturation: Frac { num: 1, den: 1 }, value: Frac { num: 1, den: 1 } }
    }
}

pub open spec fn max3(a: int, b: int, c: int) -> int {
    if a >= b && a >= c { a } else if b >= c { b } else { c }
}

pub open spec fn min3(a: int, b: int, c: int) -> int {
    if a <= b && a <= c { a } else if b <= c { b } else { c }
}

/// The hue of an RGB triple, as a fraction of degrees: numerator and
/// denominator.  The denominator is the spread `max - min`; on the gray axis
/// the hue is zero by convention.
pub open spec fn spec_hue_from_rgb(r: int, g: int, b: int) -> (int, int) {
    let mx = max3(r, g, b);
    let mn = min3(r, g, b);
    let d = mx - mn;
    if d == 0 {
        (0, 1)
    } else if r == mx {
        if g >= b {
            (60 * (g - b), d)
        } else {
            (360 * d - 60 * (b - g), d)
        }
    } else if g == mx {
        (120 * d + 60 * (b - r), d)
    } else {
        (240 * d + 60 * (r - g), d)
    }
}

/// The exact HSV color of an 8-bit RGB triple: value is `max/255`, saturation
/// is `spread/max`, hue as above.
pub open spec fn spec_hsv_from_rgb(r: u8, g: u8, b: u8) -> Hsv {
    let mx = max3(r as int, g as int, b as int);
    let mn = min3(r as int, g as int, b as int);
    let d = mx - mn;
    let hue = spec_hue_from_rgb(r as int, g as int, b as int);
    Hsv {
        hue: Frac { num: hue.0 as u64, den: hue.1 as u64 },
        saturation: if d == 0 { Frac { num: 0u64, den: 1u64 } } else { Frac { num: d as u64, den: mx as u64 } },
        value: Frac { num: mx as u64, den: 255u64 },
    }
}

///`x / d` rounded to the nearest integer, halves rounding up.
pub open spec fn spec_round_div(x: int, d: int) -> int {
    (2 * x + d) / (2 * d)
}

/// The three RGB channels of an HSV color, before the final cast to `u8`.
/// All six hue sectors are expressed over the common denominator
/// `value.den * saturation.den * (60 * hue.den)`.
pub open spec fn spec_rgb_parts(c: Hsv) -> (int, int, int) {
    let hn = c.hue.num as int;
    let hd = c.hue.den as int;
    let sn = c.saturation.num as int;
    let sd = c.saturation.den as int;
    let vn = c.value.num as int;
    let vd = c.value.den as int;
    let step = 60 * hd;
    let sector = hn / step;
    let f = hn % step;
    let dd = vd * (sd * step);
    let v = vn * (sd * step);
    let p = vn * ((sd - sn) * step);
    let q = vn * (sd * step - sn * f);
    let t = vn * ((sd - sn) * step + sn * f);
    let rgb = if sector == 0 {
        (v, t, p)
    } else if sector == 1 {
        (q, v, p)
    } else if sector == 2 {
        (p, v, t)
    } else if sector == 3 {
        (p, q, v)
    } else if sector == 4 {
        (t, p, v)
    } else {
        (v, p, q)
    };
    (
        spec_round_div(255 * rgb.0, dd),
        spec_round_div(255 * rgb.1, dd),
        spec_round_div(255 * rgb.2, dd),
    )
}

/// The 8-bit RGB triple of an HSV color.
pub open spec fn spec_rgb_from_hsv(c: Hsv) -> (u8, u8, u8) {
    let parts = spec_rgb_parts(c);
    (parts.0 as u8, parts.1 as u8, parts.2 as u8)
}

/// Rounding an exact multiple of the denominator recovers the multiplier.
proof fn lemma_round_exact(x: int, d: int, k: int)
    requires
        d >= 1,
        k >= 0,
        x == k * d,
    ensures
        spec_round_div(x, d) == k,
{
    assert(2 * x + d == k * (2 * d) + d) by (nonlinear_arith)
        requires
            x == k * d,
    ;
    lemma_fundamental_div_mod_converse(2 * x + d, 2 * d, k, d);
}

/// The four channel numerators that appear in `spec_rgb_parts`, evaluated on a
/// color that came from an RGB triple with spread `d = mx - mn` and hue
/// fraction `fo` within its sector: rounding them yields `mx`, `mn`,
/// `mx - fo` and `mn + fo` exactly.
proof fn lemma_channels(mx: int, mn: int, d: int, fo: int, step: int, dd: int, v: int, p: int, q: int, t: int)
    requires
        0 < d,
        d == mx - mn,
        0 <= mn,
        mx <= 255,
        0 <= fo <= d,
        step == 60 * d,
        dd == 255 * (mx * step),
        v == mx * (mx * step),
        p == mx * ((mx - d) * step),
        q == mx * (mx * step - d * (60 * fo)),
        t == mx * ((mx - d) * step + d * (60 * fo)),
    ensures
        dd >= 1,
        spec_round_div(255 * v, dd) == mx,
        spec_round_div(255 * p, dd) == mn,
        spec_round_div(255 * q, dd) == mx - fo,
        spec_round_div(255 * t, dd) == mn + fo,
{
    assert(dd >= 1) by (nonlinear_arith)
        requires
            dd == 255 * (mx * step),
            mx >= 1,
            step >= 60,
    ;
    assert(255 * v == mx * dd) by (nonlinear_arith)
        requires
            v == mx * (mx * step),
            dd == 255 * (mx * step),
    ;
    assert(255 * p == mn * dd) by (nonlinear_arith)
        requires
            p == mx * ((mx - d) * step),
            dd == 255 * (mx * step),
            mn == mx - d,
    ;
    assert(mx * step - d * (60 * fo) == step * (mx - fo)) by (nonlinear_arith)
        requires
            step == 60 * d,
    ;
    assert(255 * q == (mx - fo) * dd) by (nonlinear_arith)
        requires
            q == mx * (step * (mx - fo)),
            dd == 255 * (mx * step),
    ;
    assert((mx - d) * step + d * (60 * fo) == step * (mn + fo)) by (nonlinear_arith)
        requires
            step == 60 * d,
            mn == mx - d,
    ;
    assert(255 * t == (mn + fo) * dd) by (nonlinear_arith)
        requires
            t == mx * (step * (mn + fo)),
            dd == 255 * (mx * step),
    ;
    lemma_round_exact(255 * v, dd, mx);
    lemma_round_exact(255 * p, dd, mn);
    lemma_round_exact(255 * q, dd, mx - fo);
    lemma_round_exact(255 * t, dd, mn + fo);
}

/// Converting an 8-bit RGB triple to HSV and back is lossless: RGB is the
/// canonical representation at 8-bit granularity, and all components are kept
/// as exact fractions.
pub proof fn lemma_rgb_round_trip(r: u8, g: u8, b: u8)
    ensures
        spec_rgb_from_hsv(spec_hsv_from_rgb(r, g, b)) == (r, g, b),
{
    let ri = r as int;
    let gi = g as int;
    let bi = b as int;
    let mx = max3(ri, gi, bi);
    let mn = min3(ri, gi, bi);
    let d = mx - mn;
    let c = spec_hsv_from_rgb(r, g, b);
    if d == 0 {
        // The gray axis: hue and saturation are zero, every channel is `mx`.
        assert(ri == mx && gi == mx && bi == mx);
        lemma_fundamental_div_mod_converse(0, 60, 0, 0);
        assert(spec_rgb_parts(c).0 == mx && spec_rgb_parts(c).1 == mx && spec_rgb_parts(c).2 == mx)
            by {
            assert(255 * (mx * (1 * 60)) == mx * ((255 * (1 * 60)) as int)) by (nonlinear_arith);
            lemma_round_exact(255 * (mx * (1 * 60)), (255 * (1 * 60)) as int, mx);
        };
    } else {
        let step = 60 * d;
        let hn = c.hue.num as int;
        let dd = 255 * (mx * step);
        let v = mx * (mx * step);
        let p = mx * ((mx - d) * step);
        if ri == mx {
            if gi >= bi {
                assert(mn == bi);
                if gi - bi < d {
                    // Sector 0: channels (v, t, p).
                    let fo = gi - bi;
                    lemma_fundamental_div_mod_converse(hn, step, 0, 60 * fo);
                    lemma_channels(mx, mn, d, fo, step, dd, v, p,
                        mx * (mx * step - d * (60 * fo)),
                        mx * ((mx - d) * step + d * (60 * fo)));
                } else {
                    // `g` is also maximal: the hue is exactly 60 degrees,
                    // sector 1 with a zero fraction; channels (q, v, p).
                    assert(gi == mx && bi == mn);
                    lemma_fundamental_div_mod_converse(hn, step, 1, 0);
                    lemma_channels(mx, mn, d, 0, step, dd, v, p,
                        mx * (mx * step - d * (60 * 0)),
                        mx * ((mx - d) * step + d * (60 * 0)));
                }
            } else {
                // Sector 5: channels (v, p, q).
                assert(mn == gi);
                let fo = d - (bi - gi);
                assert(hn == 5 * step + 60 * fo);
                lemma_fundamental_div_mod_converse(hn, step, 5, 60 * fo);
                lemma_channels(mx, mn, d, fo, step, dd, v, p,
                    mx * (mx * step - d * (60 * fo)),
                    mx * ((mx - d) * step + d * (60 * fo)));
            }
        } else if gi == mx {
            if bi >= ri {
                assert(mn == ri);
                if bi - ri < d {
                    // Sector 2: channels (p, v, t).
                    let fo = bi - ri;
                    lemma_fundamental_div_mod_converse(hn, step, 2, 60 * fo);
                    lemma_channels(mx, mn, d, fo, step, dd, v, p,
                        mx * (mx * step - d * (60 * fo)),
                        mx * ((mx - d) * step + d * (60 * fo)));
                } else {
                    // `b` is also maximal: hue 180, sector 3 with a zero
                    // fraction; channels (p, q, v).
                    assert(bi == mx && ri == mn);
                    lemma_fundamental_div_mod_converse(hn, step, 3, 0);
                    lemma_channels(mx, mn, d, 0, step, dd, v, p,
                        mx * (mx * step - d * (60 * 0)),
                        mx * ((mx - d) * step + d * (60 * 0)));
                }
            } else {
                // Sector 1: channels (q, v, p).
                assert(mn == bi);
                let fo = d - (ri - bi);
                assert(hn == 1 * step + 60 * fo);
                lemma_fundamental_div_mod_converse(hn, step, 1, 60 * fo);
                lemma_channels(mx, mn, d, fo, step, dd, v, p,
                    mx * (mx * step - d * (60 * fo)),
                    mx * ((mx - d) * step + d * (60 * fo)));
            }
        } else {
            // `b` is the unique maximum: `r == mx` and `g == mx` both failed.
            assert(bi == mx);
            if ri >= gi {
                // Sector 4: channels (t, p, v); `r - g < d` since `r` is not
                // maximal.
                assert(mn == gi);
                let fo = ri - gi;
                assert(fo < d);
                lemma_fundamental_div_mod_converse(hn, step, 4, 60 * fo);
                lemma_channels(mx, mn, d, fo, step, dd, v, p,
                    mx * (mx * step - d * (60 * fo)),
                    mx * ((mx - d) * step + d * (60 * fo)));
            } else {
                // Sector 3: channels (p, q, v); `g - r < d` since `g` is not
                // maximal.
                assert(mn == ri);
                let fo = d - (gi - ri);
                assert(hn == 3 * step + 60 * fo);
                lemma_fundamental_div_mod_converse(hn, step, 3, 60 * fo);
                lemma_channels(mx, mn, d, fo, step, dd, v, p,
                    mx * (mx * step - d * (60 * fo)),
                    mx * ((mx - d) * step + d * (60 * fo)));
            }
        }
    }
}

} // verus!
