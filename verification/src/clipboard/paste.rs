use vstd::prelude::*;
use crate::color::{Hsv, spec_hsv_from_rgb};
use crate::frac::Frac;
use crate::utils::hsv_from_rgb;

verus! {

// ---------------------------------------------------------------------------
// Character classes
// ---------------------------------------------------------------------------

pub open spec fn is_ws_char(c: char) -> bool {
    c == ' ' || c == '\t' || c == '\n' || c == '\r' || c == '\u{b}' || c == '\u{c}'
}

pub open spec fn is_digit_char(c: char) -> bool {
    '0' as int <= c as int && c as int <= '9' as int
}

pub open spec fn digit_val(c: char) -> int {
    c as int - '0' as int
}

pub open spec fn is_hex_digit_char(c: char) -> bool {
    is_digit_char(c)
        || ('a' as int <= c as int && c as int <= 'f' as int)
        || ('A' as int <= c as int && c as int <= 'F' as int)
}

pub open spec fn hex_digit_val(c: char) -> int {
    if is_digit_char(c) {
        digit_val(c)
    } else if 'a' as int <= c as int && c as int <= 'f' as int {
        c as int - 'a' as int + 10
    } else {
        c as int - 'A' as int + 10
    }
}

fn ws_char(c: char) -> (r: bool)
    ensures
        r == is_ws_char(c),
{
    c == ' ' || c == '\t' || c == '\n' || c == '\r' || c == '\u{b}' || c == '\u{c}'
}

fn digit_char(c: char) -> (r: bool)
    ensures
        r == is_digit_char(c),
{
    let u = c as u32;
    '0' as u32 <= u && u <= '9' as u32
}

fn hex_digit_char(c: char) -> (r: bool)
    ensures
        r == is_hex_digit_char(c),
{
    let u = c as u32;
    ('0' as u32 <= u && u <= '9' as u32)
        || ('a' as u32 <= u && u <= 'f' as u32)
        || ('A' as u32 <= u && u <= 'F' as u32)
}

fn hex_digit_value(c: char) -> (v: u32)
    requires
        is_hex_digit_char(c),
    ensures
        v == hex_digit_val(c),
        v < 16,
{
    let u = c as u32;
    if '0' as u32 <= u && u <= '9' as u32 {
        u - '0' as u32
    } else if 'a' as u32 <= u && u <= 'f' as u32 {
        u - 'a' as u32 + 10
    } else {
        u - 'A' as u32 + 10
    }
}

// ---------------------------------------------------------------------------
// Scanning
// ---------------------------------------------------------------------------

/// First index at or after `i` that does not hold whitespace.
pub open spec fn ws_end(s: Seq<char>, i: int) -> int
    decreases s.len() - i,
{
    if 0 <= i < s.len() && is_ws_char(s[i]) {
        ws_end(s, i + 1)
    } else {
        i
    }
}

/// First index at or after `i` that does not hold a decimal digit.
pub open spec fn digits_end(s: Seq<char>, i: int) -> int
    decreases s.len() - i,
{
    if 0 <= i < s.len() && is_digit_char(s[i]) {
        digits_end(s, i + 1)
    } else {
        i
    }
}

/// The value of the decimal digit run `s[i..j)`.
pub open spec fn digits_val(s: Seq<char>, i: int, j: int) -> int
    decreases j - i,
{
    if i < j {
        digits_val(s, i, j - 1) * 10 + digit_val(s[j - 1])
    } else {
        0
    }
}

pub open spec fn pow10(k: int) -> int
    decreases k,
{
    if k <= 0 {
        1
    } else {
        10 * pow10(k - 1)
    }
}

proof fn lemma_ws_end_bounds(s: Seq<char>, i: int)
    requires
        0 <= i <= s.len(),
    ensures
        i <= ws_end(s, i) <= s.len(),
    decreases s.len() - i,
{
    if i < s.len() && is_ws_char(s[i]) {
        lemma_ws_end_bounds(s, i + 1);
    }
}

proof fn lemma_digits_end_bounds(s: Seq<char>, i: int)
    requires
        0 <= i <= s.len(),
    ensures
        i <= digits_end(s, i) <= s.len(),
    decreases s.len() - i,
{
    if i < s.len() && is_digit_char(s[i]) {
        lemma_digits_end_bounds(s, i + 1);
    }
}

/// Skips whitespace starting at `i`.
fn skip_ws(s: &str, n: usize, i: usize) -> (j: usize)
    requires
        n == s@.len(),
        i <= n,
    ensures
        j == ws_end(s@, i as int),
        i <= j <= n,
{
    let mut j = i;
    proof {
        lemma_ws_end_bounds(s@, i as int);
    }
    loop
        invariant
            i <= j <= n,
            n == s@.len(),
            ws_end(s@, i as int) == ws_end(s@, j as int),
        decreases n - j,
    {
        if j < n && ws_char(s.get_char(j)) {
            j = j + 1;
        } else {
            return j;
        }
    }
}

/// Skips decimal digits starting at `i`.
fn skip_digits(s: &str, n: usize, i: usize) -> (j: usize)
    requires
        n == s@.len(),
        i <= n,
    ensures
        j == digits_end(s@, i as int),
        i <= j <= n,
{
    let mut j = i;
    proof {
        lemma_digits_end_bounds(s@, i as int);
    }
    loop
        invariant
            i <= j <= n,
            n == s@.len(),
            digits_end(s@, i as int) == digits_end(s@, j as int),
        decreases n - j,
    {
        if j < n && digit_char(s.get_char(j)) {
            j = j + 1;
        } else {
            return j;
        }
    }
}

/// Reads the value of the digit run `s[i..j)`; the run holds at most seven
/// digits, so the value fits comfortably.
fn read_digits(s: &str, i: usize, j: usize) -> (v: u32)
    requires
        i <= j <= s@.len(),
        j - i <= 7,
        forall|k: int| i <= k < j ==> is_digit_char(s@[k]),
    ensures
        v == digits_val(s@, i as int, j as int),
        v < 10_000_000,
{
    let mut v: u32 = 0;
    let mut k = i;
    while k < j
        invariant
            i <= k <= j <= s@.len(),
            j - i <= 7,
            forall|t: int| i <= t < j ==> is_digit_char(#[trigger] s@[t]),
            v == digits_val(s@, i as int, k as int),
            v < pow10((k - i) as int),
        decreases j - k,
    {
        let c = s.get_char(k);
        proof {
            lemma_pow10_vals();
            lemma_pow10_le((k - i) as int, 6);
            assert(pow10((k + 1 - i) as int) == 10 * pow10((k - i) as int));
        }
        let d = c as u32 - '0' as u32;
        v = v * 10 + d;
        k = k + 1;
    }
    proof {
        lemma_pow10_vals();
        lemma_pow10_le(j as int - i as int, 7);
    }
    v
}

pub proof fn lemma_digits_val_bound(s: Seq<char>, i: int, j: int)
    requires
        i <= j,
        forall|k: int| i <= k < j ==> is_digit_char(#[trigger] s[k]),
    ensures
        0 <= digits_val(s, i, j) < pow10(j - i),
    decreases j - i,
{
    if i < j {
        lemma_digits_val_bound(s, i, j - 1);
    }
}

/// The concrete powers of ten up to the seven digits a component can hold.
pub proof fn lemma_pow10_vals()
    ensures
        pow10(0) == 1,
        pow10(1) == 10,
        pow10(2) == 100,
        pow10(3) == 1000,
        pow10(4) == 10000,
        pow10(5) == 100000,
        pow10(6) == 1000000,
        pow10(7) == 10000000,
{
    assert(pow10(0) == 1);
    assert(pow10(1) == 10);
    assert(pow10(2) == 100);
    assert(pow10(3) == 1000);
    assert(pow10(4) == 10000);
    assert(pow10(5) == 100000);
    assert(pow10(6) == 1000000);
    assert(pow10(7) == 10000000);
}

proof fn lemma_pow10_pos(k: int)
    ensures
        pow10(k) >= 1,
    decreases k,
{
    if k > 0 {
        lemma_pow10_pos(k - 1);
    }
}

pub proof fn lemma_pow10_le(a: int, b: int)
    requires
        a <= b,
    ensures
        pow10(a) <= pow10(b),
    decreases b,
{
    if a < b && b > 0 {
        lemma_pow10_le(a, b - 1);
        lemma_pow10_pos(b - 1);
    }
}

// ---------------------------------------------------------------------------
// The hex form: an optional `#`, `0x`, `0X`, `x` or `X` prefix, then exactly
// six hexadecimal digits.
// ---------------------------------------------------------------------------

/// Index of the first character after the optional prefix.
pub open spec fn hex_body_start(s: Seq<char>) -> int {
    if s.len() >= 1 && s[0] == '#' {
        1
    } else if s.len() >= 2 && s[0] == '0' && (s[1] == 'x' || s[1] == 'X') {
        2
    } else if s.len() >= 1 && (s[0] == 'x' || s[0] == 'X') {
        1
    } else {
        0
    }
}

pub open spec fn hex_matches(s: Seq<char>) -> bool {
    let i = hex_body_start(s);
    s.len() == i + 6 && forall|k: int| i <= k < s.len() ==> is_hex_digit_char(#[trigger] s[k])
}

/// One color channel from two hex digits at `i`.
pub open spec fn hex_byte(s: Seq<char>, i: int) -> int {
    16 * hex_digit_val(s[i]) + hex_digit_val(s[i + 1])
}

pub open spec fn spec_hex_rgb(s: Seq<char>) -> (int, int, int) {
    let i = hex_body_start(s);
    (hex_byte(s, i), hex_byte(s, i + 2), hex_byte(s, i + 4))
}

/// Decodes the hex form, or reports that the text is not in it.
pub fn validate_hex(s: &str) -> (r: Option<Hsv>)
    ensures
        r is Some <==> hex_matches(s@),
        hex_matches(s@) ==> r == Some(
            spec_hsv_from_rgb(
                spec_hex_rgb(s@).0 as u8,
                spec_hex_rgb(s@).1 as u8,
                spec_hex_rgb(s@).2 as u8,
            ),
        ),
{
    let n = s.unicode_len();
    let start: usize = if n >= 1 && s.get_char(0) == '#' {
        1
    } else if n >= 2 && s.get_char(0) == '0' && (s.get_char(1) == 'x' || s.get_char(1) == 'X') {
        2
    } else if n >= 1 && (s.get_char(0) == 'x' || s.get_char(0) == 'X') {
        1
    } else {
        0
    };
    proof {
        assert(start == hex_body_start(s@));
    }
    if n != start + 6 {
        return None;
    }
    let mut k = start;
    while k < n
        invariant
            start <= k <= n == s@.len(),
            start == hex_body_start(s@),
            n == start + 6,
            forall|t: int| start <= t < k ==> is_hex_digit_char(#[trigger] s@[t]),
        decreases n - k,
    {
        if !hex_digit_char(s.get_char(k)) {
            proof {
                assert(start <= k < s@.len() && !is_hex_digit_char(s@[k as int]));
                assert(!hex_matches(s@));
            }
            return None;
        }
        k = k + 1;
    }
    let r8 = (16 * hex_digit_value(s.get_char(start)) + hex_digit_value(s.get_char(start + 1))) as u8;
    let g8 = (16 * hex_digit_value(s.get_char(start + 2)) + hex_digit_value(s.get_char(start + 3))) as u8;
    let b8 = (16 * hex_digit_value(s.get_char(start + 4)) + hex_digit_value(s.get_char(start + 5))) as u8;
    Some(hsv_from_rgb(r8, g8, b8))
}


// ---------------------------------------------------------------------------
// The rgb form: an optional case-insensitive `rgb` label, an optional opening
// parenthesis, three one-to-three-digit decimal numbers separated by commas
// with arbitrary whitespace, an optional closing parenthesis.  Every number
// must fit in [0, 255].
// ---------------------------------------------------------------------------

pub open spec fn rgb_label_end(s: Seq<char>) -> int {
    if s.len() >= 3 && (s[0] == 'r' || s[0] == 'R') && (s[1] == 'g' || s[1] == 'G') && (s[2]
        == 'b' || s[2] == 'B') {
        3
    } else {
        0
    }
}

pub open spec fn open_paren_end(s: Seq<char>, i: int) -> int {
    if 0 <= i < s.len() && s[i] == '(' {
        i + 1
    } else {
        i
    }
}

/// The three channel values of a text in the rgb form, or `None`.
pub open spec fn rgb_parse(s: Seq<char>) -> Option<(int, int, int)> {
    let a_start = ws_end(s, open_paren_end(s, rgb_label_end(s)));
    let a_end = digits_end(s, a_start);
    if !(1 <= a_end - a_start <= 3) {
        None
    } else {
        let i2 = ws_end(s, a_end);
        if !(i2 < s.len() && s[i2] == ',') {
            None
        } else {
            let b_start = ws_end(s, i2 + 1);
            let b_end = digits_end(s, b_start);
            if !(1 <= b_end - b_start <= 3) {
                None
            } else {
                let i3 = ws_end(s, b_end);
                if !(i3 < s.len() && s[i3] == ',') {
                    None
                } else {
                    let c_start = ws_end(s, i3 + 1);
                    let c_end = digits_end(s, c_start);
                    if !(1 <= c_end - c_start <= 3) {
                        None
                    } else {
                        let i4 = ws_end(s, c_end);
                        let i5 = if i4 < s.len() && s[i4] == ')' {
                            i4 + 1
                        } else {
                            i4
                        };
                        let a = digits_val(s, a_start, a_end);
                        let b = digits_val(s, b_start, b_end);
                        let c = digits_val(s, c_start, c_end);
                        if i5 == s.len() && a <= 255 && b <= 255 && c <= 255 {
                            Some((a, b, c))
                        } else {
                            None
                        }
                    }
                }
            }
        }
    }
}

proof fn lemma_digits_end_digits(s: Seq<char>, i: int)
    requires
        0 <= i <= s.len(),
    ensures
        forall|t: int| i <= t < digits_end(s, i) ==> is_digit_char(#[trigger] s[t]),
    decreases s.len() - i,
{
    if i < s.len() && is_digit_char(s[i]) {
        lemma_digits_end_digits(s, i + 1);
        lemma_digits_end_bounds(s, i + 1);
    }
}

/// Parses whitespace and then a one-to-three-digit decimal number; hands back
/// its value and the index after its digits.
fn read_u8_component(s: &str, n: usize, i: usize) -> (r: Option<(u32, usize)>)
    requires
        n == s@.len(),
        i <= n,
    ensures
        ({
            let st = ws_end(s@, i as int);
            let en = digits_end(s@, st);
            &&& (r is Some <==> 1 <= en - st <= 3)
            &&& (r matches Some(p) ==> p.0 == digits_val(s@, st, en) && p.1 == en && p.0 < 1000
                && i <= en <= n)
        }),
{
    let st = skip_ws(s, n, i);
    let en = skip_digits(s, n, st);
    if en - st < 1 || en - st > 3 {
        return None;
    }
    proof {
        lemma_digits_end_digits(s@, st as int);
        lemma_digits_val_bound(s@, st as int, en as int);
        lemma_pow10_vals();
        lemma_pow10_le((en - st) as int, 3);
    }
    let v = read_digits(s, st, en);
    Some((v, en))
}

/// Decodes the rgb form, or reports that the text is not in it.
pub fn validate_rgb(s: &str) -> (r: Option<Hsv>)
    ensures
        r is Some <==> rgb_parse(s@) is Some,
        rgb_parse(s@) matches Some(t) ==> r == Some(
            spec_hsv_from_rgb(t.0 as u8, t.1 as u8, t.2 as u8),
        ),
{
    let n = s.unicode_len();
    let label: usize = if n >= 3 && (s.get_char(0) == 'r' || s.get_char(0) == 'R') && (s.get_char(1)
        == 'g' || s.get_char(1) == 'G') && (s.get_char(2) == 'b' || s.get_char(2) == 'B') {
        3
    } else {
        0
    };
    let i1: usize = if label < n && s.get_char(label) == '(' {
        label + 1
    } else {
        label
    };
    let a = match read_u8_component(s, n, i1) {
        Some(p) => p,
        None => {
            return None;
        },
    };
    let i2 = skip_ws(s, n, a.1);
    if !(i2 < n && s.get_char(i2) == ',') {
        return None;
    }
    let b = match read_u8_component(s, n, i2 + 1) {
        Some(p) => p,
        None => {
            return None;
        },
    };
    let i3 = skip_ws(s, n, b.1);
    if !(i3 < n && s.get_char(i3) == ',') {
        return None;
    }
    let c = match read_u8_component(s, n, i3 + 1) {
        Some(p) => p,
        None => {
            return None;
        },
    };
    let i4 = skip_ws(s, n, c.1);
    let i5: usize = if i4 < n && s.get_char(i4) == ')' {
        i4 + 1
    } else {
        i4
    };
    if i5 == n && a.0 <= 255 && b.0 <= 255 && c.0 <= 255 {
        Some(hsv_from_rgb(a.0 as u8, b.0 as u8, c.0 as u8))
    } else {
        None
    }
}


// ---------------------------------------------------------------------------
// The hsv form: an optional case-insensitive `hsv` label, an optional opening
// parenthesis, then three decimal numbers (one to three integer digits, an
// optional fraction) separated by commas; saturation and value may carry a
// `%` suffix.  The hue must lie in [0, 360]; saturation and value are read as
// percentages when `%`-suffixed or greater than one, and must land in [0, 1].
// Of a fraction only the first six digits are kept: the stored color is a
// fixed-point rational, and anything finer is below its resolution.
// ---------------------------------------------------------------------------

/// How many fractional digits are kept of a parsed number.
pub const FRAC_DIGITS_KEPT: u64 = 6;

pub open spec fn hsv_label_end(s: Seq<char>) -> int {
    if s.len() >= 3 && (s[0] == 'h' || s[0] == 'H') && (s[1] == 's' || s[1] == 'S') && (s[2]
        == 'v' || s[2] == 'V') {
        3
    } else {
        0
    }
}

/// A number stands at `i`: one to three integer digits, then optionally a
/// point followed by at least one digit.
pub open spec fn number_matches(s: Seq<char>, i: int) -> bool {
    let ie = digits_end(s, i);
    &&& 1 <= ie - i <= 3
    &&& (ie < s.len() && s[ie] == '.' ==> digits_end(s, ie + 1) > ie + 1)
}

/// Index just after the number at `i`.
pub open spec fn number_end(s: Seq<char>, i: int) -> int {
    let ie = digits_end(s, i);
    if ie < s.len() && s[ie] == '.' {
        digits_end(s, ie + 1)
    } else {
        ie
    }
}

/// How many fractional digits of the number at `i` are kept.
pub open spec fn number_frac_keep(s: Seq<char>, i: int) -> int {
    let ie = digits_end(s, i);
    if ie < s.len() && s[ie] == '.' {
        let fl = digits_end(s, ie + 1) - (ie + 1);
        if fl <= FRAC_DIGITS_KEPT {
            fl
        } else {
            FRAC_DIGITS_KEPT as int
        }
    } else {
        0
    }
}

/// The numerator of the number at `i`, over `number_den` as denominator.
pub open spec fn number_num(s: Seq<char>, i: int) -> int {
    let ie = digits_end(s, i);
    let k = number_frac_keep(s, i);
    digits_val(s, i, ie) * pow10(k) + digits_val(s, ie + 1, ie + 1 + k)
}

pub open spec fn number_den(s: Seq<char>, i: int) -> int {
    pow10(number_frac_keep(s, i))
}

/// Saturation and value are percentages when `%`-suffixed or greater than one.
pub open spec fn comp_scaled(num: int, den: int, pct: bool) -> (int, int) {
    if pct || num > den {
        (num, den * 100)
    } else {
        (num, den)
    }
}

/// The hue, saturation and value of a text in the hsv form, each as an exact
/// fraction, or `None`.  A hue of exactly 360 degrees is stored as zero.
pub open spec fn hsv_parse(s: Seq<char>) -> Option<((int, int), (int, int), (int, int))> {
    let h_start = ws_end(s, open_paren_end(s, hsv_label_end(s)));
    if !number_matches(s, h_start) {
        None
    } else {
        let i2 = ws_end(s, number_end(s, h_start));
        if !(i2 < s.len() && s[i2] == ',') {
            None
        } else {
            let s_start = ws_end(s, i2 + 1);
            if !number_matches(s, s_start) {
                None
            } else {
                let s_numend = number_end(s, s_start);
                let s_pct = s_numend < s.len() && s[s_numend] == '%';
                let i3 = ws_end(s, if s_pct { s_numend + 1 } else { s_numend });
                if !(i3 < s.len() && s[i3] == ',') {
                    None
                } else {
                    let v_start = ws_end(s, i3 + 1);
                    if !number_matches(s, v_start) {
                        None
                    } else {
                        let v_numend = number_end(s, v_start);
                        let v_pct = v_numend < s.len() && s[v_numend] == '%';
                        let i4 = ws_end(s, if v_pct { v_numend + 1 } else { v_numend });
                        let i5 = if i4 < s.len() && s[i4] == ')' {
                            i4 + 1
                        } else {
                            i4
                        };
                        if i5 != s.len() {
                            None
                        } else {
                            let hn = number_num(s, h_start);
                            let hd = number_den(s, h_start);
                            let sc = comp_scaled(number_num(s, s_start), number_den(s, s_start), s_pct);
                            let vc = comp_scaled(number_num(s, v_start), number_den(s, v_start), v_pct);
                            if hn <= 360 * hd && sc.0 <= sc.1 && vc.0 <= vc.1 {
                                Some(((if hn == 360 * hd { 0 } else { hn }, hd), sc, vc))
                            } else {
                                None
                            }
                        }
                    }
                }
            }
        }
    }
}

fn pow10_exec(k: usize) -> (r: u64)
    requires
        k <= 6,
    ensures
        r == pow10(k as int),
        1 <= r <= 1000000,
{
    proof {
        lemma_pow10_vals();
    }
    if k == 0 {
        1
    } else if k == 1 {
        10
    } else if k == 2 {
        100
    } else if k == 3 {
        1000
    } else if k == 4 {
        10000
    } else if k == 5 {
        100000
    } else {
        1000000
    }
}

/// Parses the number at `i` (no leading whitespace): its exact value as a
/// fraction with at most `FRAC_DIGITS_KEPT` fractional digits, and the index
/// just after it.
fn read_number(s: &str, n: usize, i: usize) -> (r: Option<(u64, u64, usize)>)
    requires
        n == s@.len(),
        i <= n,
    ensures
        r is Some <==> number_matches(s@, i as int),
        r matches Some(p) ==> {
            &&& p.0 == number_num(s@, i as int)
            &&& p.1 == number_den(s@, i as int)
            &&& p.2 == number_end(s@, i as int)
            &&& i <= p.2 <= n
            &&& p.0 < 1_000_000_000
            &&& 1 <= p.1 <= 1_000_000
        },
{
    let ie = skip_digits(s, n, i);
    if ie - i < 1 || ie - i > 3 {
        return None;
    }
    proof {
        lemma_digits_end_digits(s@, i as int);
        lemma_digits_val_bound(s@, i as int, ie as int);
        lemma_pow10_vals();
        lemma_pow10_le((ie - i) as int, 3);
    }
    let int_part = read_digits(s, i, ie);
    if ie < n && s.get_char(ie) == '.' {
        let fe = skip_digits(s, n, ie + 1);
        if fe == ie + 1 {
            return None;
        }
        let k: usize = if fe - (ie + 1) > 6 {
            6
        } else {
            fe - (ie + 1)
        };
        proof {
            lemma_digits_end_digits(s@, ie as int + 1);
            lemma_digits_val_bound(s@, ie as int + 1, ie as int + 1 + k as int);
            lemma_pow10_le(k as int, 6);
        }
        let frac_part = read_digits(s, ie + 1, ie + 1 + k);
        let den = pow10_exec(k);
        proof {
            assert(frac_part < pow10(k as int));
            assert((int_part as int) * (den as int) + (frac_part as int) < 1000 * (den as int))
                by (nonlinear_arith)
                requires
                    0 <= int_part < 1000,
                    0 < den,
                    0 <= frac_part < den,
            ;
            assert(1000 * (den as int) <= 1_000_000_000);
        }
        let num = int_part as u64 * den + frac_part as u64;
        Some((num, den, fe))
    } else {
        Some((int_part as u64, 1, ie))
    }
}

/// Decodes the hsv form, or reports that the text is not in it.  On success
/// the stored components are value-equal to the parsed fractions.
pub fn validate_hsv(s: &str) -> (r: Option<Hsv>)
    ensures
        r is Some <==> hsv_parse(s@) is Some,
        hsv_parse(s@) matches Some(t) ==> r matches Some(c) && c.wf() && c.hue.num * t.0.1
            == t.0.0 * c.hue.den && c.saturation.num * t.1.1 == t.1.0 * c.saturation.den
            && c.value.num * t.2.1 == t.2.0 * c.value.den,
        r matches Some(c) ==> c.value.den <= 100_000_000,
{
    let n = s.unicode_len();
    let label: usize = if n >= 3 && (s.get_char(0) == 'h' || s.get_char(0) == 'H') && (s.get_char(1)
        == 's' || s.get_char(1) == 'S') && (s.get_char(2) == 'v' || s.get_char(2) == 'V') {
        3
    } else {
        0
    };
    let i1: usize = if label < n && s.get_char(label) == '(' {
        label + 1
    } else {
        label
    };
    let h_start = skip_ws(s, n, i1);
    let h = match read_number(s, n, h_start) {
        Some(p) => p,
        None => {
            return None;
        },
    };
    let i2 = skip_ws(s, n, h.2);
    if !(i2 < n && s.get_char(i2) == ',') {
        return None;
    }
    let s_start = skip_ws(s, n, i2 + 1);
    let sv = match read_number(s, n, s_start) {
        Some(p) => p,
        None => {
            return None;
        },
    };
    let s_pct = sv.2 < n && s.get_char(sv.2) == '%';
    let i3 = skip_ws(s, n, if s_pct { sv.2 + 1 } else { sv.2 });
    if !(i3 < n && s.get_char(i3) == ',') {
        return None;
    }
    let v_start = skip_ws(s, n, i3 + 1);
    let vv = match read_number(s, n, v_start) {
        Some(p) => p,
        None => {
            return None;
        },
    };
    let v_pct = vv.2 < n && s.get_char(vv.2) == '%';
    let i4 = skip_ws(s, n, if v_pct { vv.2 + 1 } else { vv.2 });
    let i5: usize = if i4 < n && s.get_char(i4) == ')' {
        i4 + 1
    } else {
        i4
    };
    if i5 != n {
        return None;
    }
    let (s_num, s_den) = if s_pct || sv.0 > sv.1 {
        (sv.0, sv.1 * 100)
    } else {
        (sv.0, sv.1)
    };
    let (v_num, v_den) = if v_pct || vv.0 > vv.1 {
        (vv.0, vv.1 * 100)
    } else {
        (vv.0, vv.1)
    };
    if !(h.0 <= 360 * h.1 && s_num <= s_den && v_num <= v_den) {
        return None;
    }
    let h_num = if h.0 == 360 * h.1 {
        0
    } else {
        h.0
    };
    let hue = Frac::reduced(h_num, h.1);
    let saturation = Frac::reduced(s_num, s_den);
    let value = Frac::reduced(v_num, v_den);
    proof {
        crate::frac::lemma_eq_frac_hue(Frac { num: h_num, den: h.1 }, hue);
        crate::frac::lemma_eq_frac_unit(Frac { num: s_num, den: s_den }, saturation);
        crate::frac::lemma_eq_frac_unit(Frac { num: v_num, den: v_den }, value);
    }
    Some(Hsv { hue, saturation, value })
}

/// Decodes free-form pasted text into a color.  The three grammars are tried
/// in a fixed priority order: hex first, then rgb, then hsv; the first that
/// matches decides, and a text that matches none fails.
pub fn validate_pasted_color(s: &str) -> (r: Option<Hsv>)
    ensures
        r is Some <==> hex_matches(s@) || rgb_parse(s@) is Some || hsv_parse(s@) is Some,
        r matches Some(c) ==> c.wf(),
        hex_matches(s@) ==> r == Some(
            spec_hsv_from_rgb(
                spec_hex_rgb(s@).0 as u8,
                spec_hex_rgb(s@).1 as u8,
                spec_hex_rgb(s@).2 as u8,
            ),
        ),
        !hex_matches(s@) ==> (rgb_parse(s@) matches Some(t) ==> r == Some(
            spec_hsv_from_rgb(t.0 as u8, t.1 as u8, t.2 as u8),
        )),
        !hex_matches(s@) && rgb_parse(s@) is None ==> (hsv_parse(s@) matches Some(t) ==> r matches Some(c)
            && c.hue.num * t.0.1 == t.0.0 * c.hue.den && c.saturation.num * t.1.1 == t.1.0
            * c.saturation.den && c.value.num * t.2.1 == t.2.0 * c.value.den),
        r matches Some(c) ==> c.value.den <= 100_000_000,
{
    let hex = validate_hex(s);
    if hex.is_some() {
        return hex;
    }
    let rgb = validate_rgb(s);
    if rgb.is_some() {
        return rgb;
    }
    validate_hsv(s)
}

} // verus!
