use vstd::prelude::*;
use vstd::arithmetic::div_mod::{lemma_fundamental_div_mod_converse, lemma_div_is_ordered};
use vstd::string::StringExecFns;
use crate::clipboard::paste::{is_digit_char, is_hex_digit_char, digits_val, hex_digit_val};
use crate::color::{Hsv, spec_rgb_from_hsv, spec_round_div};
use crate::constants::{INPUTS_CB_HEIGHT, INPUTS_CB_WIDTH, FADE_VALUE_DEN};
use crate::crossterm_commands::{ResetDefaultColors, spec_rendered_rgb, rendered_rgb};
use crate::frac::DEN_MAX;
use crate::render::DrawCmd;
use crate::text::{spec_hex_byte_lower, spec_pad3, hex_byte_lower, pad3_string, repeat_glyph};
use crate::types::{KeyCode, Vec2};
use crate::utils::rgb_from_hsv;

verus! {

/// Which text field, if any, currently accepts keyboard edits.
#[derive(Debug, Clone, Copy, PartialEq, Eq, Structural)]
pub enum Focus {
    Hex,
    R,
    G,
    B,
    H,
    S,
    V,
    NONE,
}

/// The row of a field, measured from the top of the input column.
pub open spec fn spec_focus_row(f: Focus) -> int {
    match f {
        Focus::Hex => INPUTS_CB_HEIGHT as int,
        Focus::R => INPUTS_CB_HEIGHT + 2,
        Focus::G => INPUTS_CB_HEIGHT + 3,
        Focus::B => INPUTS_CB_HEIGHT + 4,
        Focus::H => INPUTS_CB_HEIGHT + 6,
        Focus::S => INPUTS_CB_HEIGHT + 7,
        Focus::V => INPUTS_CB_HEIGHT + 8,
        Focus::NONE => 0,
    }
}

/// The field whose row a click at local row `y` selects, if any.
pub open spec fn spec_field_at_row(y: int) -> Option<Focus> {
    if y == spec_focus_row(Focus::Hex) {
        Some(Focus::Hex)
    } else if y == spec_focus_row(Focus::R) {
        Some(Focus::R)
    } else if y == spec_focus_row(Focus::G) {
        Some(Focus::G)
    } else if y == spec_focus_row(Focus::B) {
        Some(Focus::B)
    } else if y == spec_focus_row(Focus::H) {
        Some(Focus::H)
    } else if y == spec_focus_row(Focus::S) {
        Some(Focus::S)
    } else if y == spec_focus_row(Focus::V) {
        Some(Focus::V)
    } else {
        None
    }
}

pub open spec fn spec_focus_prefix(f: Focus) -> Seq<char> {
    match f {
        Focus::Hex => "#"@,
        Focus::R => "R "@,
        Focus::G => "G "@,
        Focus::B => "B "@,
        Focus::H => "H "@,
        Focus::S => "S "@,
        Focus::V => "V "@,
        Focus::NONE => ""@,
    }
}

pub open spec fn spec_focus_max_len(f: Focus) -> int {
    match f {
        Focus::Hex => 6,
        Focus::NONE => 0,
        _ => 3,
    }
}

impl Focus {
    pub fn value(&self) -> (r: u32)
        ensures
            r == spec_focus_row(*self),
    {
        match self {
            Focus::Hex => INPUTS_CB_HEIGHT,
            Focus::R => INPUTS_CB_HEIGHT + 2,
            Focus::G => INPUTS_CB_HEIGHT + 3,
            Focus::B => INPUTS_CB_HEIGHT + 4,
            Focus::H => INPUTS_CB_HEIGHT + 6,
            Focus::S => INPUTS_CB_HEIGHT + 7,
            Focus::V => INPUTS_CB_HEIGHT + 8,
            Focus::NONE => 0,
        }
    }

    pub fn prefix(&self) -> (r: &'static str)
        ensures
            r@ == spec_focus_prefix(*self),
    {
        match self {
            Focus::Hex => "#",
            Focus::R => "R ",
            Focus::G => "G ",
            Focus::B => "B ",
            Focus::H => "H ",
            Focus::S => "S ",
            Focus::V => "V ",
            Focus::NONE => "",
        }
    }

    pub fn input_max_len(&self) -> (r: usize)
        ensures
            r == spec_focus_max_len(*self),
    {
        match self {
            Focus::Hex => 6,
            Focus::NONE => 0,
            _ => 3,
        }
    }
}

// ---------------------------------------------------------------------------
// Committing a buffer: the text parses as an unsigned integer in the field's
// base, and any failure (empty text, a stray character such as a padding
// space) commits the value zero.
// ---------------------------------------------------------------------------

/// The value of the hexadecimal digit run `s[i..j)`.
pub open spec fn hex_seq_val(s: Seq<char>, i: int, j: int) -> int
    decreases j - i,
{
    if i < j {
        hex_seq_val(s, i, j - 1) * 16 + hex_digit_val(s[j - 1])
    } else {
        0
    }
}

/// What committing a buffer yields: its value in the field's base, or zero
/// when the text is empty or holds any character outside the base.
pub open spec fn spec_commit_value(s: Seq<char>, hex: bool) -> int {
    if s.len() == 0 {
        0
    } else if hex {
        if forall|k: int| 0 <= k < s.len() ==> is_hex_digit_char(#[trigger] s[k]) {
            hex_seq_val(s, 0, s.len() as int)
        } else {
            0
        }
    } else {
        if forall|k: int| 0 <= k < s.len() ==> is_digit_char(#[trigger] s[k]) {
            digits_val(s, 0, s.len() as int)
        } else {
            0
        }
    }
}

/// The value of a hex run of at most `l` digits is below `16^l`.
proof fn lemma_hex_len_bound(s: Seq<char>, i: int, j: int, l: int)
    requires
        i <= j,
        j - i <= l,
        forall|k: int| i <= k < j ==> is_hex_digit_char(#[trigger] s[k]),
    ensures
        0 <= hex_seq_val(s, i, j) < pow16(l),
    decreases j - i,
{
    if i < j {
        lemma_hex_len_bound(s, i, j - 1, l - 1);
        lemma_pow16_pos(l - 1);
        assert(hex_seq_val(s, i, j) == hex_seq_val(s, i, j - 1) * 16 + hex_digit_val(s[j - 1]));
        assert(hex_seq_val(s, i, j - 1) * 16 <= (pow16(l - 1) - 1) * 16) by (nonlinear_arith)
            requires
                hex_seq_val(s, i, j - 1) <= pow16(l - 1) - 1,
        ;
    } else {
        lemma_pow16_pos(l);
    }
}

pub open spec fn pow16(k: int) -> int
    decreases k,
{
    if k <= 0 {
        1
    } else {
        16 * pow16(k - 1)
    }
}

proof fn lemma_pow16_pos(k: int)
    ensures
        pow16(k) >= 1,
    decreases k,
{
    if k > 0 {
        lemma_pow16_pos(k - 1);
    }
}

proof fn lemma_pow16_vals()
    ensures
        pow16(5) == 0x100000,
        pow16(6) == 0x1000000,
{
    assert(pow16(0) == 1);
    assert(pow16(1) == 16);
    assert(pow16(2) == 0x100);
    assert(pow16(3) == 0x1000);
    assert(pow16(4) == 0x10000);
    assert(pow16(5) == 0x100000);
    assert(pow16(6) == 0x1000000);
}

/// A commit value always fits in 24 bits: the buffer holds at most six
/// characters.
pub proof fn lemma_commit_value_bound(s: Seq<char>, hex: bool)
    requires
        s.len() <= 6,
    ensures
        0 <= spec_commit_value(s, hex) < 0x1000000,
{
    if s.len() == 0 {
    } else if hex {
        if forall|k: int| 0 <= k < s.len() ==> is_hex_digit_char(#[trigger] s[k]) {
            lemma_pow16_vals();
            lemma_hex_len_bound(s, 0, s.len() as int, 6);
        }
    } else {
        if forall|k: int| 0 <= k < s.len() ==> is_digit_char(#[trigger] s[k]) {
            crate::clipboard::paste::lemma_pow10_vals();
            crate::clipboard::paste::lemma_digits_val_bound(s, 0, s.len() as int);
            crate::clipboard::paste::lemma_pow10_le(s.len() as int, 6);
        }
    }
}

/// Parses a buffer of at most six characters in decimal or hexadecimal;
/// anything unparsable yields zero.
#[verifier::loop_isolation(false)]
fn parse_buffer(s: &str, hex: bool) -> (v: u32)
    requires
        s@.len() <= 6,
    ensures
        v == spec_commit_value(s@, hex),
{
    let n = s.unicode_len();
    if n == 0 {
        return 0;
    }
    let mut v: u32 = 0;
    let mut k: usize = 0;
    while k < n
        invariant
            k <= n == s@.len(),
            forall|t: int| 0 <= t < k ==> (if hex {
                is_hex_digit_char(#[trigger] s@[t])
            } else {
                is_digit_char(#[trigger] s@[t])
            }),
            hex ==> v == hex_seq_val(s@, 0, k as int),
            !hex ==> v == digits_val(s@, 0, k as int),
            v < 0x1000000,
        decreases n - k,
    {
        let c = s.get_char(k);
        let u = c as u32;
        if hex {
            let d: u32 = if '0' as u32 <= u && u <= '9' as u32 {
                u - '0' as u32
            } else if 'a' as u32 <= u && u <= 'f' as u32 {
                u - 'a' as u32 + 10
            } else if 'A' as u32 <= u && u <= 'F' as u32 {
                u - 'A' as u32 + 10
            } else {
                proof {
                    assert(!is_hex_digit_char(s@[k as int]));
                }
                return 0;
            };
            proof {
                lemma_pow16_vals();
                lemma_hex_len_bound(s@, 0, k as int, 5);
            }
            v = v * 16 + d;
            proof {
                lemma_hex_len_bound(s@, 0, k as int + 1, 6);
            }
        } else {
            if !('0' as u32 <= u && u <= '9' as u32) {
                proof {
                    assert(!is_digit_char(s@[k as int]));
                }
                return 0;
            }
            let d = u - '0' as u32;
            proof {
                crate::clipboard::paste::lemma_pow10_vals();
                crate::clipboard::paste::lemma_digits_val_bound(s@, 0, k as int);
                crate::clipboard::paste::lemma_pow10_le(k as int, 5);
            }
            v = v * 10 + d;
            proof {
                crate::clipboard::paste::lemma_digits_val_bound(s@, 0, k as int + 1);
                crate::clipboard::paste::lemma_pow10_le(k as int + 1, 6);
            }
        }
        k = k + 1;
    }
    v
}

// ---------------------------------------------------------------------------
// The input field set
// ---------------------------------------------------------------------------

/// Whether a character may be typed into a field of the given base.
pub open spec fn spec_valid_digit(c: char, f: Focus) -> bool {
    if f == Focus::Hex {
        is_hex_digit_char(c)
    } else {
        is_digit_char(c)
    }
}

/// Hex digits are stored lowercase; decimal digits are stored as typed.
pub open spec fn spec_norm_digit(c: char, f: Focus) -> char {
    if f == Focus::Hex {
        if c == 'A' {
            'a'
        } else if c == 'B' {
            'b'
        } else if c == 'C' {
            'c'
        } else if c == 'D' {
            'd'
        } else if c == 'E' {
            'e'
        } else if c == 'F' {
            'f'
        } else {
            c
        }
    } else {
        c
    }
}

/// What typing a printable character leaves in the buffer: an untouched
/// pre-filled buffer is cleared first, then the character is appended when it
/// is a digit of the field's base and the buffer is not yet full.
pub open spec fn spec_typed_buffer(buffer: Seq<char>, modified: bool, c: char, f: Focus) -> Seq<
    char,
> {
    let base = if modified {
        buffer
    } else {
        Seq::<char>::empty()
    };
    if base.len() < spec_focus_max_len(f) && spec_valid_digit(c, f) {
        base.push(spec_norm_digit(c, f))
    } else {
        base
    }
}

/// The text a field is pre-filled with on focus gain: the field's current
/// value, formatted at the field's fixed width.
pub open spec fn spec_prefill(f: Focus, color: Hsv) -> Seq<char> {
    let rgb = spec_rgb_from_hsv(color);
    match f {
        Focus::Hex => spec_hex_byte_lower(rgb.0 as int) + spec_hex_byte_lower(rgb.1 as int)
            + spec_hex_byte_lower(rgb.2 as int),
        Focus::R => spec_pad3(rgb.0 as int),
        Focus::G => spec_pad3(rgb.1 as int),
        Focus::B => spec_pad3(rgb.2 as int),
        Focus::H => spec_pad3(spec_round_div(color.hue.num as int, color.hue.den as int)),
        Focus::S => spec_pad3(
            spec_round_div(100 * color.saturation.num, color.saturation.den as int),
        ),
        Focus::V => spec_pad3(spec_round_div(100 * color.value.num, color.value.den as int)),
        Focus::NONE => Seq::<char>::empty(),
    }
}

/// The text input field set: a focus, a transient edit buffer and a flag that
/// records whether the buffer was touched since focus was gained.
#[derive(Debug, Clone, PartialEq, Eq)]
pub struct Inputs {
    pub pos: Vec2,
    pub input_str: String,
    pub focus: Focus,
    pub modified: bool,
}

/// `a / d` rounded to the nearest integer, for a ratio of at most 10000.
pub fn rounded_ratio(a: u64, d: u64) -> (r: u32)
    requires
        1 <= d <= DEN_MAX,
        a <= 10000 * d,
    ensures
        r == spec_round_div(a as int, d as int),
        r <= 10000,
        a <= 360 * d ==> r <= 360,
{
    let n: u64 = 2 * a + d;
    let q: u64 = n / (2 * d);
    proof {
        assert(n <= 20001 * d);
        lemma_div_is_ordered(n as int, 20001 * d, 2 * d);
        lemma_fundamental_div_mod_converse(20001 * d, 2 * d, 10000, d as int);
        if a <= 360 * d {
            lemma_div_is_ordered(n as int, 721 * d, 2 * d);
            lemma_fundamental_div_mod_converse(721 * d, 2 * d, 360, d as int);
        }
    }
    q as u32
}

impl Inputs {
    /// The buffer never outgrows the longest field.
    pub open spec fn wf(self) -> bool {
        self.input_str@.len() <= 6
    }

    pub fn new(pos: Vec2) -> (r: Inputs)
        ensures
            r.wf(),
            r.pos == pos,
            r.focus == Focus::NONE,
            r.input_str@ == Seq::<char>::empty(),
            r.modified == false,
    {
        let r = Inputs { pos, focus: Focus::NONE, input_str: String::new(), modified: false };
        r
    }

    /// The current edit buffer.
    pub fn input_str(&self) -> (r: &String)
        ensures
            r@ == self.input_str@,
    {
        &self.input_str
    }

    /// Routes a component-local click: a click on one of the seven field
    /// rows (in the first seven columns) focuses that field; any other click
    /// is a defocus click and drops the focus.  Only a focus gain is `Ok`.
    pub fn mouse_click(&mut self, x: u32, y: u32) -> (r: Result<(), ()>)
        requires
            old(self).wf(),
        ensures
            final(self).wf(),
            final(self).pos == old(self).pos,
            final(self).input_str == old(self).input_str,
            final(self).modified == old(self).modified,
            r is Ok <==> (x < 7 && spec_field_at_row(y as int) is Some),
            x < 7 ==> (spec_field_at_row(y as int) matches Some(f) ==> final(self).focus == f),
            !(x < 7 && spec_field_at_row(y as int) is Some) ==> final(self).focus
                == Focus::NONE,
    {
        if x >= 7 || y < INPUTS_CB_HEIGHT || y >= Focus::V.value() + 1 {
            let _ = self.lose_focus();
            return Err(());
        }
        if y == Focus::Hex.value() {
            self.focus = Focus::Hex;
        } else if y == Focus::R.value() {
            self.focus = Focus::R;
        } else if y == Focus::G.value() {
            self.focus = Focus::G;
        } else if y == Focus::B.value() {
            self.focus = Focus::B;
        } else if y == Focus::H.value() {
            self.focus = Focus::H;
        } else if y == Focus::S.value() {
            self.focus = Focus::S;
        } else if y == Focus::V.value() {
            self.focus = Focus::V;
        } else {
            // A row inside the column that holds no field: a defocus click
            // like any other miss.
            let _ = self.lose_focus();
            return Err(());
        }
        Ok(())
    }

    /// Pre-fills the edit buffer with the focused field's current formatted
    /// value and marks it untouched.
    pub fn gain_focus(&mut self, color: &Hsv)
        requires
            old(self).wf(),
            color.wf(),
        ensures
            final(self).wf(),
            final(self).pos == old(self).pos,
            final(self).focus == old(self).focus,
            final(self).modified == false,
            final(self).input_str@ == spec_prefill(old(self).focus, *color),
    {
        let rgb = rgb_from_hsv(color);
        match self.focus {
            Focus::Hex => {
                let mut s = hex_byte_lower(rgb.0);
                s.append(hex_byte_lower(rgb.1).as_str());
                s.append(hex_byte_lower(rgb.2).as_str());
                proof {
                    assert(s@ =~= spec_prefill(self.focus, *color));
                }
                self.input_str = s;
            },
            Focus::R => {
                self.input_str = pad3_string(rgb.0 as u32);
            },
            Focus::G => {
                self.input_str = pad3_string(rgb.1 as u32);
            },
            Focus::B => {
                self.input_str = pad3_string(rgb.2 as u32);
            },
            Focus::H => {
                self.input_str = pad3_string(rounded_ratio(color.hue.num, color.hue.den));
            },
            Focus::S => {
                self.input_str = pad3_string(
                    rounded_ratio(100 * color.saturation.num, color.saturation.den),
                );
            },
            Focus::V => {
                self.input_str = pad3_string(
                    rounded_ratio(100 * color.value.num, color.value.den),
                );
            },
            Focus::NONE => {
                self.input_str = String::new();
            },
        }
        self.modified = false;
    }

    /// One keystroke of the focus state machine.  Enter commits: the buffer
    /// is parsed in the field's base (zero on any failure) and handed back
    /// with the field, and the focus returns to `NONE`.  Escape cancels.
    /// Backspace marks the buffer touched and removes its last character.  A
    /// printable character first clears an untouched pre-fill, then is
    /// appended when it is a digit of the field's base and the buffer is not
    /// full; anything else is silently ignored.
    pub fn value_input(&mut self, input: KeyCode) -> (r: Option<(Focus, u32)>)
        requires
            old(self).wf(),
        ensures
            final(self).wf(),
            final(self).pos == old(self).pos,
            old(self).focus == Focus::NONE ==> *final(self) == *old(self) && r is None,
            old(self).focus != Focus::NONE ==> match input {
                KeyCode::Enter => r == Some(
                    (
                        old(self).focus,
                        spec_commit_value(
                            old(self).input_str@,
                            old(self).focus == Focus::Hex,
                        ) as u32,
                    ),
                ) && final(self).focus == Focus::NONE && final(self).modified == false && final(self).input_str == old(self).input_str,
                KeyCode::Esc => r is None && final(self).focus == Focus::NONE && final(self).modified == old(self).modified && final(self).input_str == old(self).input_str,
                KeyCode::Backspace => r is None && final(self).focus == old(self).focus && final(self).modified == true && final(self).input_str@ == (if old(self).input_str@.len()
                    > 0 {
                    old(self).input_str@.drop_last()
                } else {
                    old(self).input_str@
                }),
                KeyCode::Char(c) => r is None && final(self).focus == old(self).focus && final(self).modified == true && final(self).input_str@ == spec_typed_buffer(
                    old(self).input_str@,
                    old(self).modified,
                    c,
                    old(self).focus,
                ),
                KeyCode::Other => r is None && *final(self) == *old(self),
            },
    {
        if self.focus == Focus::NONE {
            return None;
        }
        match input {
            KeyCode::Enter => {
                let focus = self.focus;
                self.modified = false;
                self.focus = Focus::NONE;
                let value = parse_buffer(self.input_str.as_str(), focus == Focus::Hex);
                Some((focus, value))
            },
            KeyCode::Esc => {
                self.focus = Focus::NONE;
                None
            },
            KeyCode::Backspace => {
                self.modified = true;
                if self.input_str.unicode_len() > 0 {
                    let n = self.input_str.unicode_len();
                    let shorter = self.input_str.as_str().substring_char(0, n - 1);
                    let shorter_owned = String::from_str(shorter);
                    proof {
                        assert(shorter_owned@ =~= self.input_str@.drop_last());
                    }
                    self.input_str = shorter_owned;
                }
                None
            },
            KeyCode::Char(c) => {
                if !self.modified {
                    self.input_str = String::new();
                    self.modified = true;
                } else {
                    self.modified = true;
                }
                let max = self.focus.input_max_len();
                if self.input_str.unicode_len() < max {
                    let hexf = self.focus == Focus::Hex;
                    let valid = if hexf {
                        hex_digit_char_exec(c)
                    } else {
                        digit_char_exec(c)
                    };
                    if valid {
                        let nc = norm_digit(c, hexf);
                        let mut s = String::from_str(self.input_str.as_str());
                        s.append(digit_char_str(nc));
                        proof {
                            assert(s@ =~= self.input_str@.push(
                                spec_norm_digit(c, self.focus),
                            ));
                        }
                        self.input_str = s;
                    }
                }
                None
            },
            KeyCode::Other => None,
        }
    }

    /// Drops the focus; reports whether the buffer was left untouched, so the
    /// caller knows no pending edit was abandoned.
    pub fn lose_focus(&mut self) -> (r: bool)
        requires
            old(self).wf(),
        ensures
            final(self).wf(),
            final(self).focus == Focus::NONE,
            final(self).pos == old(self).pos,
            final(self).input_str == old(self).input_str,
            final(self).modified == old(self).modified,
            r == !old(self).modified,
    {
        self.focus = Focus::NONE;
        !self.modified
    }
}

fn digit_char_exec(c: char) -> (r: bool)
    ensures
        r == is_digit_char(c),
{
    let u = c as u32;
    '0' as u32 <= u && u <= '9' as u32
}

fn hex_digit_char_exec(c: char) -> (r: bool)
    ensures
        r == is_hex_digit_char(c),
{
    let u = c as u32;
    ('0' as u32 <= u && u <= '9' as u32) || ('a' as u32 <= u && u <= 'f' as u32) || ('A' as u32
        <= u && u <= 'F' as u32)
}

fn norm_digit(c: char, hex: bool) -> (r: char)
    ensures
        hex ==> r == spec_norm_digit(c, Focus::Hex),
        !hex ==> r == c,
{
    if hex {
        if c == 'A' {
            'a'
        } else if c == 'B' {
            'b'
        } else if c == 'C' {
            'c'
        } else if c == 'D' {
            'd'
        } else if c == 'E' {
            'e'
        } else if c == 'F' {
            'f'
        } else {
            c
        }
    } else {
        c
    }
}

/// The one-character string of a decimal digit or a lowercase hex letter.
fn digit_char_str(c: char) -> (r: &'static str)
    requires
        is_digit_char(c) || ('a' as int <= c as int && c as int <= 'f' as int),
    ensures
        r@ == seq![c],
{
    proof {
        reveal_strlit("0");
        reveal_strlit("1");
        reveal_strlit("2");
        reveal_strlit("3");
        reveal_strlit("4");
        reveal_strlit("5");
        reveal_strlit("6");
        reveal_strlit("7");
        reveal_strlit("8");
        reveal_strlit("9");
        reveal_strlit("a");
        reveal_strlit("b");
        reveal_strlit("c");
        reveal_strlit("d");
        reveal_strlit("e");
        reveal_strlit("f");
    }
    let r = if c == '0' {
        "0"
    } else if c == '1' {
        "1"
    } else if c == '2' {
        "2"
    } else if c == '3' {
        "3"
    } else if c == '4' {
        "4"
    } else if c == '5' {
        "5"
    } else if c == '6' {
        "6"
    } else if c == '7' {
        "7"
    } else if c == '8' {
        "8"
    } else if c == '9' {
        "9"
    } else if c == 'a' {
        "a"
    } else if c == 'b' {
        "b"
    } else if c == 'c' {
        "c"
    } else if c == 'd' {
        "d"
    } else if c == 'e' {
        "e"
    } else {
        "f"
    };
    proof {
        assert(r@ =~= seq![c]);
    }
    r
}


/// The index of a field's value line inside the input column's draw stream.
pub open spec fn spec_field_line_index(f: Focus) -> int {
    match f {
        Focus::Hex => 15,
        Focus::R => 18,
        Focus::G => 21,
        Focus::B => 24,
        Focus::H => 27,
        Focus::S => 30,
        Focus::V => 33,
        Focus::NONE => 0,
    }
}

/// The length of a field's printed prefix.
pub open spec fn spec_prefix_len(f: Focus) -> int {
    match f {
        Focus::Hex => 1,
        Focus::NONE => 0,
        _ => 2,
    }
}

impl Inputs {
    /// The draw instructions for the input column: a color block, then the
    /// hex, RGB and HSV fields showing the current color's formatted values
    /// (the same texts the fields are pre-filled with on focus gain).
    pub fn draw(&self, color: &Hsv, fade: bool) -> (cmds: Vec<DrawCmd>)
        requires
            color.wf(),
            FADE_VALUE_DEN * color.value.den <= DEN_MAX,
            self.pos.x <= 0xffff,
            self.pos.y <= 0xffff,
        ensures
            cmds@.len() == 36,
            cmds@[0] == DrawCmd::MoveTo(self.pos.x as u16, self.pos.y as u16),
            cmds@[1] == DrawCmd::SetFg(spec_rendered_rgb(*color, fade)),
            cmds@[15] matches DrawCmd::Print(s) && s@ == spec_focus_prefix(Focus::Hex)
                + spec_prefill(Focus::Hex, *color),
            cmds@[18] matches DrawCmd::Print(s) && s@ == spec_focus_prefix(Focus::R)
                + spec_prefill(Focus::R, *color),
            cmds@[21] matches DrawCmd::Print(s) && s@ == spec_focus_prefix(Focus::G)
                + spec_prefill(Focus::G, *color),
            cmds@[24] matches DrawCmd::Print(s) && s@ == spec_focus_prefix(Focus::B)
                + spec_prefill(Focus::B, *color),
            cmds@[27] matches DrawCmd::Print(s) && s@ == spec_focus_prefix(Focus::H)
                + spec_prefill(Focus::H, *color),
            cmds@[30] matches DrawCmd::Print(s) && s@ == spec_focus_prefix(Focus::S)
                + spec_prefill(Focus::S, *color),
            cmds@[33] matches DrawCmd::Print(s) && s@ == spec_focus_prefix(Focus::V)
                + spec_prefill(Focus::V, *color),
    {
        proof {
            reveal_strlit("\u{2588}");
        }
        let rgb = rgb_from_hsv(color);
        let mut cmds: Vec<DrawCmd> = Vec::new();
        cmds.push(DrawCmd::MoveTo(self.pos.x as u16, self.pos.y as u16));
        cmds.push(DrawCmd::SetFg(rendered_rgb(color, fade)));
        let mut row: u32 = 0;
        #[verifier::loop_isolation(false)]
        while row < INPUTS_CB_HEIGHT
            invariant
                row <= INPUTS_CB_HEIGHT,
                cmds@.len() == 2 + 3 * row,
                cmds@[0] == DrawCmd::MoveTo(self.pos.x as u16, self.pos.y as u16),
                cmds@[1] == DrawCmd::SetFg(spec_rendered_rgb(*color, fade)),
            decreases INPUTS_CB_HEIGHT - row,
        {
            cmds.push(DrawCmd::Print(repeat_glyph("\u{2588}", INPUTS_CB_WIDTH as usize)));
            cmds.push(DrawCmd::MoveDown(1));
            cmds.push(DrawCmd::MoveLeft(INPUTS_CB_WIDTH as u16));
            row = row + 1;
        }
        let mut reset = ResetDefaultColors(fade).commands();
        cmds.push(reset.remove(0));
        let mut hex_line = String::from_str(Focus::Hex.prefix());
        hex_line.append(hex_byte_lower(rgb.0).as_str());
        hex_line.append(hex_byte_lower(rgb.1).as_str());
        hex_line.append(hex_byte_lower(rgb.2).as_str());
        proof {
            assert(hex_line@ =~= spec_focus_prefix(Focus::Hex) + spec_prefill(
                Focus::Hex,
                *color,
            ));
        }
        cmds.push(DrawCmd::Print(hex_line));
        cmds.push(DrawCmd::MoveLeft(7));
        cmds.push(DrawCmd::MoveDown(2));
        let mut r_line = String::from_str(Focus::R.prefix());
        r_line.append(pad3_string(rgb.0 as u32).as_str());
        proof {
            assert(r_line@ =~= spec_focus_prefix(Focus::R) + spec_prefill(Focus::R, *color));
        }
        cmds.push(DrawCmd::Print(r_line));
        cmds.push(DrawCmd::MoveLeft(5));
        cmds.push(DrawCmd::MoveDown(1));
        let mut g_line = String::from_str(Focus::G.prefix());
        g_line.append(pad3_string(rgb.1 as u32).as_str());
        proof {
            assert(g_line@ =~= spec_focus_prefix(Focus::G) + spec_prefill(Focus::G, *color));
        }
        cmds.push(DrawCmd::Print(g_line));
        cmds.push(DrawCmd::MoveLeft(5));
        cmds.push(DrawCmd::MoveDown(1));
        let mut b_line = String::from_str(Focus::B.prefix());
        b_line.append(pad3_string(rgb.2 as u32).as_str());
        proof {
            assert(b_line@ =~= spec_focus_prefix(Focus::B) + spec_prefill(Focus::B, *color));
        }
        cmds.push(DrawCmd::Print(b_line));
        cmds.push(DrawCmd::MoveLeft(5));
        cmds.push(DrawCmd::MoveDown(2));
        let mut h_line = String::from_str(Focus::H.prefix());
        h_line.append(pad3_string(rounded_ratio(color.hue.num, color.hue.den)).as_str());
        proof {
            assert(h_line@ =~= spec_focus_prefix(Focus::H) + spec_prefill(Focus::H, *color));
        }
        cmds.push(DrawCmd::Print(h_line));
        cmds.push(DrawCmd::MoveLeft(5));
        cmds.push(DrawCmd::MoveDown(1));
        let mut s_line = String::from_str(Focus::S.prefix());
        s_line.append(
            pad3_string(rounded_ratio(100 * color.saturation.num, color.saturation.den)).as_str(),
        );
        proof {
            assert(s_line@ =~= spec_focus_prefix(Focus::S) + spec_prefill(Focus::S, *color));
        }
        cmds.push(DrawCmd::Print(s_line));
        cmds.push(DrawCmd::MoveLeft(5));
        cmds.push(DrawCmd::MoveDown(1));
        let mut v_line = String::from_str(Focus::V.prefix());
        v_line.append(
            pad3_string(rounded_ratio(100 * color.value.num, color.value.den)).as_str(),
        );
        proof {
            assert(v_line@ =~= spec_focus_prefix(Focus::V) + spec_prefill(Focus::V, *color));
        }
        cmds.push(DrawCmd::Print(v_line));
        cmds.push(DrawCmd::MoveLeft(5));
        cmds.push(DrawCmd::MoveDown(1));
        cmds
    }

    /// The draw instructions for the focused field's edit buffer: show the
    /// cursor, blank the field and print the buffer in place.
    pub fn render_input_echo(&self) -> (cmds: Vec<DrawCmd>)
        requires
            self.pos.x + 2 <= 0xffff,
            self.pos.y + 12 <= 0xffff,
    ensures
            cmds@.len() == 5,
            cmds@[0] == DrawCmd::MoveTo(
                (self.pos.x + spec_prefix_len(self.focus)) as u16,
                (self.pos.y + spec_focus_row(self.focus)) as u16,
            ),
            cmds@[1] == DrawCmd::ShowCursor,
            cmds@[4] matches DrawCmd::Print(s) && s@ == self.input_str@,
    {
        proof {
            reveal_strlit(" ");
        }
        let plen: u32 = match self.focus {
            Focus::Hex => 1,
            Focus::NONE => 0,
            _ => 2,
        };
        let mut cmds: Vec<DrawCmd> = Vec::new();
        cmds.push(
            DrawCmd::MoveTo((self.pos.x + plen) as u16, (self.pos.y + self.focus.value()) as u16),
        );
        cmds.push(DrawCmd::ShowCursor);
        cmds.push(DrawCmd::Print(repeat_glyph(" ", 7)));
        cmds.push(DrawCmd::MoveLeft(7));
        cmds.push(DrawCmd::Print(String::from_str(self.input_str.as_str())));
        cmds
    }
}

} // verus!
