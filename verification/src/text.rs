use vstd::prelude::*;
use vstd::string::StringExecFns;

verus! {

/// The decimal digit character for `d` in [0, 9].
pub open spec fn dec_digit_char(d: int) -> char {
    if d == 0 {
        '0'
    } else if d == 1 {
        '1'
    } else if d == 2 {
        '2'
    } else if d == 3 {
        '3'
    } else if d == 4 {
        '4'
    } else if d == 5 {
        '5'
    } else if d == 6 {
        '6'
    } else if d == 7 {
        '7'
    } else if d == 8 {
        '8'
    } else {
        '9'
    }
}

/// The decimal digits of `n`, most significant first, without leading zeros
/// (zero itself is the single digit `0`).
pub open spec fn spec_dec(n: int) -> Seq<char>
    decreases n,
{
    if n < 10 {
        seq![dec_digit_char(n)]
    } else {
        spec_dec(n / 10).push(dec_digit_char(n % 10))
    }
}

/// The uppercase hexadecimal digit character for `d` in [0, 15].
pub open spec fn hex_digit_char_upper(d: int) -> char {
    if d < 10 {
        dec_digit_char(d)
    } else if d == 10 {
        'A'
    } else if d == 11 {
        'B'
    } else if d == 12 {
        'C'
    } else if d == 13 {
        'D'
    } else if d == 14 {
        'E'
    } else {
        'F'
    }
}

/// The lowercase hexadecimal digit character for `d` in [0, 15].
pub open spec fn hex_digit_char_lower(d: int) -> char {
    if d < 10 {
        dec_digit_char(d)
    } else if d == 10 {
        'a'
    } else if d == 11 {
        'b'
    } else if d == 12 {
        'c'
    } else if d == 13 {
        'd'
    } else if d == 14 {
        'e'
    } else {
        'f'
    }
}

/// A byte as two uppercase hex digits.
pub open spec fn spec_hex_byte_upper(n: int) -> Seq<char> {
    seq![hex_digit_char_upper(n / 16), hex_digit_char_upper(n % 16)]
}

/// A byte as two lowercase hex digits.
pub open spec fn spec_hex_byte_lower(n: int) -> Seq<char> {
    seq![hex_digit_char_lower(n / 16), hex_digit_char_lower(n % 16)]
}

/// A number below 1000, right-aligned in a field of three characters.
pub open spec fn spec_pad3(n: int) -> Seq<char> {
    if n >= 100 {
        spec_dec(n)
    } else if n >= 10 {
        seq![' '] + spec_dec(n)
    } else {
        seq![' ', ' '] + spec_dec(n)
    }
}

fn dec_digit_str(d: u32) -> (r: &'static str)
    requires
        d < 10,
    ensures
        r@ == seq![dec_digit_char(d as int)],
{
    proof {
        reveal_strlit("0");
        reveal_strlit("1");
        reveal_strlit("2");
        reveal_strlit("3");
        reveal_strlit("4");
        reveal_strlit("5");
        reveal_strlit("6");
        reveal_strlit("7");
        reveal_strlit("8");
        reveal_strlit("9");
    }
    let r = if d == 0 {
        "0"
    } else if d == 1 {
        "1"
    } else if d == 2 {
        "2"
    } else if d == 3 {
        "3"
    } else if d == 4 {
        "4"
    } else if d == 5 {
        "5"
    } else if d == 6 {
        "6"
    } else if d == 7 {
        "7"
    } else if d == 8 {
        "8"
    } else {
        "9"
    };
    proof {
        assert(r@ =~= seq![dec_digit_char(d as int)]);
    }
    r
}

fn hex_digit_str_upper(d: u32) -> (r: &'static str)
    requires
        d < 16,
    ensures
        r@ == seq![hex_digit_char_upper(d as int)],
{
    proof {
        reveal_strlit("A");
        reveal_strlit("B");
        reveal_strlit("C");
        reveal_strlit("D");
        reveal_strlit("E");
        reveal_strlit("F");
    }
    let r = if d < 10 {
        dec_digit_str(d)
    } else if d == 10 {
        "A"
    } else if d == 11 {
        "B"
    } else if d == 12 {
        "C"
    } else if d == 13 {
        "D"
    } else if d == 14 {
        "E"
    } else {
        "F"
    };
    proof {
        assert(r@ =~= seq![hex_digit_char_upper(d as int)]);
    }
    r
}

fn hex_digit_str_lower(d: u32) -> (r: &'static str)
    requires
        d < 16,
    ensures
        r@ == seq![hex_digit_char_lower(d as int)],
{
    proof {
        reveal_strlit("a");
        reveal_strlit("b");
        reveal_strlit("c");
        reveal_strlit("d");
        reveal_strlit("e");
        reveal_strlit("f");
    }
    let r = if d < 10 {
        dec_digit_str(d)
    } else if d == 10 {
        "a"
    } else if d == 11 {
        "b"
    } else if d == 12 {
        "c"
    } else if d == 13 {
        "d"
    } else if d == 14 {
        "e"
    } else {
        "f"
    };
    proof {
        assert(r@ =~= seq![hex_digit_char_lower(d as int)]);
    }
    r
}

/// `n` in decimal, without leading zeros.
pub fn dec_string(n: u32) -> (r: String)
    ensures
        r@ == spec_dec(n as int),
        n < 10 ==> r@.len() == 1,
        10 <= n < 100 ==> r@.len() == 2,
        100 <= n < 1000 ==> r@.len() == 3,
    decreases n,
{
    if n < 10 {
        String::from_str(dec_digit_str(n))
    } else {
        let mut r = dec_string(n / 10);
        r.append(dec_digit_str(n % 10));
        proof {
            assert(r@ =~= spec_dec(n as int));
        }
        r
    }
}

/// A byte as two uppercase hex digits.
pub fn hex_byte_upper(n: u8) -> (r: String)
    ensures
        r@ == spec_hex_byte_upper(n as int),
{
    let mut r = String::from_str(hex_digit_str_upper(n as u32 / 16));
    r.append(hex_digit_str_upper(n as u32 % 16));
    proof {
        assert(r@ =~= spec_hex_byte_upper(n as int));
    }
    r
}

/// A byte as two lowercase hex digits.
pub fn hex_byte_lower(n: u8) -> (r: String)
    ensures
        r@ == spec_hex_byte_lower(n as int),
{
    let mut r = String::from_str(hex_digit_str_lower(n as u32 / 16));
    r.append(hex_digit_str_lower(n as u32 % 16));
    proof {
        assert(r@ =~= spec_hex_byte_lower(n as int));
    }
    r
}

/// `n` right-aligned in a field of three characters.
pub fn pad3_string(n: u32) -> (r: String)
    requires
        n < 1000,
    ensures
        r@ == spec_pad3(n as int),
        r@.len() == 3,
{
    proof {
        reveal_strlit(" ");
        reveal_strlit("  ");
    }
    if n >= 100 {
        dec_string(n)
    } else if n >= 10 {
        let mut r = String::from_str(" ");
        r.append(dec_string(n).as_str());
        proof {
            assert(r@ =~= spec_pad3(n as int));
        }
        r
    } else {
        let mut r = String::from_str("  ");
        r.append(dec_string(n).as_str());
        proof {
            assert(r@ =~= spec_pad3(n as int));
        }
        r
    }
}

/// A number below 100 as exactly two digits.
pub open spec fn spec_two_digits(n: int) -> Seq<char> {
    seq![dec_digit_char(n / 10), dec_digit_char(n % 10)]
}

pub fn two_digit_string(n: u32) -> (r: String)
    requires
        n < 100,
    ensures
        r@ == spec_two_digits(n as int),
{
    let mut r = String::from_str(dec_digit_str(n / 10));
    r.append(dec_digit_str(n % 10));
    proof {
        assert(r@ =~= spec_two_digits(n as int));
    }
    r
}

/// The sequence of `n` copies of the single character of `g`.
pub open spec fn spec_repeat(c: char, n: int) -> Seq<char> {
    Seq::new(n as nat, |i: int| c)
}

/// `n` copies of the single-character glyph `g`.
pub fn repeat_glyph(g: &str, n: usize) -> (r: String)
    requires
        g@.len() == 1,
    ensures
        r@ == spec_repeat(g@[0], n as int),
{
    let mut r = String::new();
    let mut k: usize = 0;
    while k < n
        invariant
            k <= n,
            g@.len() == 1,
            r@ == spec_repeat(g@[0], k as int),
        decreases n - k,
    {
        r.append(g);
        k = k + 1;
        proof {
            assert(r@ =~= spec_repeat(g@[0], k as int));
        }
    }
    r
}

} // verus!
