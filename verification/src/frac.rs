use vstd::prelude::*;
use vstd::arithmetic::div_mod::{lemma_fundamental_div_mod, lemma_mod_multiples_basic};

verus! {

/// Every fraction in the color model keeps its denominator at or below this
/// bound, so that the products formed while converting to RGB fit in `u128`.
pub const DEN_MAX: u64 = 10_000_000_000;

/// An exact nonnegative fraction `num / den`.  Color components are stored as
/// such fractions: a hue in degrees below 360, a saturation and a value in
/// [0, 1].  Keeping components exact is what makes the RGB round trip lossless.
#[derive(Debug, Clone, Copy, PartialEq, Eq, Structural)]
pub struct Frac {
    pub num: u64,
    pub den: u64,
}

impl Frac {
    /// Bounds that every stored fraction obeys: a positive denominator no
    /// larger than `DEN_MAX`, and a numerator of at most 360 denominators
    /// (the largest value a hue can take).
    pub open spec fn wf(self) -> bool {
        &&& 1 <= self.den <= DEN_MAX
        &&& self.num <= 360 * self.den
    }

    /// The fraction lies in [0, 1].
    pub open spec fn is_unit(self) -> bool {
        self.num <= self.den
    }

    /// The fraction lies in [0, 360).
    pub open spec fn is_hue(self) -> bool {
        self.num < 360 * self.den
    }

    /// The two fractions denote the same rational number.
    pub open spec fn eq_frac(self, other: Frac) -> bool {
        self.num * other.den == other.num * self.den
    }

    /// `self <= other` as rational numbers.
    pub open spec fn le(self, other: Frac) -> bool {
        self.num * other.den <= other.num * self.den
    }

    /// The fraction zero.
    pub fn zero() -> (r: Frac)
        ensures
            r == (Frac { num: 0u64, den: 1u64 }),
    {
        Frac { num: 0, den: 1 }
    }

    /// The fraction one.
    pub fn one() -> (r: Frac)
        ensures
            r == (Frac { num: 1u64, den: 1u64 }),
    {
        Frac { num: 1, den: 1 }
    }

    /// The same rational number with numerator and denominator divided by a
    /// common divisor, so that equal parsed values get equal representations.
    pub fn reduced(num: u64, den: u64) -> (r: Frac)
        requires
            1 <= den,
        ensures
            r.num * den == num * r.den,
            1 <= r.den <= den,
            r.num <= num,
    {
        let g = gcd(den, num);
        let rn = num / g;
        let rd = den / g;
        proof {
            lemma_fundamental_div_mod(num as int, g as int);
            lemma_fundamental_div_mod(den as int, g as int);
            // num == rn * g and den == rd * g, since both remainders are zero.
            assert(num == rn * g && den == rd * g) by (nonlinear_arith)
                requires
                    g >= 1,
                    num % g == 0,
                    den % g == 0,
                    rn == num as int / g as int,
                    rd == den as int / g as int,
                    num == g * (num as int / g as int) + num % g,
                    den == g * (den as int / g as int) + den % g,
            ;
            assert(rn * den == num * rd && rd >= 1 && rn <= num && rd <= den) by (nonlinear_arith)
                requires
                    g >= 1,
                    den >= 1,
                    num == rn * g,
                    den == rd * g,
            ;
        }
        Frac { num: rn, den: rd }
    }
}

/// Greatest common divisor by Euclid's algorithm.  Only divisibility and the
/// bounds are claimed; maximality is not needed anywhere.
pub fn gcd(a: u64, b: u64) -> (g: u64)
    requires
        1 <= a,
    ensures
        1 <= g <= a,
        a % g == 0,
        b % g == 0,
    decreases b,
{
    if b == 0 {
        proof {
            lemma_mod_self_is_zero(a);
        }
        a
    } else {
        let r = a % b;
        let g = gcd(b, r);
        proof {
            // a = (a / b) * b + r, and g divides both b and r, so g divides a.
            lemma_fundamental_div_mod(a as int, b as int);
            lemma_fundamental_div_mod(b as int, g as int);
            lemma_fundamental_div_mod(r as int, g as int);
            let k = (a as int / b as int) * (b as int / g as int) + (r as int / g as int);
            assert(a as int == k * g) by (nonlinear_arith)
                requires
                    g >= 1,
                    b % g == 0,
                    r % g == 0,
                    a as int == b as int * (a as int / b as int) + a as int % b as int,
                    a as int % b as int == r,
                    b as int == g as int * (b as int / g as int) + b as int % g as int,
                    r as int == g as int * (r as int / g as int) + r as int % g as int,
                    k == (a as int / b as int) * (b as int / g as int) + (r as int / g as int),
            ;
            lemma_mod_multiples_basic(k, g as int);
            assert(a % g == 0);
            assert(g <= a) by (nonlinear_arith)
                requires
                    a as int == k * g,
                    a >= 1,
                    g >= 1,
            ;
        }
        g
    }
}

proof fn lemma_mod_self_is_zero(a: u64)
    requires
        1 <= a,
    ensures
        a % a == 0,
{
    lemma_mod_multiples_basic(1, a as int);
    assert(1 * a == a) by (nonlinear_arith);
}

/// A fraction equal in value to a unit fraction is itself a unit fraction.
pub proof fn lemma_eq_frac_unit(a: Frac, b: Frac)
    requires
        a.den >= 1,
        b.den >= 1,
        a.eq_frac(b),
        a.is_unit(),
    ensures
        b.is_unit(),
{
    assert(b.num <= b.den) by (nonlinear_arith)
        requires
            a.den >= 1,
            b.den >= 1,
            a.num * b.den == b.num * a.den,
            a.num <= a.den,
    ;
}

/// A fraction equal in value to a hue below 360 degrees stays below 360.
pub proof fn lemma_eq_frac_hue(a: Frac, b: Frac)
    requires
        a.den >= 1,
        b.den >= 1,
        a.eq_frac(b),
        a.is_hue(),
    ensures
        b.is_hue(),
{
    assert(b.num < 360 * b.den) by (nonlinear_arith)
        requires
            a.den >= 1,
            b.den >= 1,
            a.num * b.den == b.num * a.den,
            a.num < 360 * a.den,
    ;
}

} // verus!
