use vstd::prelude::*;
use vstd::arithmetic::div_mod::{lemma_div_multiples_vanish, lemma_fundamental_div_mod};

verus! {

/// A ratio of two integers, such as a time base or an aspect ratio.
#[derive(Clone, Copy, Debug, PartialEq, Eq, Structural)]
pub struct Rational {
    pub num: i32,
    pub den: i32,
}

/// Greatest common divisor of two naturals, by Euclid's algorithm.
pub open spec fn gcd(a: nat, b: nat) -> nat
    decreases b,
{
    if b == 0 {
        a
    } else {
        gcd(b, a % b)
    }
}

pub open spec fn abs(x: int) -> nat {
    if x < 0 {
        (-x) as nat
    } else {
        x as nat
    }
}

/// The greatest common divisor divides both arguments, and is positive unless both are 0.
pub proof fn lemma_gcd_divides(a: nat, b: nat)
    ensures
        (a > 0 || b > 0) ==> gcd(a, b) > 0,
        gcd(a, b) > 0 ==> a == gcd(a, b) * (a / gcd(a, b)) as int,
        gcd(a, b) > 0 ==> b == gcd(a, b) * (b / gcd(a, b)) as int,
    decreases b,
{
    if b > 0 {
        let r = a % b;
        lemma_fundamental_div_mod(a as int, b as int);
        lemma_gcd_divides(b, r as nat);
        let g: int = gcd(a, b) as int;
        let k1: int = b as int / g;
        let k2: int = r as int / g;
        let q: int = a as int / b as int;
        assert(a == g * (k1 * q + k2)) by (nonlinear_arith)
            requires a == b * q + r, b == g * k1, r == g * k2;
        lemma_div_multiples_vanish(k1 * q + k2, g);
        assert(a as int / g == k1 * q + k2);
    } else if a > 0 {
        lemma_div_multiples_vanish(1, a as int);
        lemma_div_multiples_vanish(0, a as int);
    }
}

fn gcd_u32(a: u32, b: u32) -> (r: u32)
    ensures
        r == gcd(a as nat, b as nat),
{
    let mut x = a;
    let mut y = b;
    while y != 0
        invariant
            gcd(x as nat, y as nat) == gcd(a as nat, b as nat),
        decreases y,
    {
        let t = y;
        y = x % y;
        x = t;
    }
    x
}

impl Rational {
    /// The ratio `num / den`.
    pub fn new(num: i32, den: i32) -> (r: Rational)
        ensures
            r.num == num,
            r.den == den,
    {
        Rational { num, den }
    }

    /// The inverse ratio: numerator and denominator swapped.
    pub fn invert(self) -> (r: Rational)
        ensures
            r.num == self.den,
            r.den == self.num,
    {
        Rational { num: self.den, den: self.num }
    }

    /// The same ratio with numerator and denominator divided by their greatest common
    /// divisor, signs kept.
    pub fn reduce(self) -> (r: Rational)
        requires
            self.num != 0 || self.den != 0,
        ensures
            ({
                let g = gcd(abs(self.num as int), abs(self.den as int));
                &&& g > 0
                &&& r.num * g == self.num
                &&& r.den * g == self.den
            }),
    {
        let a: u32 = if self.num < 0 { (-(self.num as i64)) as u32 } else { self.num as u32 };
        let b: u32 = if self.den < 0 { (-(self.den as i64)) as u32 } else { self.den as u32 };
        let g = gcd_u32(a, b);
        proof {
            lemma_gcd_divides(a as nat, b as nat);
        }
        let qa = a / g;
        let qb = b / g;
        let num = if self.num < 0 { -(qa as i64) } else { qa as i64 };
        let den = if self.den < 0 { -(qb as i64) } else { qb as i64 };
        assert(num * g == self.num) by (nonlinear_arith)
            requires
                a == g * qa,
                a == abs(self.num as int),
                num == if self.num < 0 { -qa } else { qa as int };
        assert(den * g == self.den) by (nonlinear_arith)
            requires
                b == g * qb,
                b == abs(self.den as int),
                den == if self.den < 0 { -qb } else { qb as int };
        assert(-0x8000_0000 <= num <= 0x7fff_ffff) by (nonlinear_arith)
            requires num * g == self.num, g > 0, -0x8000_0000 <= self.num <= 0x7fff_ffff;
        assert(-0x8000_0000 <= den <= 0x7fff_ffff) by (nonlinear_arith)
            requires den * g == self.den, g > 0, -0x8000_0000 <= self.den <= 0x7fff_ffff;
        Rational { num: num as i32, den: den as i32 }
    }
}

} // verus!
