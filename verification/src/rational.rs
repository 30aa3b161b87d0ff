//! Exact rational amounts. Exchange rates and monetary amounts are carried
//! as fractions of unsigned integers, so that the conversion formulas are
//! exact arithmetic with no rounding.

use vstd::prelude::*;
use vstd::arithmetic::mul::lemma_mul_upper_bound;

verus! {

/// The mathematical value of a rational amount: a numerator and a
/// denominator over the unbounded integers.
pub ghost struct Ratio {
    pub num: int,
    pub den: int,
}

/// A ratio is well formed when its denominator is positive.
pub open spec fn ratio_wf(r: Ratio) -> bool {
    r.den > 0
}

/// A ratio is positive when numerator and denominator both are.
pub open spec fn ratio_pos(r: Ratio) -> bool {
    r.den > 0 && r.num > 0
}

/// Value equality of two ratios, by cross multiplication.
pub open spec fn ratio_eq(a: Ratio, b: Ratio) -> bool {
    a.num * b.den == b.num * a.den
}

/// The product of two ratios.
pub open spec fn ratio_mul(a: Ratio, b: Ratio) -> Ratio {
    Ratio { num: a.num * b.num, den: a.den * b.den }
}

/// The quotient of two ratios: `a` multiplied by the reciprocal of `b`.
pub open spec fn ratio_div(a: Ratio, b: Ratio) -> Ratio {
    Ratio { num: a.num * b.den, den: a.den * b.num }
}

/// The ratio with value one.
pub open spec fn ratio_one() -> Ratio {
    Ratio { num: 1, den: 1 }
}

/// An exact nonnegative rational number: `num / den` with `den > 0`.
#[derive(Clone, Copy, Debug, PartialEq, Eq, Structural)]
pub struct Rational {
    pub num: u64,
    pub den: u64,
}

impl View for Rational {
    type V = Ratio;

    open spec fn view(&self) -> Ratio {
        Ratio { num: self.num as int, den: self.den as int }
    }
}

impl Rational {
    /// A rational is well formed when its denominator is positive.
    pub open spec fn wf(self) -> bool {
        self.den > 0
    }

    /// The rational `num / den`.
    pub fn new(num: u64, den: u64) -> (result: Rational)
        requires
            den > 0,
        ensures
            result.wf(),
            result@ == (Ratio { num: num as int, den: den as int }),
    {
        Rational { num, den }
    }

    /// The rational with the whole value `n`.
    pub fn from_int(n: u64) -> (result: Rational)
        ensures
            result.wf(),
            result@ == (Ratio { num: n as int, den: 1 }),
    {
        Rational { num: n, den: 1 }
    }

    /// Whether two rationals denote the same value, by cross multiplication:
    /// `11000/110` equals `100/1`.
    pub fn equiv(&self, other: &Rational) -> (same: bool)
        requires
            self.wf(),
            other.wf(),
        ensures
            same == ratio_eq(self@, other@),
    {
        proof {
            lemma_mul_upper_bound(
                self.num as int,
                u64::MAX as int,
                other.den as int,
                u64::MAX as int,
            );
            lemma_mul_upper_bound(
                other.num as int,
                u64::MAX as int,
                self.den as int,
                u64::MAX as int,
            );
        }
        (self.num as u128) * (other.den as u128) == (other.num as u128) * (self.den as u128)
    }
}

} // verus!
