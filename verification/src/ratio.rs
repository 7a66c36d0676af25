//! Exact fractions of two integers.

use vstd::prelude::*;

verus! {

/// A fraction of two mathematical integers. It is the yardstick for the
/// machine fractions below: sums and products of quotients never overflow.
pub struct Quotient {
    pub num: int,
    pub den: int,
}

impl Quotient {
    /// The integer `k` as a quotient.
    pub open spec fn whole(k: int) -> Quotient {
        Quotient { num: k, den: 1 }
    }

    /// Whether two quotients denote the same number. A quotient with the
    /// denominator zero denotes none.
    pub open spec fn same(self, other: Quotient) -> bool {
        self.den != 0 && other.den != 0 && self.num * other.den == other.num * self.den
    }

    /// The sum of two quotients.
    pub open spec fn plus(self, other: Quotient) -> Quotient {
        Quotient { num: self.num * other.den + other.num * self.den, den: self.den * other.den }
    }

    /// The difference of two quotients.
    pub open spec fn minus(self, other: Quotient) -> Quotient {
        Quotient { num: self.num * other.den - other.num * self.den, den: self.den * other.den }
    }

    /// The product of two quotients.
    pub open spec fn times(self, other: Quotient) -> Quotient {
        Quotient { num: self.num * other.num, den: self.den * other.den }
    }

    /// One quotient divided by another.
    pub open spec fn over(self, other: Quotient) -> Quotient {
        Quotient { num: self.num * other.den, den: self.den * other.num }
    }

    /// The quotient with the opposite sign.
    pub open spec fn neg(self) -> Quotient {
        Quotient { num: -self.num, den: self.den }
    }
}

/// A fraction `num / den`, kept exactly as the two integers it was built from.
///
/// Nothing is reduced and the denominator may be zero or negative: the value
/// is the pair. Whoever needs a rounded number divides at the very end.
#[derive(Debug, Clone, Copy, PartialEq, Eq, Structural)]
pub struct Ratio {
    pub num: i64,
    pub den: i64,
}

impl Ratio {
    /// The fraction as a quotient of mathematical integers.
    pub open spec fn q(self) -> Quotient {
        Quotient { num: self.num as int, den: self.den as int }
    }

    /// The fraction `num / den`.
    pub fn new(num: i64, den: i64) -> (r: Ratio)
        ensures
            r == (Ratio { num, den }),
    {
        Ratio { num, den }
    }

    /// The fraction that stands for zero.
    pub fn zero() -> (r: Ratio)
        ensures
            r == (Ratio { num: 0, den: 1 }),
    {
        Ratio { num: 0, den: 1 }
    }
}

} // verus!
