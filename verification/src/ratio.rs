//! Exact fractions of unsigned integers.
//!
//! Durations (in seconds) and rates (in ticks per second) are reciprocal to each
//! other. Keeping both as a pair of integers makes that reciprocal exact, so the
//! scheduler can promise `timestep * rate == 1` rather than "close to 1".

use vstd::prelude::*;

verus! {

/// The fraction `numerator / denominator`.
///
/// A `Ratio` is plain data: any pair of integers can be written down. Whether the
/// pair stands for a number is told by [`Ratio::is_defined`].
#[derive(Clone, Copy, Debug, PartialEq, Eq)]
pub struct Ratio {
    /// The number above the line.
    pub numerator: u64,
    /// The number below the line.
    pub denominator: u64,
}

impl Ratio {
    /// The fraction stands for a number: its denominator is not zero.
    pub open spec fn is_defined(self) -> bool {
        self.denominator > 0
    }

    /// The fraction stands for a number greater than zero.
    pub open spec fn is_positive(self) -> bool {
        self.numerator > 0 && self.denominator > 0
    }

    /// The fraction `0 / 1`.
    pub open spec fn zero() -> Ratio {
        Ratio { numerator: 0, denominator: 1 }
    }

    /// The whole number `n`, written `n / 1`.
    pub open spec fn whole(n: u64) -> Ratio {
        Ratio { numerator: n, denominator: 1 }
    }

    /// The fraction `1 / n`.
    pub open spec fn unit_over(n: u64) -> Ratio {
        Ratio { numerator: 1, denominator: n }
    }

    /// Numerator and denominator exchanged.
    pub open spec fn flipped(self) -> Ratio {
        Ratio { numerator: self.denominator, denominator: self.numerator }
    }

    /// The product of the two fractions is exactly one.
    pub open spec fn is_reciprocal_of(self, other: Ratio) -> bool {
        &&& self.is_positive()
        &&& other.is_positive()
        &&& self.numerator * other.numerator == self.denominator * other.denominator
    }

    /// Returns `1 / self` for a positive fraction, and `None` for one that is zero
    /// or undefined, since neither has a reciprocal.
    pub fn reciprocal(&self) -> (r: Option<Ratio>)
        ensures
            self.is_positive() ==> r == Some(self.flipped()),
            !self.is_positive() ==> r is None,
    {
        if self.numerator > 0 && self.denominator > 0 {
            Some(Ratio { numerator: self.denominator, denominator: self.numerator })
        } else {
            None
        }
    }
}

/// A positive fraction and its flipped form multiply to one.
pub proof fn lemma_flipped_is_reciprocal(r: Ratio)
    requires
        r.is_positive(),
    ensures
        r.flipped().is_positive(),
        r.flipped().is_reciprocal_of(r),
        r.flipped().flipped() == r,
{
    assert(r.denominator * r.numerator == r.numerator * r.denominator) by (nonlinear_arith);
}

} // verus!
