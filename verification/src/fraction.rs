//! Exact ratios of integers.
//!
//! The instrument's rates and voltages are quotients of small integers. The
//! library keeps numerator and denominator apart, so that nothing is rounded
//! before a consumer divides.

use vstd::prelude::*;

verus! {

/// The ratio `num / den`, not reduced. A zero denominator under a positive
/// numerator stands for a quantity without bound.
#[derive(Clone, Copy, Debug, PartialEq, Eq, Structural)]
pub struct Fraction {
    pub num: i128,
    pub den: u128,
}

impl Fraction {
    /// The fraction is a number: its denominator is not zero.
    pub open spec fn is_finite(self) -> bool {
        self.den > 0
    }
}

} // verus!
