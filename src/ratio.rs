//! Exact fractions.
use vstd::prelude::*;

verus! {

/// The fraction `num / den`; a well-formed one has a positive denominator.
/// Fractions are not reduced: `2 / 4` and `1 / 2` are different values of
/// this type with the same value as numbers.
#[derive(Clone, Copy, Debug, PartialEq, Eq, Structural)]
pub struct Ratio {
    pub num: i128,
    pub den: i128,
}

impl Ratio {
    pub open spec fn wf(self) -> bool {
        self.den > 0
    }

    /// The fraction has the same value as `n / d`.
    pub open spec fn has_value(self, n: int, d: int) -> bool {
        self.num * d == n * self.den
    }
}

} // verus!
