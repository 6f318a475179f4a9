//! The ways in which a statement can fail to hold.

use vstd::prelude::*;

verus! {

/// Why no valid witness exists. Every failure is final: the first check that
/// does not hold ends the computation, and nothing is corrected or retried.
#[derive(Clone, Copy, Debug, PartialEq, Eq, Structural)]
pub enum Error {
    /// A point that had to lie on the curve does not.
    PointNotOnCurve,
    /// A value does not fit in the declared number of binary digits.
    RangeExceeded,
    /// A recomputed ciphertext component differs from the public one.
    ConsistencyMismatch,
    /// The binary digits offered for a scalar do not stand for it.
    MalformedScalarDecomposition,
    /// A denominator of the addition law is zero, so no quotient exists.
    ZeroDenominator,
}

} // verus!
