use vstd::prelude::*;

verus! {

/// What the checked first step of the approximation decides for one input.
///
/// Inputs outside the positive normal range are answered by an IEEE-754
/// sentinel. A positive normal input gets a first estimate, the raw bit pattern
/// of a float of the same width, which one step of Newton's method refines.
#[derive(Debug, PartialEq, Eq, Structural)]
pub enum Estimate<B> {
    /// The result is NaN: the input is negative or NaN.
    NotANumber,
    /// The result is `0.0`: the input is positive infinity.
    Zero,
    /// The result is positive infinity: the input is positive zero or subnormal.
    Infinity,
    /// The input is positive and normal; the bits hold the first estimate.
    Seed(B),
}

} // verus!
