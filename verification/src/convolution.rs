use vstd::prelude::*;

verus! {

/// Error returned when two distributions cannot be combined by convolution.
#[derive(Clone, Copy, Debug, PartialEq, Eq, Structural)]
pub enum ConvolutionError {
    /// The operands carry parameters that the family's closure rule rejects.
    MixedParameters,
}

/// Result of an attempted convolution.
pub type ConvolutionResult<T> = Result<T, ConvolutionError>;

/// Algebra of sums of independent random variables within one family.
///
/// A family implements this trait by giving its closure rule (`closure_ok`:
/// which pairs of instances convolve) and the instance that the sum of two
/// independent draws follows (`convolved`). `convolve` and `convolve_pair`
/// must then succeed on exactly the pairs the closure rule admits, and on
/// those pairs return exactly the convolved instance; on every other pair
/// they return a typed error, never a panic.
pub trait Convolution: Sized {
    /// Inputs on which the operation may be asked for at all; a family uses
    /// this for machine limits on the combined parameters (and for the
    /// validity of the operands), not to weaken its closure rule.
    spec fn convolve_pre(a: Self, b: Self) -> bool;

    /// The family's closure rule: whether the sum of independent draws from
    /// `a` and `b` stays in the family.
    spec fn closure_ok(a: Self, b: Self) -> bool;

    /// The instance that the sum of independent draws from `a` and `b`
    /// follows, when the closure rule admits the pair.
    spec fn convolved(a: Self, b: Self) -> Self;

    /// Convolution of `self` with `rv`.
    fn convolve(self, rv: Self) -> (r: ConvolutionResult<Self>)
        requires
            Self::convolve_pre(self, rv),
        ensures
            r is Ok <==> Self::closure_ok(self, rv),
            r is Ok ==> r->Ok_0 == Self::convolved(self, rv),
    ;

    /// Symmetric two-argument form of `convolve`.
    fn convolve_pair(a: Self, b: Self) -> (r: ConvolutionResult<Self>)
        requires
            Self::convolve_pre(a, b),
        ensures
            r is Ok <==> Self::closure_ok(a, b),
            r is Ok ==> r->Ok_0 == Self::convolved(a, b),
    ;
}

} // verus!
