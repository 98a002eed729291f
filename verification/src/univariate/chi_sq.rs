use vstd::prelude::*;

use vstd::string::StringExecFns;

use crate::convolution::{Convolution, ConvolutionError, ConvolutionResult};
use crate::decimal::{decimal_digits, push_decimal};
use crate::validation::ValidationError;

verus! {

/// Chi-squared distribution with `k` degrees of freedom.
///
/// The value is immutable after construction; convolution builds a new
/// instance rather than changing an operand.
#[derive(Clone, Copy, Debug)]
pub struct ChiSq {
    pub k: usize,
}

impl ChiSq {
    /// A chi-squared distribution is valid when it has at least one degree
    /// of freedom.
    pub open spec fn is_valid(self) -> bool {
        self.k >= 1
    }

    /// Checked constructor: fails with a validation error unless `k >= 1`.
    pub fn new(k: usize) -> (r: Result<ChiSq, ValidationError>)
        ensures
            r is Ok <==> k >= 1,
            r is Ok ==> r->Ok_0 == (ChiSq { k }) && r->Ok_0.is_valid(),
            r is Err ==> r->Err_0 == (ValidationError::BelowMinimum { value: k, bound: 1 }),
    {
        match ValidationError::assert_gte(k, 1) {
            Ok((k, _)) => Ok(ChiSq::new_unchecked(k)),
            Err(e) => Err(e),
        }
    }

    /// Unchecked constructor, for call sites that have already established
    /// `k >= 1` (for example a convolution of two valid instances).
    pub fn new_unchecked(k: usize) -> (r: ChiSq)
        requires
            k >= 1,
        ensures
            r == (ChiSq { k }),
    {
        ChiSq { k }
    }

    /// Mean of the distribution: `k`.
    pub fn mean(&self) -> (r: usize)
        ensures
            r == self.k,
    {
        self.k
    }

    /// Variance of the distribution: `2 k`.
    pub fn variance(&self) -> (r: usize)
        requires
            2 * self.k <= usize::MAX,
        ensures
            r == 2 * self.k,
    {
        2 * self.k
    }

    /// The single mode of the distribution: `k - 2`, degenerating to `0`
    /// for `k <= 2`.
    pub open spec fn spec_mode(self) -> usize {
        if self.k >= 2 {
            (self.k - 2) as usize
        } else {
            0
        }
    }

    /// Modes of the distribution: the one-element collection holding
    /// `max(k - 2, 0)`.
    pub fn modes(&self) -> (r: Vec<usize>)
        ensures
            r@ == seq![self.spec_mode()],
    {
        let mode: usize = if self.k >= 2 {
            self.k - 2
        } else {
            0
        };
        let mut r: Vec<usize> = Vec::new();
        r.push(mode);
        proof {
            assert(r@ =~= seq![self.spec_mode()]);
        }
        r
    }

    /// The characters of the textual rendering `ChiSq(<k>)`.
    pub open spec fn spec_display(self) -> Seq<char> {
        "ChiSq("@ + decimal_digits(self.k as nat) + ")"@
    }

    /// Renders the distribution as `ChiSq(<k>)`, e.g. `ChiSq(3)`; a
    /// debugging and logging aid, not a parseable serialization format.
    pub fn display_string(&self) -> (r: String)
        ensures
            r@ == self.spec_display(),
    {
        let mut out: String = String::from_str("ChiSq(");
        push_decimal(self.k, &mut out);
        out.append(")");
        proof {
            assert(out@ =~= self.spec_display());
        }
        out
    }
}

impl Convolution for ChiSq {
    /// Both operands must be valid instances and the combined degrees of
    /// freedom must fit the parameter's machine type.
    open spec fn convolve_pre(a: ChiSq, b: ChiSq) -> bool {
        a.is_valid() && b.is_valid() && a.k + b.k <= usize::MAX
    }

    /// Closure policy of this family: two instances convolve only when they
    /// carry identical degrees of freedom.
    open spec fn closure_ok(a: ChiSq, b: ChiSq) -> bool {
        a.k == b.k
    }

    /// The sum of independent chi-squared draws with `a.k` and `b.k` degrees
    /// of freedom is chi-squared with `a.k + b.k` degrees of freedom.
    open spec fn convolved(a: ChiSq, b: ChiSq) -> ChiSq {
        ChiSq { k: (a.k + b.k) as usize }
    }

    fn convolve(self, rv: ChiSq) -> (r: ConvolutionResult<ChiSq>)
        ensures
            r is Err ==> r->Err_0 == ConvolutionError::MixedParameters,
    {
        Self::convolve_pair(self, rv)
    }

    fn convolve_pair(a: ChiSq, b: ChiSq) -> (r: ConvolutionResult<ChiSq>)
        ensures
            r is Err ==> r->Err_0 == ConvolutionError::MixedParameters,
    {
        if a.k == b.k {
            Ok(ChiSq::new_unchecked(a.k + b.k))
        } else {
            Err(ConvolutionError::MixedParameters)
        }
    }
}

/// Convolution is symmetric in this family: swapping the operands changes
/// neither whether the pair convolves nor the distribution it yields.
pub proof fn lemma_convolution_symmetric(a: ChiSq, b: ChiSq)
    ensures
        ChiSq::closure_ok(a, b) == ChiSq::closure_ok(b, a),
        ChiSq::convolved(a, b) == ChiSq::convolved(b, a),
{
}

/// Convolving two valid instances yields a valid instance: the summed
/// degrees of freedom are again at least one.
pub proof fn lemma_convolution_preserves_validity(a: ChiSq, b: ChiSq)
    requires
        a.is_valid(),
        b.is_valid(),
        a.k + b.k <= usize::MAX,
    ensures
        ChiSq::convolved(a, b).is_valid(),
{
}

} // verus!
