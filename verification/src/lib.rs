//! Core of a statistical-distribution library.
//!
//! The integer-valued heart of the exemplar chi-squared distribution lives
//! here: parameter validation, the convolution algebra, the exactly
//! representable statistics (mean, variance, modes) and the textual rendering
//! of a distribution. Floating-point evaluation (CDF, PDF, sampling, entropy)
//! is built on top of this crate by unverified callers, since it delegates to
//! numeric collaborators outside the scope of verification.

use vstd::prelude::*;

mod convolution;
mod decimal;
pub mod univariate;
mod validation;

verus! {

pub use crate::convolution::Convolution;
pub use crate::convolution::ConvolutionError;
pub use crate::convolution::ConvolutionResult;
pub use crate::univariate::chi_sq::ChiSq;
pub use crate::validation::ValidationError;

} // verus!
