use vstd::prelude::*;

verus! {

/// Error returned when a parameter fails a validity constraint.
///
/// The error records which bound was violated and the offending value, so a
/// caller can report exactly what was wrong with the input.
#[derive(Clone, Copy, Debug, PartialEq, Eq, Structural)]
pub enum ValidationError {
    /// `value` was required to be at least `bound`.
    BelowMinimum { value: usize, bound: usize },
}

impl ValidationError {
    /// Checks `value >= bound`, handing both back on success so that call
    /// sites can keep building with the validated value.
    pub fn assert_gte(value: usize, bound: usize) -> (r: Result<(usize, usize), ValidationError>)
        ensures
            r is Ok <==> value >= bound,
            r is Ok ==> r->Ok_0 == (value, bound),
            r is Err ==> r->Err_0 == (ValidationError::BelowMinimum { value, bound }),
    {
        if value >= bound {
            Ok((value, bound))
        } else {
            Err(ValidationError::BelowMinimum { value, bound })
        }
    }
}

} // verus!
