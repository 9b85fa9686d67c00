//! The capability that every matcher has.

use crate::error::{outcome, Error, ErrorModel};
use crate::value::{Value, ValueModel};
use vstd::prelude::*;

verus! {

/// Something that inspects one borrowed value and accepts it or reports why
/// it does not.
///
/// What a validator reports is a function of the validator and of the value
/// alone: `verdict` names that function, and `validate` computes it. Matchers
/// of any shape implement this trait, and a `Box<dyn Validator>` holds one
/// without knowing which.
pub trait Validator {
    /// What `validate` reports on a value with the model `value`.
    ///
    /// An implementation states it. The default leaves it unspecified, so
    /// that code which is not verified can implement the trait by `validate`
    /// alone.
    open spec fn verdict(&self, value: ValueModel) -> Result<(), ErrorModel> {
        arbitrary()
    }

    /// Inspects `value`. An error borrows from `value`, for as long as
    /// `value` itself is borrowed.
    fn validate<'a>(&self, value: &'a Value) -> (result: Result<(), Error<'a>>)
        ensures
            outcome(result) == self.verdict(value@),
    ;
}

} // verus!
