//! What a validator reports when it does not accept a value.

use crate::value::{TypeId, Value, ValueModel};
use vstd::prelude::*;

verus! {

/// Why a value was not accepted. Either way the error borrows the value that
/// was inspected; it takes no copy of it.
#[derive(Debug, PartialEq)]
pub enum Error<'a> {
    /// The value is of another kind than the expected one. Holds the value
    /// and the kind that was expected.
    InvalidType(&'a Value, TypeId),
    /// The value is of the expected kind, but is not the expected value.
    /// Holds the value and a rendering of what was expected.
    InvalidValue(&'a Value, String),
}

/// What an [`Error`] stands for: the model of the value it borrows, and the
/// expected kind or the rendering of the expected value.
pub enum ErrorModel {
    InvalidType(ValueModel, TypeId),
    InvalidValue(ValueModel, Seq<char>),
}

impl<'a> View for Error<'a> {
    type V = ErrorModel;

    open spec fn view(&self) -> ErrorModel {
        match self {
            Error::InvalidType(value, expected) => ErrorModel::InvalidType(value@, *expected),
            Error::InvalidValue(value, expected) => ErrorModel::InvalidValue(value@, expected@),
        }
    }
}

/// What the result of a validation stands for: acceptance, or the model of
/// the error.
pub open spec fn outcome(result: Result<(), Error<'_>>) -> Result<(), ErrorModel> {
    match result {
        Ok(_) => Ok(()),
        Err(error) => Err(error@),
    }
}

} // verus!
