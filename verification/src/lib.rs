//! Matching dynamically typed values against expectations.
//!
//! A [`Value`] is a tagged union (null, boolean, number, string, array,
//! object). A [`Validator`] inspects one borrowed value and either accepts it
//! or reports an [`Error`] that borrows the offending value. The matchers
//! built here are [`validators::any`], which accepts everything, and
//! [`validators::eq`], which accepts exactly the value that its expectation
//! converts to and tells a value of another kind from a value of the same
//! kind with other contents.

pub mod error;
pub mod expected;
pub mod validator;
pub mod validators;
pub mod value;

pub use error::{outcome, Error, ErrorModel};
pub use expected::Expected;
pub use validator::Validator;
pub use value::{get_value_type_id, Number, NumberModel, Object, TypeId, Value, ValueModel};
