//! The matchers: `any`, which accepts every value, and `eq`, which accepts
//! one; and the lifting of plain literals into equality matchers.

use crate::error::{outcome, Error, ErrorModel};
use crate::expected::Expected;
use crate::validator::Validator;
use crate::value::{get_value_type_id, Value, ValueModel};
use vstd::prelude::*;
use vstd::std_specs::convert::FromSpecImpl;

verus! {

/// What an equality match reports: given the model of the expected value,
/// the rendering of what was expected, and the model of the value that is
/// inspected.
///
/// The kinds are compared first. A value of another kind than the expected
/// one is an `InvalidType`, with the expected kind, whatever the two values
/// hold. A value of the expected kind is accepted if it equals the expected
/// value, and is an `InvalidValue`, with the rendering, if it does not.
pub open spec fn equality_verdict(
    expected: ValueModel,
    rendering: Seq<char>,
    actual: ValueModel,
) -> Result<(), ErrorModel> {
    if expected.type_id() != actual.type_id() {
        Err(ErrorModel::InvalidType(actual, expected.type_id()))
    } else if actual == expected {
        Ok(())
    } else {
        Err(ErrorModel::InvalidValue(actual, rendering))
    }
}

/// Whether `validator` accepts every value.
pub open spec fn accepts_all<V: Validator + ?Sized>(validator: &V) -> bool {
    forall|value: ValueModel| #[trigger] validator.verdict(value) == Ok::<(), ErrorModel>(())
}

/// Whether `validator` matches values for equality with `expected`: on every
/// value it reports what [`equality_verdict`] gives for `expected`.
pub open spec fn matches_equal_to<V: Validator + ?Sized, T: Expected>(
    validator: &V,
    expected: T,
) -> bool {
    forall|value: ValueModel| #[trigger]
        validator.verdict(value) == equality_verdict(
            expected.value(),
            expected.rendering(),
            value,
        )
}

/// Matches any value.
///
/// The validator never returns an error, whatever it is given: null, an
/// empty array and an empty object are accepted like every other value.
pub fn any() -> (validator: impl Validator)
    ensures
        accepts_all(&validator),
{
    AnyValidator {}
}

struct AnyValidator {}

impl Validator for AnyValidator {
    closed spec fn verdict(&self, value: ValueModel) -> Result<(), ErrorModel> {
        Ok(())
    }

    fn validate<'a>(&self, _value: &'a Value) -> (result: Result<(), Error<'a>>) {
        Ok(())
    }
}

/// Matches a value that equals the expected one.
///
/// The validator keeps `expected` as it was given. It tells a value of
/// another kind (`InvalidType`) from a value of the expected kind with other
/// contents (`InvalidValue`), and looks at the kind first.
pub fn eq<T>(expected: T) -> (validator: impl Validator) where T: Expected + 'static
    ensures
        matches_equal_to(&validator, expected),
{
    EqValidator { expected }
}

struct EqValidator<T> where T: Expected {
    expected: T,
}

impl<T> Validator for EqValidator<T> where T: Expected {
    closed spec fn verdict(&self, value: ValueModel) -> Result<(), ErrorModel> {
        equality_verdict(self.expected.value(), self.expected.rendering(), value)
    }

    /// The expected value is converted anew on every call, and rendered only
    /// when a value of its kind does not equal it. An error borrows `value`
    /// itself.
    fn validate<'a>(&self, value: &'a Value) -> (result: Result<(), Error<'a>>)
        ensures
            match result {
                Ok(_) => true,
                Err(Error::InvalidType(subject, _)) => subject == value,
                Err(Error::InvalidValue(subject, _)) => subject == value,
            },
    {
        let expected_val = self.expected.to_value();
        let expected_id = get_value_type_id(&expected_val);
        if expected_id != get_value_type_id(value) {
            return Err(Error::InvalidType(value, expected_id));
        }
        if *value == expected_val {
            Ok(())
        } else {
            Err(Error::InvalidValue(value, self.expected.render()))
        }
    }
}

// Lifting. A literal that stands where a boxed validator is expected becomes
// the equality matcher that expects it. Each `from` below says so in its own
// `ensures`; it builds no value other than the box, and inspects none. The
// impl of `FromSpecImpl` beside it gives `from` no specification function: a
// boxed trait object that a specification builds is not one that the box
// built by code can be proved equal to. Each body leaves by `return`, which
// keeps the unsizing of the box at the returned expression.

/// An owned string lifted into the equality matcher that expects it.
impl From<String> for Box<dyn Validator> {
    fn from(u: String) -> (validator: Self)
        ensures
            matches_equal_to(&*validator, u),
    {
        return Box::new(EqValidator { expected: u });
    }
}

impl FromSpecImpl<String> for Box<dyn Validator> {
    open spec fn obeys_from_spec() -> bool {
        false
    }

    open spec fn from_spec(u: String) -> Self {
        arbitrary()
    }
}

/// A boolean lifted into the equality matcher that expects it.
impl From<bool> for Box<dyn Validator> {
    fn from(u: bool) -> (validator: Self)
        ensures
            matches_equal_to(&*validator, u),
    {
        return Box::new(EqValidator { expected: u });
    }
}

impl FromSpecImpl<bool> for Box<dyn Validator> {
    open spec fn obeys_from_spec() -> bool {
        false
    }

    open spec fn from_spec(u: bool) -> Self {
        arbitrary()
    }
}

/// A `u8` lifted into the equality matcher that expects it.
impl From<u8> for Box<dyn Validator> {
    fn from(u: u8) -> (validator: Self)
        ensures
            matches_equal_to(&*validator, u),
    {
        return Box::new(EqValidator { expected: u });
    }
}

impl FromSpecImpl<u8> for Box<dyn Validator> {
    open spec fn obeys_from_spec() -> bool {
        false
    }

    open spec fn from_spec(u: u8) -> Self {
        arbitrary()
    }
}

/// A `u16` lifted into the equality matcher that expects it.
impl From<u16> for Box<dyn Validator> {
    fn from(u: u16) -> (validator: Self)
        ensures
            matches_equal_to(&*validator, u),
    {
        return Box::new(EqValidator { expected: u });
    }
}

impl FromSpecImpl<u16> for Box<dyn Validator> {
    open spec fn obeys_from_spec() -> bool {
        false
    }

    open spec fn from_spec(u: u16) -> Self {
        arbitrary()
    }
}

/// A `u32` lifted into the equality matcher that expects it.
impl From<u32> for Box<dyn Validator> {
    fn from(u: u32) -> (validator: Self)
        ensures
            matches_equal_to(&*validator, u),
    {
        return Box::new(EqValidator { expected: u });
    }
}

impl FromSpecImpl<u32> for Box<dyn Validator> {
    open spec fn obeys_from_spec() -> bool {
        false
    }

    open spec fn from_spec(u: u32) -> Self {
        arbitrary()
    }
}

/// A `u64` lifted into the equality matcher that expects it.
impl From<u64> for Box<dyn Validator> {
    fn from(u: u64) -> (validator: Self)
        ensures
            matches_equal_to(&*validator, u),
    {
        return Box::new(EqValidator { expected: u });
    }
}

impl FromSpecImpl<u64> for Box<dyn Validator> {
    open spec fn obeys_from_spec() -> bool {
        false
    }

    open spec fn from_spec(u: u64) -> Self {
        arbitrary()
    }
}

/// A `usize` lifted into the equality matcher that expects it.
impl From<usize> for Box<dyn Validator> {
    fn from(u: usize) -> (validator: Self)
        ensures
            matches_equal_to(&*validator, u),
    {
        return Box::new(EqValidator { expected: u });
    }
}

impl FromSpecImpl<usize> for Box<dyn Validator> {
    open spec fn obeys_from_spec() -> bool {
        false
    }

    open spec fn from_spec(u: usize) -> Self {
        arbitrary()
    }
}

/// An `i8` lifted into the equality matcher that expects it.
impl From<i8> for Box<dyn Validator> {
    fn from(u: i8) -> (validator: Self)
        ensures
            matches_equal_to(&*validator, u),
    {
        return Box::new(EqValidator { expected: u });
    }
}

impl FromSpecImpl<i8> for Box<dyn Validator> {
    open spec fn obeys_from_spec() -> bool {
        false
    }

    open spec fn from_spec(u: i8) -> Self {
        arbitrary()
    }
}

/// An `i16` lifted into the equality matcher that expects it.
impl From<i16> for Box<dyn Validator> {
    fn from(u: i16) -> (validator: Self)
        ensures
            matches_equal_to(&*validator, u),
    {
        return Box::new(EqValidator { expected: u });
    }
}

impl FromSpecImpl<i16> for Box<dyn Validator> {
    open spec fn obeys_from_spec() -> bool {
        false
    }

    open spec fn from_spec(u: i16) -> Self {
        arbitrary()
    }
}

/// An `i32` lifted into the equality matcher that expects it.
impl From<i32> for Box<dyn Validator> {
    fn from(u: i32) -> (validator: Self)
        ensures
            matches_equal_to(&*validator, u),
    {
        return Box::new(EqValidator { expected: u });
    }
}

impl FromSpecImpl<i32> for Box<dyn Validator> {
    open spec fn obeys_from_spec() -> bool {
        false
    }

    open spec fn from_spec(u: i32) -> Self {
        arbitrary()
    }
}

/// An `i64` lifted into the equality matcher that expects it.
impl From<i64> for Box<dyn Validator> {
    fn from(u: i64) -> (validator: Self)
        ensures
            matches_equal_to(&*validator, u),
    {
        return Box::new(EqValidator { expected: u });
    }
}

impl FromSpecImpl<i64> for Box<dyn Validator> {
    open spec fn obeys_from_spec() -> bool {
        false
    }

    open spec fn from_spec(u: i64) -> Self {
        arbitrary()
    }
}

/// An `isize` lifted into the equality matcher that expects it.
impl From<isize> for Box<dyn Validator> {
    fn from(u: isize) -> (validator: Self)
        ensures
            matches_equal_to(&*validator, u),
    {
        return Box::new(EqValidator { expected: u });
    }
}

impl FromSpecImpl<isize> for Box<dyn Validator> {
    open spec fn obeys_from_spec() -> bool {
        false
    }

    open spec fn from_spec(u: isize) -> Self {
        arbitrary()
    }
}

/// A string slice lifted into the equality matcher that expects the owned
/// string with the same characters.
impl<'a> From<&'a str> for Box<dyn Validator> {
    fn from(str_input: &'a str) -> (validator: Self)
        ensures
            matches_equal_to(&*validator, str_input),
    {
        let expected = str_input.to_owned();
        return Box::new(EqValidator { expected });
    }
}

impl<'a> FromSpecImpl<&'a str> for Box<dyn Validator> {
    open spec fn obeys_from_spec() -> bool {
        false
    }

    open spec fn from_spec(str_input: &'a str) -> Self {
        arbitrary()
    }
}

/// An equality matcher accepts the value that its expectation converts to.
pub proof fn lemma_eq_accepts_expected<V: Validator + ?Sized, T: Expected>(
    validator: &V,
    expected: T,
)
    requires
        matches_equal_to(validator, expected),
    ensures
        validator.verdict(expected.value()) == Ok::<(), ErrorModel>(()),
{
}

/// An equality matcher reports a value of another kind than the expected one
/// as an `InvalidType` with the expected kind, whatever the two values hold:
/// kinds are told apart before contents are.
pub proof fn lemma_eq_rejects_other_kind<V: Validator + ?Sized, T: Expected>(
    validator: &V,
    expected: T,
    actual: ValueModel,
)
    requires
        matches_equal_to(validator, expected),
        expected.value().type_id() != actual.type_id(),
    ensures
        validator.verdict(actual) == Err::<(), ErrorModel>(
            ErrorModel::InvalidType(actual, expected.value().type_id()),
        ),
{
}

/// An equality matcher reports a value of the expected kind that is not the
/// expected value as an `InvalidValue` with the rendering of what was
/// expected.
pub proof fn lemma_eq_rejects_other_value<V: Validator + ?Sized, T: Expected>(
    validator: &V,
    expected: T,
    actual: ValueModel,
)
    requires
        matches_equal_to(validator, expected),
        expected.value().type_id() == actual.type_id(),
        expected.value() != actual,
    ensures
        validator.verdict(actual) == Err::<(), ErrorModel>(
            ErrorModel::InvalidValue(actual, expected.rendering()),
        ),
{
}

/// A literal lifted into a boxed validator reports on every value what the
/// equality matcher made from the same literal reports.
pub proof fn lemma_lifted_agrees_with_eq<L: Validator + ?Sized, V: Validator + ?Sized, T: Expected>(
    lifted: &L,
    direct: &V,
    literal: T,
    value: ValueModel,
)
    requires
        matches_equal_to(lifted, literal),
        matches_equal_to(direct, literal),
    ensures
        lifted.verdict(value) == direct.verdict(value),
{
}

} // verus!
