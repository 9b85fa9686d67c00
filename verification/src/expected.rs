//! What can stand on the expected side of an equality match, and how each
//! such thing is shown when a value does not match it.

use crate::value::{Number, NumberModel, Value, ValueModel};
use vstd::prelude::*;

verus! {

/// Something that a value can be expected to equal: it converts to a
/// [`Value`], and it has a rendering of its own for the report of a mismatch.
///
/// The rendering is that of the thing itself, in the form it was written in,
/// not that of the value it converts to.
///
/// An implementation states `value` and `rendering`. Their defaults leave
/// both unspecified, so that code which is not verified can implement the
/// trait by `to_value` and `render` alone.
pub trait Expected {
    /// The model of the value that this converts to.
    open spec fn value(&self) -> ValueModel {
        arbitrary()
    }

    /// The text that stands for this in the report of a mismatch.
    open spec fn rendering(&self) -> Seq<char> {
        arbitrary()
    }

    /// Converts to a value. Every call gives an equal value.
    fn to_value(&self) -> (value: Value)
        ensures
            value@ == self.value(),
    ;

    /// Renders this for the report of a mismatch.
    fn render(&self) -> (text: String)
        ensures
            text@ == self.rendering(),
    ;
}

/// The character of a decimal digit.
pub open spec fn digit_char(digit: int) -> char {
    if digit == 0 {
        '0'
    } else if digit == 1 {
        '1'
    } else if digit == 2 {
        '2'
    } else if digit == 3 {
        '3'
    } else if digit == 4 {
        '4'
    } else if digit == 5 {
        '5'
    } else if digit == 6 {
        '6'
    } else if digit == 7 {
        '7'
    } else if digit == 8 {
        '8'
    } else {
        '9'
    }
}

/// A natural number in decimal, without leading zeros.
pub open spec fn decimal(n: nat) -> Seq<char>
    decreases n,
{
    if n < 10 {
        seq![digit_char(n as int)]
    } else {
        decimal(n / 10).push(digit_char((n % 10) as int))
    }
}

/// The rendering of an integer: its decimal digits, behind a minus sign if it
/// is negative.
pub open spec fn integer_text(n: int) -> Seq<char> {
    if n < 0 {
        seq!['-'] + decimal((-n) as nat)
    } else {
        decimal(n as nat)
    }
}

/// The rendering of a boolean: the word `true` or the word `false`.
pub open spec fn bool_text(b: bool) -> Seq<char> {
    if b {
        seq!['t', 'r', 'u', 'e']
    } else {
        seq!['f', 'a', 'l', 's', 'e']
    }
}

/// The rendering of a string: what `Debug` writes for a `str` with these
/// characters, which is the string between double quotes, with the
/// characters that cannot stand there as they are written as escapes.
pub uninterp spec fn quoted_text(text: Seq<char>) -> Seq<char>;

/// Calls `<str as core::fmt::Debug>::fmt`, through `format!`. The contract
/// claims that what it writes depends on the characters of `text` alone, and
/// gives that text its name; it claims nothing of what the text holds.
#[verifier::external_body]
fn render_text(text: &str) -> (rendered: String)
    ensures
        rendered@ == quoted_text(text@),
{
    format!("{:?}", text)
}

fn digit_text(digit: u8) -> (text: &'static str)
    requires
        digit < 10,
    ensures
        text@ == seq![digit_char(digit as int)],
{
    proof {
        reveal_strlit("0");
        reveal_strlit("1");
        reveal_strlit("2");
        reveal_strlit("3");
        reveal_strlit("4");
        reveal_strlit("5");
        reveal_strlit("6");
        reveal_strlit("7");
        reveal_strlit("8");
        reveal_strlit("9");
    }
    let text = if digit == 0 {
        "0"
    } else if digit == 1 {
        "1"
    } else if digit == 2 {
        "2"
    } else if digit == 3 {
        "3"
    } else if digit == 4 {
        "4"
    } else if digit == 5 {
        "5"
    } else if digit == 6 {
        "6"
    } else if digit == 7 {
        "7"
    } else if digit == 8 {
        "8"
    } else {
        "9"
    };
    assert(text@ =~= seq![digit_char(digit as int)]);
    text
}

fn render_natural(n: u128) -> (text: String)
    ensures
        text@ == decimal(n as nat),
    decreases n,
{
    if n < 10 {
        digit_text(n as u8).to_owned()
    } else {
        let mut text = render_natural(n / 10);
        text.append(digit_text((n % 10) as u8));
        assert(text@ =~= decimal(n as nat));
        text
    }
}

fn render_integer(n: i128) -> (text: String)
    ensures
        text@ == integer_text(n as int),
{
    if n < 0 {
        let magnitude: u128 = (-(n + 1)) as u128 + 1;
        let digits = render_natural(magnitude);
        proof {
            reveal_strlit("-");
            assert("-"@ =~= seq!['-']);
        }
        "-".to_owned().concat(digits.as_str())
    } else {
        render_natural(n as u128)
    }
}

fn render_bool(b: bool) -> (text: String)
    ensures
        text@ == bool_text(b),
{
    proof {
        reveal_strlit("true");
        reveal_strlit("false");
    }
    let text = if b {
        "true"
    } else {
        "false"
    };
    assert(text@ =~= bool_text(b));
    text.to_owned()
}

impl Expected for bool {
    open spec fn value(&self) -> ValueModel {
        ValueModel::Bool(*self)
    }

    open spec fn rendering(&self) -> Seq<char> {
        bool_text(*self)
    }

    fn to_value(&self) -> (value: Value) {
        Value::Bool(*self)
    }

    fn render(&self) -> (text: String) {
        render_bool(*self)
    }
}

impl Expected for String {
    open spec fn value(&self) -> ValueModel {
        ValueModel::String(self@)
    }

    open spec fn rendering(&self) -> Seq<char> {
        quoted_text(self@)
    }

    fn to_value(&self) -> (value: Value) {
        Value::String(self.clone())
    }

    fn render(&self) -> (text: String) {
        render_text(self.as_str())
    }
}

impl<'a> Expected for &'a str {
    open spec fn value(&self) -> ValueModel {
        ValueModel::String(self@)
    }

    open spec fn rendering(&self) -> Seq<char> {
        quoted_text(self@)
    }

    fn to_value(&self) -> (value: Value) {
        Value::String((*self).to_owned())
    }

    fn render(&self) -> (text: String) {
        render_text(*self)
    }
}

impl Expected for u8 {
    open spec fn value(&self) -> ValueModel {
        ValueModel::Number(NumberModel::Integer(*self as int))
    }

    open spec fn rendering(&self) -> Seq<char> {
        integer_text(*self as int)
    }

    fn to_value(&self) -> (value: Value) {
        Value::Number(Number::Integer(*self as i128))
    }

    fn render(&self) -> (text: String) {
        render_integer(*self as i128)
    }
}

impl Expected for u16 {
    open spec fn value(&self) -> ValueModel {
        ValueModel::Number(NumberModel::Integer(*self as int))
    }

    open spec fn rendering(&self) -> Seq<char> {
        integer_text(*self as int)
    }

    fn to_value(&self) -> (value: Value) {
        Value::Number(Number::Integer(*self as i128))
    }

    fn render(&self) -> (text: String) {
        render_integer(*self as i128)
    }
}

impl Expected for u32 {
    open spec fn value(&self) -> ValueModel {
        ValueModel::Number(NumberModel::Integer(*self as int))
    }

    open spec fn rendering(&self) -> Seq<char> {
        integer_text(*self as int)
    }

    fn to_value(&self) -> (value: Value) {
        Value::Number(Number::Integer(*self as i128))
    }

    fn render(&self) -> (text: String) {
        render_integer(*self as i128)
    }
}

impl Expected for u64 {
    open spec fn value(&self) -> ValueModel {
        ValueModel::Number(NumberModel::Integer(*self as int))
    }

    open spec fn rendering(&self) -> Seq<char> {
        integer_text(*self as int)
    }

    fn to_value(&self) -> (value: Value) {
        Value::Number(Number::Integer(*self as i128))
    }

    fn render(&self) -> (text: String) {
        render_integer(*self as i128)
    }
}

impl Expected for usize {
    open spec fn value(&self) -> ValueModel {
        ValueModel::Number(NumberModel::Integer(*self as int))
    }

    open spec fn rendering(&self) -> Seq<char> {
        integer_text(*self as int)
    }

    fn to_value(&self) -> (value: Value) {
        Value::Number(Number::Integer(*self as i128))
    }

    fn render(&self) -> (text: String) {
        render_integer(*self as i128)
    }
}

impl Expected for i8 {
    open spec fn value(&self) -> ValueModel {
        ValueModel::Number(NumberModel::Integer(*self as int))
    }

    open spec fn rendering(&self) -> Seq<char> {
        integer_text(*self as int)
    }

    fn to_value(&self) -> (value: Value) {
        Value::Number(Number::Integer(*self as i128))
    }

    fn render(&self) -> (text: String) {
        render_integer(*self as i128)
    }
}

impl Expected for i16 {
    open spec fn value(&self) -> ValueModel {
        ValueModel::Number(NumberModel::Integer(*self as int))
    }

    open spec fn rendering(&self) -> Seq<char> {
        integer_text(*self as int)
    }

    fn to_value(&self) -> (value: Value) {
        Value::Number(Number::Integer(*self as i128))
    }

    fn render(&self) -> (text: String) {
        render_integer(*self as i128)
    }
}

impl Expected for i32 {
    open spec fn value(&self) -> ValueModel {
        ValueModel::Number(NumberModel::Integer(*self as int))
    }

    open spec fn rendering(&self) -> Seq<char> {
        integer_text(*self as int)
    }

    fn to_value(&self) -> (value: Value) {
        Value::Number(Number::Integer(*self as i128))
    }

    fn render(&self) -> (text: String) {
        render_integer(*self as i128)
    }
}

impl Expected for i64 {
    open spec fn value(&self) -> ValueModel {
        ValueModel::Number(NumberModel::Integer(*self as int))
    }

    open spec fn rendering(&self) -> Seq<char> {
        integer_text(*self as int)
    }

    fn to_value(&self) -> (value: Value) {
        Value::Number(Number::Integer(*self as i128))
    }

    fn render(&self) -> (text: String) {
        render_integer(*self as i128)
    }
}

impl Expected for isize {
    open spec fn value(&self) -> ValueModel {
        ValueModel::Number(NumberModel::Integer(*self as int))
    }

    open spec fn rendering(&self) -> Seq<char> {
        integer_text(*self as int)
    }

    fn to_value(&self) -> (value: Value) {
        Value::Number(Number::Integer(*self as i128))
    }

    fn render(&self) -> (text: String) {
        render_integer(*self as i128)
    }
}

} // verus!
