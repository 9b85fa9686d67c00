use value_matcher::validators;
use value_matcher::{Error, Expected, Number, Object, TypeId, Validator, Value};

fn text(s: &str) -> Value {
    Value::String(String::from(s))
}

fn integer(n: i128) -> Value {
    Value::Number(Number::Integer(n))
}

fn samples() -> Vec<Value> {
    let mut members = Object::new();
    members.insert(String::from("k"), integer(1));
    vec![
        Value::Null,
        Value::Bool(true),
        Value::Bool(false),
        integer(0),
        integer(4),
        integer(-4),
        integer(255),
        Value::Number(Number::Float(4.0f64.to_bits())),
        text(""),
        text("4"),
        text("test"),
        text("true"),
        Value::Array(Vec::new()),
        Value::Array(vec![integer(4)]),
        Value::Object(Object::new()),
        Value::Object(members),
    ]
}

#[test]
fn any() {
    let validator = validators::any();

    assert_eq!(Ok(()), validator.validate(&Value::Null));
}

#[test]
fn eq_string() {
    let validator = validators::eq("test");

    assert_eq!(
        Ok(()),
        validator.validate(&Value::String(String::from("test")))
    )
}

#[test]
fn eq_string_fail() {
    let validator = validators::eq(String::from("test"));

    assert!(matches!(
        validator.validate(&Value::String(String::from("not expected"))),
        Err(Error::InvalidValue(_, _))
    ));
}

#[test]
fn primitive_type_validation() {
    let validator: Box<dyn Validator> = 4.into();
    assert_eq!(
        Ok(()),
        validator.validate(&Value::Number(Number::Integer(4)))
    )
}

#[test]
fn any_accepts_every_value() {
    let validator = validators::any();
    for value in samples() {
        assert_eq!(Ok(()), validator.validate(&value));
    }
}

#[test]
fn any_accepts_empty_array_and_empty_object() {
    let validator = validators::any();
    assert_eq!(Ok(()), validator.validate(&Value::Array(Vec::new())));
    assert_eq!(Ok(()), validator.validate(&Value::Object(Object::new())));
}

#[test]
fn eq_accepts_its_own_value() {
    assert_eq!(Ok(()), validators::eq(true).validate(&true.to_value()));
    assert_eq!(Ok(()), validators::eq(false).validate(&false.to_value()));
    assert_eq!(Ok(()), validators::eq(0u8).validate(&0u8.to_value()));
    assert_eq!(Ok(()), validators::eq(-3i64).validate(&(-3i64).to_value()));
    assert_eq!(Ok(()), validators::eq(u64::MAX).validate(&u64::MAX.to_value()));
    assert_eq!(Ok(()), validators::eq("").validate(&"".to_value()));
    assert_eq!(
        Ok(()),
        validators::eq(String::from("a\"b")).validate(&String::from("a\"b").to_value())
    );
}

#[test]
fn eq_int_against_string_is_a_type_error() {
    let validator = validators::eq(4);
    let value = text("4");
    assert_eq!(
        Err(Error::InvalidType(&value, TypeId::Number)),
        validator.validate(&value)
    );
}

#[test]
fn eq_reports_the_expected_kind() {
    let null = Value::Null;
    assert_eq!(
        Err(Error::InvalidType(&null, TypeId::String)),
        validators::eq("x").validate(&null)
    );
    assert_eq!(
        Err(Error::InvalidType(&null, TypeId::Bool)),
        validators::eq(true).validate(&null)
    );
    let array = Value::Array(vec![integer(1)]);
    assert_eq!(
        Err(Error::InvalidType(&array, TypeId::Number)),
        validators::eq(1u16).validate(&array)
    );
    let flag = Value::Bool(true);
    assert_eq!(
        Err(Error::InvalidType(&flag, TypeId::String)),
        validators::eq("true").validate(&flag)
    );
}

#[test]
fn eq_reports_the_rendering_of_a_string() {
    let validator = validators::eq(String::from("test"));
    let value = text("not expected");
    assert_eq!(
        Err(Error::InvalidValue(&value, String::from("\"test\""))),
        validator.validate(&value)
    );
}

#[test]
fn string_rendering_is_the_debug_form() {
    for expected in ["", "test", "a\"b", "line\nbreak", "tab\there", "back\\slash", "\u{e9}"] {
        let value = text("another");
        assert_eq!(
            Err(Error::InvalidValue(&value, format!("{:?}", expected))),
            validators::eq(expected).validate(&value)
        );
        assert_eq!(format!("{:?}", expected), expected.render());
        assert_eq!(format!("{:?}", expected), String::from(expected).render());
    }
}

#[test]
fn eq_reports_the_rendering_of_an_integer() {
    let value = integer(5);
    assert_eq!(
        Err(Error::InvalidValue(&value, String::from("4"))),
        validators::eq(4).validate(&value)
    );
    assert_eq!(
        Err(Error::InvalidValue(&value, String::from("-5"))),
        validators::eq(-5i8).validate(&value)
    );
    assert_eq!(
        Err(Error::InvalidValue(&value, String::from("0"))),
        validators::eq(0usize).validate(&value)
    );
}

#[test]
fn integer_renderings_are_decimal() {
    assert_eq!("0", 0u8.render());
    assert_eq!("9", 9u8.render());
    assert_eq!("10", 10u8.render());
    assert_eq!("255", u8::MAX.render());
    assert_eq!("-128", i8::MIN.render());
    assert_eq!("65535", u16::MAX.render());
    assert_eq!("-32768", i16::MIN.render());
    assert_eq!("4294967295", u32::MAX.render());
    assert_eq!("-2147483648", i32::MIN.render());
    assert_eq!("18446744073709551615", u64::MAX.render());
    assert_eq!("-9223372036854775808", i64::MIN.render());
    assert_eq!("9223372036854775807", i64::MAX.render());
    assert_eq!(format!("{:?}", usize::MAX), usize::MAX.render());
    assert_eq!(format!("{:?}", isize::MIN), isize::MIN.render());
    for n in [-1001i32, -100, -99, -10, -9, -1, 0, 1, 9, 10, 99, 100, 101, 1000, 123456789] {
        assert_eq!(format!("{:?}", n), n.render());
    }
}

#[test]
fn eq_reports_the_rendering_of_a_boolean() {
    let yes = Value::Bool(true);
    let no = Value::Bool(false);
    assert_eq!(
        Err(Error::InvalidValue(&no, String::from("true"))),
        validators::eq(true).validate(&no)
    );
    assert_eq!(
        Err(Error::InvalidValue(&yes, String::from("false"))),
        validators::eq(false).validate(&yes)
    );
}

#[test]
fn integers_convert_to_integer_numbers() {
    assert_eq!(integer(200), 200u8.to_value());
    assert_eq!(integer(-1), (-1i8).to_value());
    assert_eq!(integer(i64::MIN as i128), i64::MIN.to_value());
    assert_eq!(integer(u64::MAX as i128), u64::MAX.to_value());
    assert_eq!(integer(7), 7usize.to_value());
    assert_eq!(integer(-7), (-7isize).to_value());
    assert_eq!(integer(4), 4u16.to_value());
    assert_eq!(integer(4), 4i16.to_value());
    assert_eq!(integer(4), 4u32.to_value());
    assert_eq!(integer(4), 4i32.to_value());
}

#[test]
fn integer_kinds_match_by_value() {
    let value = 4u8.to_value();
    assert_eq!(Ok(()), validators::eq(4i64).validate(&value));
    assert_eq!(Ok(()), validators::eq(4usize).validate(&value));
}

#[test]
fn eq_integer_against_float_is_a_value_error() {
    let value = Value::Number(Number::Float(4.0f64.to_bits()));
    assert_eq!(
        Err(Error::InvalidValue(&value, String::from("4"))),
        validators::eq(4).validate(&value)
    );
}

#[test]
fn error_borrows_the_inspected_value() {
    let value = text("4");
    match validators::eq(4).validate(&value) {
        Err(Error::InvalidType(subject, _)) => assert!(std::ptr::eq(subject, &value)),
        _ => panic!("a string is no number"),
    }
    let other = integer(5);
    match validators::eq(4).validate(&other) {
        Err(Error::InvalidValue(subject, _)) => assert!(std::ptr::eq(subject, &other)),
        _ => panic!("5 is not 4"),
    }
}

#[test]
fn validate_gives_the_same_result_each_time() {
    let validator = validators::eq("test");
    for value in samples() {
        assert_eq!(validator.validate(&value), validator.validate(&value));
    }
}

fn assert_lifted_as_eq<T>(literal: T)
where
    T: Expected + Clone + 'static,
    Box<dyn Validator>: From<T>,
{
    let lifted: Box<dyn Validator> = literal.clone().into();
    let direct = validators::eq(literal);
    for value in samples() {
        assert_eq!(direct.validate(&value), lifted.validate(&value));
    }
}

#[test]
fn lifted_literals_match_as_eq_does() {
    assert_lifted_as_eq(String::from("test"));
    assert_lifted_as_eq("test");
    assert_lifted_as_eq("");
    assert_lifted_as_eq(true);
    assert_lifted_as_eq(false);
    assert_lifted_as_eq(4u8);
    assert_lifted_as_eq(4u16);
    assert_lifted_as_eq(4u32);
    assert_lifted_as_eq(4u64);
    assert_lifted_as_eq(4usize);
    assert_lifted_as_eq(-4i8);
    assert_lifted_as_eq(-4i16);
    assert_lifted_as_eq(-4i32);
    assert_lifted_as_eq(-4i64);
    assert_lifted_as_eq(-4isize);
    assert_lifted_as_eq(255u8);
}

#[test]
fn lifted_string_slice_matches_owned_string() {
    let validator: Box<dyn Validator> = "test".into();
    assert_eq!(Ok(()), validator.validate(&text("test")));
    let value = text("Test");
    assert_eq!(
        Err(Error::InvalidValue(&value, String::from("\"test\""))),
        validator.validate(&value)
    );
}

#[test]
fn boxed_validators_share_a_container() {
    let validators: Vec<Box<dyn Validator>> =
        vec![true.into(), 4u8.into(), "x".into(), Box::new(validators::any())];
    let values = [Value::Bool(true), integer(4), text("x"), Value::Null];
    for (validator, value) in validators.iter().zip(values.iter()) {
        assert_eq!(Ok(()), validator.validate(value));
    }
}

#[derive(Clone)]
struct Pair(i64, i64);

impl Expected for Pair {
    fn to_value(&self) -> Value {
        Value::Array(vec![integer(self.0 as i128), integer(self.1 as i128)])
    }

    fn render(&self) -> String {
        format!("Pair({}, {})", self.0, self.1)
    }
}

#[test]
fn eq_matches_arrays_through_a_type_of_the_caller() {
    let validator = validators::eq(Pair(1, 2));
    assert_eq!(Ok(()), validator.validate(&Pair(1, 2).to_value()));

    let swapped = Value::Array(vec![integer(2), integer(1)]);
    assert_eq!(
        Err(Error::InvalidValue(&swapped, String::from("Pair(1, 2)"))),
        validator.validate(&swapped)
    );

    let number = integer(1);
    assert_eq!(
        Err(Error::InvalidType(&number, TypeId::Array)),
        validator.validate(&number)
    );
}

struct Point {
    x: u8,
    y: u8,
}

impl Expected for Point {
    fn to_value(&self) -> Value {
        let mut members = Object::new();
        members.insert(String::from("x"), self.x.to_value());
        members.insert(String::from("y"), self.y.to_value());
        Value::Object(members)
    }

    fn render(&self) -> String {
        format!("Point {{ x: {}, y: {} }}", self.x, self.y)
    }
}

#[test]
fn eq_matches_objects_key_by_key() {
    let validator = validators::eq(Point { x: 1, y: 2 });

    let mut members = Object::new();
    members.insert(String::from("y"), integer(2));
    members.insert(String::from("x"), integer(1));
    assert_eq!(Ok(()), validator.validate(&Value::Object(members)));

    let mut other = Object::new();
    other.insert(String::from("x"), integer(1));
    other.insert(String::from("y"), integer(3));
    let other = Value::Object(other);
    assert_eq!(
        Err(Error::InvalidValue(&other, String::from("Point { x: 1, y: 2 }"))),
        validator.validate(&other)
    );

    let empty = Value::Object(Object::new());
    assert!(matches!(
        validator.validate(&empty),
        Err(Error::InvalidValue(_, _))
    ));
}

/// Matches an array whose items the given validators accept, one for one,
/// and reports the first item that is not accepted.
struct Items(Vec<Box<dyn Validator>>);

impl Validator for Items {
    fn validate<'a>(&self, value: &'a Value) -> Result<(), Error<'a>> {
        match value {
            Value::Array(items) if items.len() == self.0.len() => {
                for (validator, item) in self.0.iter().zip(items.iter()) {
                    validator.validate(item)?;
                }
                Ok(())
            }
            Value::Array(_) => Err(Error::InvalidValue(value, format!("{} items", self.0.len()))),
            _ => Err(Error::InvalidType(value, TypeId::Array)),
        }
    }
}

#[test]
fn a_composite_validator_delegates_to_boxed_validators() {
    let validator = Items(vec![1u8.into(), "two".into(), Box::new(validators::any())]);

    let matching = Value::Array(vec![integer(1), text("two"), Value::Null]);
    assert_eq!(Ok(()), validator.validate(&matching));

    let items = vec![integer(1), integer(2), Value::Null];
    let other = Value::Array(items.clone());
    match validator.validate(&other) {
        Err(Error::InvalidType(subject, TypeId::String)) => assert_eq!(&items[1], subject),
        _ => panic!("the second item is no string"),
    }

    let short = Value::Array(vec![integer(1)]);
    assert_eq!(
        Err(Error::InvalidValue(&short, String::from("3 items"))),
        validator.validate(&short)
    );
    assert_eq!(
        Err(Error::InvalidType(&Value::Null, TypeId::Array)),
        validator.validate(&Value::Null)
    );
}
