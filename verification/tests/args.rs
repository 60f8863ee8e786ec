use podlet::args_ser::{Error, to_string};
use podlet::value::{Field, Value};

fn field(key: &str, value: Value) -> Field {
    Field { key: String::from(key), value }
}

fn strukt(name: &str, fields: Vec<Field>) -> Value {
    Value::Struct { name: String::from(name), fields }
}

fn s(v: &str) -> Value {
    Value::Str(String::from(v))
}

#[test]
fn args_basic_struct() {
    let sut = strukt(
        "Test",
        vec![field("option-one", s("one")), field("two", Value::Unsigned(2))],
    );
    assert_eq!(to_string(&sut).unwrap(), "--option-one one --two 2");
}

#[test]
fn struct_with_sequence() {
    let sut = strukt(
        "Test",
        vec![
            field(
                "tuple",
                Value::Tuple(vec![Value::Unsigned(1), Value::Unsigned(2), Value::Unsigned(3)]),
            ),
            field(
                "array",
                Value::Tuple(vec![Value::Char('a'), Value::Char('b'), Value::Char('c')]),
            ),
            field("vec", Value::SeqOf(vec![s("one"), s("two"), s("three")])),
        ],
    );
    assert_eq!(
        to_string(&sut).unwrap(),
        "--tuple 1 --tuple 2 --tuple 3 \
         --array a --array b --array c \
         --vec one --vec two --vec three"
    );
}

#[test]
fn escape_values() {
    let sut = strukt("Test", vec![field("test", s("Hello, world!"))]);
    assert_eq!(to_string(&sut).unwrap(), r#"--test "Hello, world!""#);
}

#[test]
fn bool() {
    let sut = strukt(
        "Test",
        vec![field("yes", Value::Bool(true)), field("no", Value::Bool(false))],
    );
    assert_eq!(to_string(&sut).unwrap(), "--yes --no=false");
}

#[test]
fn enum_value() {
    let variant = |v: &str| Value::UnitVariant {
        name: String::from("Enum"),
        variant: String::from(v),
    };
    let sut = strukt("Test", vec![field("one", variant("one")), field("two", variant("two"))]);
    assert_eq!(to_string(&sut).unwrap(), "--one one --two two");
}

#[test]
fn nested_err() {
    let nested = strukt("Nested", vec![field("nested", s("nested"))]);
    let sut = strukt("Test", vec![field("nested", nested)]);
    assert_eq!(to_string(&sut).unwrap_err(), Error::Nested);
}

#[test]
fn invalid_flag_err() {
    let sut = strukt("Test1", vec![field("", Value::Unit)]);
    assert_eq!(to_string(&sut).unwrap_err(), Error::InvalidFlag);

    let sut = strukt("Test2", vec![field("hello world", Value::Unit)]);
    assert_eq!(to_string(&sut).unwrap_err(), Error::InvalidFlag);
}

#[test]
fn args_skip_none_and_number_signs() {
    let sut = strukt(
        "Test",
        vec![
            field("none", Value::OptionNone),
            field("neg", Value::Signed(-5)),
            field("some", Value::OptionSome(Box::new(s("x")))),
        ],
    );
    assert_eq!(to_string(&sut).unwrap(), "--neg -5 --some x");
    assert_eq!(to_string(&Value::Unsigned(1)).unwrap_err(), Error::InvalidType);
}
