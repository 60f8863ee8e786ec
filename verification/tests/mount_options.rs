use podlet::mount_options::{Entry, Error, from_str, parse_bool, to_string};
use podlet::value::{Field, Value};

fn field(key: &str, value: Value) -> Field {
    Field { key: String::from(key), value }
}

const DEFAULT: &str = "bool=true,pos-int=42,neg-int=-42,float=4.2,char=a,\
    str=hello,string=world,some,unit,unit-enum=one";

fn test_value() -> Value {
    Value::Struct {
        name: String::from("Test"),
        fields: vec![
            field("bool", Value::Bool(true)),
            field("pos-int", Value::Unsigned(42)),
            field("neg-int", Value::Signed(-42)),
            field("float", Value::Str(format!("{}", 4.2f32))),
            field("char", Value::Char('a')),
            field("str", Value::Str(String::from("hello"))),
            field("string", Value::Str(String::from("world"))),
            field("some", Value::OptionSome(Box::new(Value::Unit))),
            field("unit", Value::Unit),
            field(
                "unit-enum",
                Value::UnitVariant { name: String::from("Enum"), variant: String::from("one") },
            ),
        ],
    }
}

fn entry(key: &str, value: Option<&str>) -> Entry {
    Entry { key: String::from(key), value: value.map(String::from) }
}

#[test]
fn serialize() {
    assert_eq!(to_string(&test_value()).unwrap(), DEFAULT);
}

#[test]
fn deserialize() {
    let entries = from_str(DEFAULT);
    assert_eq!(
        entries,
        vec![
            entry("bool", Some("true")),
            entry("pos-int", Some("42")),
            entry("neg-int", Some("-42")),
            entry("float", Some("4.2")),
            entry("char", Some("a")),
            entry("str", Some("hello")),
            entry("string", Some("world")),
            entry("some", None),
            entry("unit", None),
            entry("unit-enum", Some("one")),
        ]
    );
    assert_eq!(parse_bool(entries[0].value.as_deref()), Some(true));
    assert_eq!(entries[1].value.as_deref().unwrap().parse::<u8>(), Ok(42));
    assert_eq!(entries[2].value.as_deref().unwrap().parse::<i8>(), Ok(-42));
    assert_eq!(entries[3].value.as_deref().unwrap().parse::<f32>(), Ok(4.2));
}

#[test]
fn deserialize_bool() {
    let read = |s: &str| -> bool {
        let entries = from_str(s);
        match entries.iter().find(|e| e.key == "bool") {
            Some(e) => parse_bool(e.value.as_deref()).unwrap(),
            None => false,
        }
    };
    assert!(read("bool=true"));
    assert!(!read("bool=false"));
    assert!(read("bool"));
    assert!(!read(""));
}

#[test]
fn serialize_bad_types() {
    assert_eq!(to_string(&Value::Unit), Err(Error::BadType));
    let nested = Value::Struct {
        name: String::from("T"),
        fields: vec![field("seq", Value::SeqOf(vec![Value::Unit]))],
    };
    assert_eq!(to_string(&nested), Err(Error::BadType));
    let skipped = Value::Struct {
        name: String::from("T"),
        fields: vec![field("a", Value::OptionNone), field("b", Value::Unit)],
    };
    assert_eq!(to_string(&skipped), Ok(String::from("b")));
}

#[test]
fn entries_empty_value_and_trailing_comma() {
    assert_eq!(from_str("a=,b=c=d,"), vec![entry("a", None), entry("b", Some("c=d"))]);
    assert_eq!(parse_bool(Some("yes")), None);
}
