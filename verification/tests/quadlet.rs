use podlet::quadlet_ser::{Error, JoinOption, seq_quote_whitespace, to_string, to_string_join_all};
use podlet::sections::{Condition, Dependency, DependencyError, Globals, Install, Unit};
use podlet::value::{Field, Value};

fn field(key: &str, value: Value) -> Field {
    Field { key: String::from(key), value }
}

fn strukt(name: &str, fields: Vec<Field>) -> Value {
    Value::Struct { name: String::from(name), fields }
}

fn s(v: &str) -> Value {
    Value::Str(String::from(v))
}

fn strings(items: &[&str]) -> Vec<String> {
    items.iter().map(|i| String::from(*i)).collect()
}

#[test]
fn quadlet_basic_struct() -> Result<(), Error> {
    let sut = strukt("Test", vec![field("One", Value::Unsigned(1)), field("Two", s("two"))]);
    assert_eq!(
        to_string_join_all(&sut)?,
        "[Test]\n\
        One=1\n\
        Two=two\n"
    );
    Ok(())
}

#[test]
fn top_level_sequence() -> Result<(), Error> {
    let test = || strukt("Test", vec![field("One", Value::Unsigned(1))]);
    let vec = Value::SeqOf(vec![test(), test()]);
    assert_eq!(
        to_string_join_all(&vec)?,
        "[Test]\n\
        One=1\n\
        \n\
        [Test]\n\
        One=1\n"
    );
    Ok(())
}

#[test]
fn top_level_tuple() -> Result<(), Error> {
    let tuple = Value::Tuple(vec![
        strukt("One", vec![field("One", Value::Unsigned(1))]),
        strukt("Two", vec![field("Two", Value::Unsigned(2))]),
    ]);
    assert_eq!(
        to_string_join_all(&tuple)?,
        "[One]\n\
        One=1\n\
        Two=2\n"
    );
    Ok(())
}

#[test]
fn sequence() -> Result<(), Error> {
    let sut = strukt(
        "Test",
        vec![field(
            "Vec",
            Value::SeqOf(vec![Value::Unsigned(1), Value::Unsigned(2), Value::Unsigned(3)]),
        )],
    );
    assert_eq!(
        to_string_join_all(&sut)?,
        "[Test]\n\
        Vec=1\n\
        Vec=2\n\
        Vec=3\n"
    );
    Ok(())
}

#[test]
fn sequence_join() -> Result<(), Error> {
    let sut = strukt(
        "Test",
        vec![field("After", seq_quote_whitespace(&strings(&["one", "two three", "four"])))],
    );
    assert_eq!(
        to_string_join_all(&sut)?,
        "[Test]\n\
        After=one \"two three\" four\n"
    );
    Ok(())
}

#[test]
fn empty_is_empty() -> Result<(), Error> {
    let sut = strukt(
        "Test",
        vec![
            field("Option", Value::OptionNone),
            field("Vec", Value::SeqOf(Vec::new())),
            field("VecJoined", seq_quote_whitespace(&Vec::new())),
        ],
    );
    assert_eq!(to_string_join_all(&sut)?, "[Test]\n");
    Ok(())
}

#[test]
fn nested_map_err() {
    let sut = strukt("Test", vec![field("Map", Value::MapOf(vec![(s("one"), s("one"))]))]);
    assert_eq!(to_string_join_all(&sut), Err(Error::InvalidType));
}

#[test]
fn default_empty() -> Result<(), Error> {
    let globals = Globals::default();
    assert_eq!(to_string_join_all(&globals.to_value())?, "[Globals]\n");
    Ok(())
}

#[test]
fn sequence_split_when_not_joined() -> Result<(), Error> {
    let sut = strukt("Unit", vec![field("After", seq_quote_whitespace(&strings(&["a", "b"])))]);
    assert_eq!(to_string(&sut, &Vec::new())?, "[Unit]\nAfter=a\nAfter=b\n");
    assert_eq!(to_string(&sut, &vec![JoinOption::After])?, "[Unit]\nAfter=a b\n");
    Ok(())
}

#[test]
fn sections_to_values() -> Result<(), Error> {
    let install = Install::from_cli(Vec::new(), Vec::new());
    assert_eq!(install.wanted_by, ["default.target"]);
    assert!(!install.is_empty());
    assert_eq!(to_string_join_all(&install.to_value())?, "[Install]\nWantedBy=default.target\n");

    let mut unit = Unit::new();
    assert!(unit.is_empty());
    unit.description = Some(String::from("web"));
    unit.after = strings(&["a b", "c"]);
    assert!(!unit.is_empty());
    assert_eq!(
        to_string_join_all(&unit.to_value())?,
        "[Unit]\nDescription=web\nAfter=\"a b\" c\n"
    );

    let globals = Globals {
        containers_conf_module: strings(&["/m"]),
        global_args: Some(String::from("--log-level debug")),
    };
    assert_eq!(
        to_string_join_all(&globals.to_value())?,
        "[Globals]\nContainersConfModule=/m\nGlobalArgs=--log-level debug\n"
    );
    Ok(())
}


#[test]
fn unit_dependencies() {
    let started = |restart, required| Dependency { condition: Condition::ServiceStarted, restart, required };
    let mut unit = Unit::new();
    assert_eq!(unit.add_dependency("db", started(false, true)), Ok(()));
    assert_eq!(unit.add_dependency("cache", started(false, false)), Ok(()));
    assert_eq!(unit.add_dependency("proxy", started(true, true)), Ok(()));
    assert_eq!(unit.requires, vec!["db.service".to_owned()]);
    assert_eq!(unit.wants, vec!["cache.service".to_owned()]);
    assert_eq!(unit.binds_to, vec!["proxy.service".to_owned()]);
    assert_eq!(unit.after, vec!["db.service".to_owned(), "cache.service".to_owned(), "proxy.service".to_owned()]);
    let before = unit.clone();
    assert_eq!(unit.add_dependency("x", started(true, false)), Err(DependencyError::RestartNotRequired));
    assert_eq!(
        unit.add_dependency("x", Dependency { condition: Condition::ServiceHealthy, restart: false, required: true }),
        Err(DependencyError::ServiceHealthy)
    );
    assert_eq!(
        unit.add_dependency(
            "x",
            Dependency { condition: Condition::ServiceCompletedSuccessfully, restart: false, required: true }
        ),
        Err(DependencyError::ServiceCompletedSuccessfully)
    );
    assert_eq!(unit, before);
}

#[test]
fn struct_of_sequences_text() -> Result<(), Error> {
    let seq = |items: &[&str]| Value::SeqOf(items.iter().map(|i| s(i)).collect());
    let value = strukt(
        "Container",
        vec![
            field("Label", seq(&["a=1", "b=2"])),
            field("Empty", seq(&[])),
            field("Volume", seq(&["/a:/a", "/b:/b"])),
        ],
    );
    assert_eq!(
        to_string(&value, &vec![JoinOption::Label])?,
        "[Container]\nLabel=a=1 b=2\nVolume=/a:/a\nVolume=/b:/b\n"
    );
    assert_eq!(
        to_string(&value, &Vec::new())?,
        "[Container]\nLabel=a=1\nLabel=b=2\nVolume=/a:/a\nVolume=/b:/b\n"
    );
    Ok(())
}
