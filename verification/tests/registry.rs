use nanites::registry::{RegistryError, SerializableTask, TaskRegistry, TaskSnapshot};
use serde_json::Value;

#[derive(Debug, Clone, PartialEq)]
struct Echo;

impl SerializableTask for Echo {
    fn serializable_type_name(&self) -> &'static str {
        "test::Echo"
    }

    fn params(&self) -> Value {
        Value::Object(serde_json::Map::new())
    }
}

type Factory = Box<dyn Fn(Value) -> Result<Echo, RegistryError>>;

fn echo_factory() -> Factory {
    Box::new(|_params| Ok(Echo))
}

fn make_registry() -> TaskRegistry<Factory> {
    let mut reg = TaskRegistry::new();
    reg.register_factory("test::Echo", echo_factory());
    reg
}

fn empty_object() -> Value {
    Value::Object(serde_json::Map::new())
}

#[test]
fn register_and_deserialize() {
    let reg = make_registry();
    let task = reg.deserialize("test::Echo", empty_object()).unwrap();
    assert_eq!(task, Echo);
}

#[test]
fn unknown_type_returns_error() {
    let reg = make_registry();
    let result = reg.deserialize("test::Nope", empty_object());
    assert!(matches!(result, Err(RegistryError::UnknownTaskType(_))));
}

#[test]
fn contains_reflects_registration() {
    let mut reg: TaskRegistry<Factory> = TaskRegistry::new();
    assert!(!reg.contains("test::Echo"));
    reg.register_factory("test::Echo", echo_factory());
    assert!(reg.contains("test::Echo"));
}

#[test]
fn snapshot_roundtrip() {
    let task = Echo;
    let snapshot = TaskSnapshot::from_task(&task);
    assert_eq!(snapshot.task_type, "test::Echo");
    assert!(snapshot.params.is_object());

    let reg = make_registry();
    let reconstructed = reg.deserialize_snapshot(&snapshot).unwrap();
    assert_eq!(reconstructed, Echo);
}

#[test]
fn snapshot_to_json_and_back() {
    let task = Echo;
    let snapshot = TaskSnapshot::from_task(&task);
    let json = snapshot.to_json().unwrap();
    // Just verify it's valid JSON containing the type name
    assert!(json.contains("test::Echo"));
}

#[test]
fn registered_types_iter() {
    let mut reg: TaskRegistry<Factory> = TaskRegistry::new();
    reg.register_factory("test::A", echo_factory());
    reg.register_factory("test::B", echo_factory());

    let mut types: Vec<_> = reg.registered_types();
    types.sort();
    assert_eq!(types, ["test::A", "test::B"]);
}

#[test]
fn re_registering_replaces_factory_and_keeps_order() {
    let mut reg: TaskRegistry<Factory> = TaskRegistry::new();
    reg.register_factory("test::A", echo_factory());
    reg.register_factory("test::B", echo_factory());
    reg.register_factory(
        "test::A",
        Box::new(|_| Err(RegistryError::DeserializationFailed("bad shape".to_string()))),
    );
    assert_eq!(reg.len(), 2);
    assert!(!reg.is_empty());
    assert_eq!(reg.registered_types(), vec!["test::A".to_string(), "test::B".to_string()]);
    match reg.deserialize("test::A", Value::Null) {
        Err(e) => assert_eq!(e.message(), "task deserialization failed: bad shape"),
        Ok(_) => panic!("the replaced factory should have been used"),
    }
}

#[test]
fn registry_error_messages() {
    assert_eq!(
        RegistryError::UnknownTaskType("a\"b".to_string()).message(),
        "no factory registered for task type \"a\\\"b\""
    );
    let reg = make_registry();
    match reg.deserialize("test::Nope", Value::Null) {
        Err(RegistryError::UnknownTaskType(name)) => assert_eq!(name, "test::Nope"),
        _ => panic!("expected UnknownTaskType"),
    }
}

#[test]
fn snapshot_json_reads_back() {
    let mut m = serde_json::Map::new();
    m.insert("k".to_string(), Value::from(3));
    let snap = TaskSnapshot::new("x::Y", Value::Object(m.clone()));
    let text = snap.to_json().unwrap();
    let back = TaskSnapshot::from_json(&text).unwrap();
    assert_eq!(back.task_type, "x::Y");
    assert_eq!(back.params, Value::Object(m));
}

#[test]
fn snapshot_json_errors() {
    assert!(matches!(
        TaskSnapshot::from_json("not json"),
        Err(nanites::registry::SnapshotError::Json(_))
    ));
    assert!(matches!(
        TaskSnapshot::from_json("{\"params\": 1}"),
        Err(nanites::registry::SnapshotError::MissingTaskType)
    ));
    assert!(matches!(
        TaskSnapshot::from_json("{\"type_name\": 7}"),
        Err(nanites::registry::SnapshotError::MissingTaskType)
    ));
    let s = TaskSnapshot::from_json("{\"type_name\": \"t\"}").unwrap();
    assert_eq!(s.task_type, "t");
    assert!(s.params.is_null());
}

#[test]
fn snapshot_json_round_trip_keeps_type_name() {
    let snapshot = TaskSnapshot::new("test::Echo", Value::from("p"));
    let json = snapshot.to_json().unwrap();
    let back = TaskSnapshot::from_json(&json).unwrap();
    assert_eq!(back.task_type, "test::Echo");
    assert_eq!(back.params, Value::from("p"));
}

#[test]
fn snapshot_error_messages() {
    let missing = TaskSnapshot::from_json(r#"{"params": 1}"#).unwrap_err();
    assert_eq!(missing.message(), "missing or non-string 'type_name' field");
    let bad = TaskSnapshot::from_json("{").unwrap_err();
    assert!(!bad.message().is_empty());
}
