use nanites::cache::{hash_bytes, CacheKey, NoCache};
use nanites::dyn_task::{ErasedIoTask, IoTask, TaskTypes};
use nanites::turn::from_fn;

#[derive(Debug, Clone, PartialEq)]
struct Fetch {
    url: String,
}

impl IoTask for Fetch {
    type Input = ();
    type Output = String;
}

#[test]
fn io_task_wrapper_holds_the_task() {
    let w = ErasedIoTask::new(Fetch { url: "u".into() });
    assert_eq!(w.task_ref(), &Fetch { url: "u".into() });
    let w2 = w.share();
    assert_eq!(w2.task_ref().url, "u");
}

#[test]
fn task_types_compare() {
    let a = TaskTypes { input: std::any::TypeId::of::<u8>(), output: std::any::TypeId::of::<u16>() };
    let b = a;
    assert_eq!(a, b);
}

#[test]
fn no_cache_always_misses() {
    let cache = NoCache;
    let key = CacheKey::new("T", serde_json::Value::Object(serde_json::Map::new()), 0);
    let miss: Option<u64> = cache.lookup(&key);
    assert!(miss.is_none());
    cache.store(key.clone(), 42u64);
    let miss: Option<u64> = cache.lookup(&key);
    assert!(miss.is_none());
}

#[test]
fn cache_key_holds_its_parts() {
    let key = CacheKey::new("Summarize", serde_json::Value::from("p"), 7);
    assert_eq!(key.task_type, "Summarize");
    assert_eq!(key.params, serde_json::Value::from("p"));
    assert_eq!(key.input_hash, 7);
    assert_eq!(key.clone(), key);
}

#[test]
fn from_fn_is_identity() {
    let f = from_fn(|x: i32| x + 1);
    assert_eq!(f(1), 2);
}

#[test]
fn input_hash_is_stable_and_tells_inputs_apart() {
    let a = hash_bytes(&br#"{"x":1}"#.to_vec());
    let b = hash_bytes(&br#"{"x":1}"#.to_vec());
    assert_eq!(a, b);
    let c = hash_bytes(&br#"{"x":2}"#.to_vec());
    assert_ne!(a, c);
}
