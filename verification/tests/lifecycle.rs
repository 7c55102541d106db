use nanites::error::RuntimeError;
use nanites::exec_graph::{ExecGraph, TerminalState};
use nanites::frontier::{Frontier, NodeStatus};
use nanites::handle::resolve_delivery;
use nanites::lifecycle::{
    begin_spawn, cache_key_for, finish_node, plan_run, record_identity, record_output, settle_executor, settle_run,
    start_node, stored_outcome, RunPlan,
};
use serde_json::Value;

#[test]
fn spawn_run_finish_leaves_only_the_record() {
    let mut f: Frontier<&'static str> = Frontier::new();
    let mut g = ExecGraph::new();
    let parent = begin_spawn(&mut f, &mut g, "parent", "P", None, None, None);
    let id = begin_spawn(&mut f, &mut g, "child", "C", Some(Value::from(1)), Some(Value::from(21)), Some(parent));
    assert_eq!(f.get(parent).unwrap().children, vec![id]);
    assert_eq!(g.get_children(parent), vec![id]);
    assert_eq!(f.get(id).unwrap().input, Some(Value::from(21)));
    assert!(start_node(&mut f, &mut g, id, false).is_none());
    assert_eq!(f.get(id).unwrap().status, NodeStatus::Running);
    let r = finish_node(&mut f, &mut g, id, Ok::<i64, RuntimeError>(42), "i64");
    assert_eq!(r.unwrap(), 42);
    assert!(f.get(id).is_none());
    assert_eq!(f.len(), 1);
    let rec = g.get(id).unwrap();
    assert_eq!(rec.terminal, Some(TerminalState::Completed { output_type: "i64".to_string() }));
    assert_eq!(rec.params_snapshot, Some(Value::from(1)));
    assert_eq!(rec.input, Some(Value::from(21)));
    assert_eq!(rec.task_type, "C");
}

#[test]
fn cancelled_runtime_settles_task_as_cancelled() {
    let mut f: Frontier<u8> = Frontier::new();
    let mut g = ExecGraph::new();
    let id = begin_spawn(&mut f, &mut g, 0, "T", None, None, None);
    let r = start_node(&mut f, &mut g, id, true);
    assert!(matches!(r, Some(RuntimeError::Cancelled)));
    assert!(f.is_empty());
    assert!(matches!(g.get(id).unwrap().terminal, Some(TerminalState::Cancelled)));
}

#[test]
fn failure_is_recorded_with_its_message() {
    let mut f: Frontier<u8> = Frontier::new();
    let mut g = ExecGraph::new();
    let id = begin_spawn(&mut f, &mut g, 0, "T", None, None, None);
    start_node(&mut f, &mut g, id, false);
    let outcome = settle_run::<u8>(Ok(Err("bad input".to_string())));
    let r = finish_node(&mut f, &mut g, id, outcome, "u8");
    match r {
        Err(RuntimeError::TaskPanicked(m)) => assert_eq!(m, "bad input"),
        other => panic!("unexpected {other:?}"),
    }
    match g.get(id).unwrap().terminal {
        Some(TerminalState::Failed { message }) => assert_eq!(message, "task panicked: bad input"),
        other => panic!("unexpected {other:?}"),
    }
    assert!(f.is_empty());
}

#[test]
fn settling_outcomes() {
    assert_eq!(settle_run::<u8>(Ok(Ok(3))).unwrap(), 3);
    assert!(matches!(settle_run::<u8>(Err(RuntimeError::Cancelled)), Err(RuntimeError::Cancelled)));
    assert_eq!(settle_executor::<u8>(Ok(4)).unwrap(), 4);
    assert!(matches!(settle_executor::<u8>(Err("x".to_string())), Err(RuntimeError::TaskPanicked(m)) if m == "x"));
}

#[test]
fn handle_delivery_outcomes() {
    assert_eq!(resolve_delivery::<u8>(Some(Ok(7))).unwrap(), 7);
    assert!(matches!(resolve_delivery::<u8>(Some(Err(RuntimeError::TaskPanicked("e".into())))), Err(RuntimeError::TaskPanicked(m)) if m == "e"));
    assert!(matches!(resolve_delivery::<u8>(Some(Err(RuntimeError::Cancelled))), Err(RuntimeError::Cancelled)));
    assert!(matches!(resolve_delivery::<u8>(Some(Err(RuntimeError::NoExecutor("Fetch")))), Err(RuntimeError::NoExecutor("Fetch"))));
    let (a, b) = (std::any::TypeId::of::<u8>(), std::any::TypeId::of::<String>());
    assert!(matches!(
        resolve_delivery::<u8>(Some(Err(RuntimeError::InputTypeMismatch { expected: a, got: b }))),
        Err(RuntimeError::InputTypeMismatch { expected, got }) if expected == a && got == b
    ));
    assert!(matches!(resolve_delivery::<u8>(None), Err(RuntimeError::Cancelled)));
}

#[test]
fn record_identity_prefers_the_task_description() {
    let (name, params) = record_identity(Some(("test::Double", Value::from(3))), "crate::Double");
    assert_eq!(name, "test::Double");
    assert_eq!(params, Some(Value::from(3)));
    let (name, params) = record_identity(None, "crate::Double");
    assert_eq!(name, "crate::Double");
    assert_eq!(params, None);
}

#[test]
fn cache_key_needs_cache_description_and_hash() {
    let info = Some(("test::Double", Value::from(3)));
    let key = cache_key_for(&info, true, Some(9)).unwrap();
    assert_eq!(key.task_type, "test::Double");
    assert_eq!(key.params, Value::from(3));
    assert_eq!(key.input_hash, 9);
    assert!(cache_key_for(&info, false, Some(9)).is_none());
    assert!(cache_key_for(&info, true, None).is_none());
    assert!(cache_key_for(&None, true, Some(9)).is_none());
}

#[test]
fn run_plan_order() {
    assert!(matches!(plan_run(Some(4u8), true), RunPlan::UseCached(4)));
    assert!(matches!(plan_run::<u8>(None, true), RunPlan::Executor));
    assert!(matches!(plan_run::<u8>(None, false), RunPlan::OwnRun));
}

#[test]
fn output_recording_and_cache_storage() {
    let mut f: Frontier<u8> = Frontier::new();
    let mut g = ExecGraph::new();
    let id = begin_spawn(&mut f, &mut g, 1, "T", None, None, None);
    record_output(&mut g, id, None);
    assert_eq!(g.get(id).unwrap().output, None);
    record_output(&mut g, id, Some(Value::from(8)));
    assert_eq!(g.get(id).unwrap().output, Some(Value::from(8)));
    assert_eq!(stored_outcome(Some(3u8)).unwrap(), 3);
    assert!(matches!(stored_outcome::<u8>(None), Err(RuntimeError::TaskPanicked(m)) if m == "cached output had an unexpected type"));
}
