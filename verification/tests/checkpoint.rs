use nanites::checkpoint::{Checkpoint, ExecNodeSnapshot, RestoreError, TerminalStateSnapshot};
use nanites::exec_graph::{ExecGraph, TerminalState};
use nanites::frontier::Frontier;
use nanites::lifecycle::{begin_spawn, finish_node, start_node};
use nanites::registry::{RegistryError, TaskRegistry};
use serde_json::Value;

type Factory = Box<dyn Fn(Value) -> Result<String, RegistryError>>;

fn describe(t: &&'static str) -> Option<(String, Value)> {
    if t.starts_with("ser:") {
        Some((t.to_string(), Value::from(1)))
    } else {
        None
    }
}

#[test]
fn restore_empty_frontier() {
    let mut f: Frontier<&'static str> = Frontier::new();
    let mut g = ExecGraph::new();
    let id = begin_spawn(&mut f, &mut g, "ser:test::Double", "test::Double", Some(Value::Object(Default::default())), Some(Value::from(5)), None);
    start_node(&mut f, &mut g, id, false);
    finish_node(&mut f, &mut g, id, Ok::<i64, nanites::error::RuntimeError>(10), "i64").unwrap();

    let checkpoint = Checkpoint::capture(&f, describe, &g);
    assert!(checkpoint.frontier.is_empty(), "frontier should be empty after completion");

    let reg: TaskRegistry<Factory> = TaskRegistry::new();
    let plan = checkpoint.restore_frontier(&reg).unwrap();
    assert!(plan.is_empty());
    let restored = checkpoint.restore_graph();
    assert_eq!(restored.len(), 1);
}

#[test]
fn checkpoint_records_and_restores_graph() {
    let mut f: Frontier<&'static str> = Frontier::new();
    let mut g = ExecGraph::new();
    let id = begin_spawn(&mut f, &mut g, "ser:test::Double", "test::Double", Some(Value::Object(Default::default())), Some(Value::from(21)), None);
    start_node(&mut f, &mut g, id, false);
    g.set_output(id, Value::from(42));
    finish_node(&mut f, &mut g, id, Ok::<i64, nanites::error::RuntimeError>(42), "i64").unwrap();
    let opaque = begin_spawn(&mut f, &mut g, "plain", "Plain", None, None, Some(id));
    start_node(&mut f, &mut g, opaque, false);
    finish_node::<_, i64>(&mut f, &mut g, opaque, Err(nanites::error::RuntimeError::Cancelled), "i64").unwrap_err();

    let checkpoint = Checkpoint::capture(&f, describe, &g);
    assert_eq!(checkpoint.exec_graph.len(), 2);
    let node = &checkpoint.exec_graph[0];
    assert_eq!(node.task_type, "test::Double");
    assert_eq!(node.input, Value::from(21));
    match &node.terminal {
        Some(TerminalStateSnapshot::Completed { output, output_type }) => {
            assert_eq!(output.as_ref().unwrap(), &Value::from(42));
            assert_eq!(output_type, "i64");
        }
        _ => panic!("expected Completed terminal state"),
    }
    let other = &checkpoint.exec_graph[1];
    assert_eq!(other.task_type, "opaque");
    assert!(other.task_params.is_null());
    assert!(other.input.is_null());

    let restored = checkpoint.restore_graph();
    let r = restored.get(id).unwrap();
    assert_eq!(r.terminal, Some(TerminalState::Completed { output_type: "i64".to_string() }));
    assert_eq!(r.output, Some(Value::from(42)));
    assert_eq!(r.params_snapshot, Some(Value::Object(Default::default())));
    assert_eq!(r.children, vec![opaque]);
    let o = restored.get(opaque).unwrap();
    assert_eq!(o.task_type, "opaque");
    assert!(o.params_snapshot.is_none());
    match o.terminal {
        Some(TerminalState::Failed { message }) => assert_eq!(message, "execution cancelled"),
        other => panic!("unexpected {other:?}"),
    }
}

#[test]
fn restoring_frontier_needs_known_task_types() {
    let mut f: Frontier<&'static str> = Frontier::new();
    let mut g = ExecGraph::new();
    let a = begin_spawn(&mut f, &mut g, "ser:known", "known", None, Some(Value::from(3)), None);
    let checkpoint = Checkpoint::capture(&f, describe, &g);
    let mut reg: TaskRegistry<Factory> = TaskRegistry::new();
    match checkpoint.restore_frontier(&reg) {
        Err(e) => {
            assert!(matches!(&e, RestoreError::UnknownTaskType { node_id, .. } if *node_id == a));
            assert_eq!(
                e.message(),
                "cannot restore frontier node 0: unknown task type \"ser:known\": no factory registered for task type \"ser:known\""
            );
        }
        Ok(_) => panic!("expected an error"),
    }
    reg.register_factory("ser:known", Box::new(|p: Value| Ok(format!("task with {p}"))));
    let plan = checkpoint.restore_frontier(&reg).unwrap();
    assert_eq!(plan.len(), 1);
    assert_eq!(plan[0].0, "task with 1");
    assert_eq!(plan[0].1, Value::from(3));

    let b = begin_spawn(&mut f, &mut g, "plain", "plain", None, None, None);
    let checkpoint = Checkpoint::capture(&f, describe, &g);
    match checkpoint.restore_frontier(&reg) {
        Err(e) => {
            assert!(matches!(&e, RestoreError::OpaqueTask { node_id } if *node_id == b));
            assert_eq!(e.message(), "cannot restore frontier node 1: task is opaque (not serializable)");
        }
        Ok(_) => panic!("expected an error"),
    }
}

#[test]
fn exec_snapshot_of_running_node() {
    let mut g = ExecGraph::new();
    g.record_spawn(7, "T", Some(Value::from("p")), Some(3));
    let n = g.get(7).unwrap();
    let s = ExecNodeSnapshot::from_node(&n);
    assert_eq!(s.node_id, 7);
    assert_eq!(s.parent, Some(3));
    assert_eq!(s.task_type, "T");
    assert_eq!(s.task_params, Value::from("p"));
    assert!(s.terminal.is_none());
}

fn snapshot(node_id: u64, parent: Option<u64>) -> ExecNodeSnapshot {
    ExecNodeSnapshot {
        node_id,
        parent,
        task_type: "test::Step".to_string(),
        task_params: Value::Null,
        input: Value::Null,
        terminal: Some(TerminalStateSnapshot::Cancelled),
    }
}

#[test]
fn restore_links_children_listed_before_their_parent() {
    let checkpoint = Checkpoint { frontier: Vec::new(), exec_graph: vec![snapshot(5, Some(2)), snapshot(2, None), snapshot(7, Some(2))] };
    let g = checkpoint.restore_graph();
    assert_eq!(g.len(), 3);
    assert_eq!(g.get_children(2), vec![5, 7]);
    assert_eq!(g.get(5).unwrap().parent, Some(2));
    assert!(g.get_children(5).is_empty());
}

#[test]
fn next_free_id_lies_above_every_held_id() {
    let empty = Checkpoint { frontier: Vec::new(), exec_graph: Vec::new() };
    assert_eq!(empty.next_free_id(), Some(0));
    let some = Checkpoint { frontier: Vec::new(), exec_graph: vec![snapshot(5, Some(2)), snapshot(2, None)] };
    assert_eq!(some.next_free_id(), Some(6));
    let full = Checkpoint { frontier: Vec::new(), exec_graph: vec![snapshot(u64::MAX, None)] };
    assert_eq!(full.next_free_id(), None);
    let mut f: Frontier<u8> = Frontier::starting_at(6);
    assert_eq!(f.register(1, None), 6);
    assert_eq!(f.peek_next_id(), 7);
}
