use nanites::exec_graph::{ExecGraph, TerminalState};
use serde_json::Value;

#[test]
fn record_and_complete() {
    let mut graph = ExecGraph::new();
    graph.record_spawn(0, "MyTask", None, None);
    graph.record_spawn(1, "ChildTask", None, Some(0));

    graph.set_completed(0, "String");
    graph.set_failed(1, "something went wrong");

    let root = graph.get(0).unwrap();
    assert_eq!(root.children, vec![1]);
    assert_eq!(
        root.terminal,
        Some(TerminalState::Completed {
            output_type: "String".to_string()
        })
    );

    let child = graph.get(1).unwrap();
    assert_eq!(child.parent, Some(0));
    assert!(matches!(child.terminal, Some(TerminalState::Failed { .. })));
}

#[test]
fn children_query() {
    let mut graph = ExecGraph::new();
    graph.record_spawn(0, "Root", None, None);
    graph.record_spawn(1, "A", None, Some(0));
    graph.record_spawn(2, "B", None, Some(0));
    graph.record_spawn(3, "C", None, Some(1));

    let children = graph.get_children(0);
    assert_eq!(children, vec![1, 2]);

    let grandchildren = graph.get_children(1);
    assert_eq!(grandchildren, vec![3]);
}

#[test]
fn running_nodes_query() {
    let mut graph = ExecGraph::new();
    graph.record_spawn(0, "A", None, None);
    graph.record_spawn(1, "B", None, None);
    graph.set_completed(0, "()");

    let running = graph.running_nodes();
    assert_eq!(running.len(), 1);
    assert_eq!(running[0].id, 1);
}

#[test]
fn params_snapshot_stored() {
    let mut graph = ExecGraph::new();
    let mut m = serde_json::Map::new();
    m.insert("model".to_string(), Value::from("gpt-4"));
    m.insert("temperature".to_string(), Value::from(0.7));
    let params = Value::Object(m);
    graph.record_spawn(0, "LlmTask", Some(params.clone()), None);

    let node = graph.get(0).unwrap();
    assert_eq!(node.params_snapshot, Some(params));
}

#[test]
fn graph_never_forgets_and_queries_partition() {
    let mut graph = ExecGraph::new();
    assert!(graph.is_empty());
    graph.record_spawn(5, "A", None, None);
    graph.record_spawn(6, "B", None, Some(5));
    graph.record_spawn(7, "C", None, Some(5));
    graph.set_completed(5, "u8");
    graph.set_failed(6, "boom");
    assert_eq!(graph.len(), 3);
    assert_eq!(graph.completed_nodes().iter().map(|n| n.id).collect::<Vec<_>>(), vec![5]);
    assert_eq!(graph.failed_nodes().iter().map(|n| n.id).collect::<Vec<_>>(), vec![6]);
    assert_eq!(graph.running_nodes().iter().map(|n| n.id).collect::<Vec<_>>(), vec![7]);
    assert_eq!(graph.snapshot().iter().map(|n| n.id).collect::<Vec<_>>(), vec![5, 6, 7]);
    match graph.get(6).unwrap().terminal {
        Some(TerminalState::Failed { message }) => assert_eq!(message, "boom"),
        other => panic!("unexpected terminal state {other:?}"),
    }
    assert!(graph.get(8).is_none());
    assert_eq!(graph.get_children(8), Vec::<u64>::new());
}

#[test]
fn respawn_under_same_id_replaces_record() {
    let mut graph = ExecGraph::new();
    graph.record_spawn(0, "A", None, None);
    graph.record_spawn(1, "B", None, Some(0));
    graph.set_cancelled(1);
    graph.record_spawn(1, "B2", None, None);
    assert_eq!(graph.len(), 2);
    let b = graph.get(1).unwrap();
    assert_eq!(b.task_type, "B2");
    assert!(b.terminal.is_none());
    assert_eq!(graph.get_children(0), vec![1]);
}

#[test]
fn input_and_output_recorded() {
    let mut graph = ExecGraph::new();
    graph.record_spawn(0, "A", None, None);
    graph.set_input(0, Value::from(21));
    graph.set_output(0, Value::from(42));
    graph.set_input(9, Value::from(1));
    let n = graph.get(0).unwrap();
    assert_eq!(n.input, Some(Value::from(21)));
    assert_eq!(n.output, Some(Value::from(42)));
    assert_eq!(graph.len(), 1);
}
