use nanites::frontier::{Frontier, NodeStatus};
use serde_json::Value;

#[test]
fn register_assigns_increasing_ids_and_wires_children() {
    let mut f: Frontier<&'static str> = Frontier::new();
    assert!(f.is_empty());
    let a = f.register("root", None);
    let b = f.register("child", Some(a));
    let c = f.register("orphan", Some(99));
    assert_eq!((a, b, c), (0, 1, 2));
    assert_eq!(f.peek_next_id(), 3);
    assert_eq!(f.len(), 3);
    let root = f.get(a).unwrap();
    assert_eq!(root.children, vec![b]);
    assert_eq!(root.status, NodeStatus::Pending);
    assert_eq!(f.get(b).unwrap().parent, Some(a));
    assert_eq!(f.get(c).unwrap().parent, Some(99));
}

#[test]
fn status_updates_and_removal() {
    let mut f: Frontier<u8> = Frontier::new();
    let a = f.register(1, None);
    f.set_running(a);
    assert_eq!(f.get(a).unwrap().status, NodeStatus::Running);
    f.set_failed(a, "oops".to_string());
    assert_eq!(f.get(a).unwrap().status, NodeStatus::Failed("oops".to_string()));
    f.set_completed(a);
    assert_eq!(f.get(a).unwrap().status, NodeStatus::Completed);
    f.set_cancelled(a);
    assert_eq!(f.get(a).unwrap().status, NodeStatus::Cancelled);
    f.set_running(42);
    assert_eq!(f.len(), 1);
    f.remove(a);
    assert!(f.get(a).is_none());
    assert!(f.is_empty());
    let b = f.register(2, None);
    assert_eq!(b, 1);
}

#[test]
fn replace_task_only_when_pending() {
    let mut f: Frontier<&'static str> = Frontier::new();
    let a = f.register("old", None);
    f.replace_task(a, "new");
    assert_eq!(f.get(a).unwrap().task, "new");
    f.set_running(a);
    f.replace_task(a, "newer");
    assert_eq!(f.get(a).unwrap().task, "new");
}

#[test]
fn snapshot_lists_nodes_in_registration_order() {
    let mut f: Frontier<u32> = Frontier::new();
    for t in 0..5u32 {
        f.register(t * 10, None);
    }
    f.remove(2);
    let snap = f.snapshot();
    assert_eq!(snap.iter().map(|n| n.id).collect::<Vec<_>>(), vec![0, 1, 3, 4]);
    assert_eq!(snap.iter().map(|n| n.task).collect::<Vec<_>>(), vec![0, 10, 30, 40]);
    f.set_input(3, Value::from("x"));
    assert_eq!(f.get(3).unwrap().input, Some(Value::from("x")));
}
