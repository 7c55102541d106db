//! Checkpoint and restore.
//!
//! A [`Checkpoint`] is a snapshot of a runtime's state at a point in time:
//! every node of the frontier (pending or running tasks, to be spawned
//! again on restore) and every record of the execution graph (the full
//! audit trail). Tasks that cannot describe themselves appear with task type
//! `"opaque"` and `null` params; they do not block checkpointing but cannot
//! be restored.
//!
//! Restoring rebuilds the execution graph from the records and turns the
//! frontier nodes back into tasks through a [`TaskRegistry`]. Nodes that
//! were running at checkpoint time are treated as pending and run again.

use crate::exec_graph::{
    adopt_record, spawn_record, with_record_input, with_record_output, with_terminal, ExecGraph, ExecNode,
    ExecNodeView, TerminalState, TerminalView,
};
use crate::frontier::{node_snapshot_of, NodeId, NodeStatus, TaskNode, TaskNodeView};
use crate::json::json_is_null;
use crate::registry::{RegistryError, TaskRegistry};
use crate::text::{debug_quoted, decimal, decimal_text, quoted};
use crate::registry::registry_error_text;
use serde_json::Value;
use vstd::prelude::*;
use vstd::string::*;

verus! {

/// The task type recorded for tasks that cannot describe themselves.
pub open spec fn opaque_text() -> Seq<char> {
    "opaque"@
}

/// Storable snapshot of a terminal state.
#[derive(Debug, Clone)]
pub enum TerminalStateSnapshot {
    /// Task completed successfully.
    Completed {
        /// Type name of the output type.
        output_type: String,
        /// Serialized output value, if available.
        output: Option<Value>,
    },
    /// Task returned an error.
    Failed {
        /// Message of the error.
        message: String,
    },
    /// Task was cancelled.
    Cancelled,
}

impl TerminalStateSnapshot {
    /// Snapshot a terminal state, with the task's serialized output.
    pub fn from_terminal(state: &TerminalState, output: Option<&Value>) -> (r: Self)
        ensures
            match *state {
                TerminalState::Completed { output_type } => r matches TerminalStateSnapshot::Completed {
                    output_type: t,
                    output: o,
                } && t@ == output_type@ && o == match output {
                    Some(v) => Some(*v),
                    None => None::<Value>,
                },
                TerminalState::Failed { message } => r matches TerminalStateSnapshot::Failed { message: m }
                    && m@ == message@,
                TerminalState::Cancelled => r matches TerminalStateSnapshot::Cancelled,
            },
    {
        match state {
            TerminalState::Completed { output_type } => TerminalStateSnapshot::Completed {
                output_type: output_type.clone(),
                output: match output {
                    Some(v) => Some(v.clone()),
                    None => None,
                },
            },
            TerminalState::Failed { message } => TerminalStateSnapshot::Failed { message: message.clone() },
            TerminalState::Cancelled => TerminalStateSnapshot::Cancelled,
        }
    }
}

/// Storable version of [`NodeStatus`].
#[derive(Debug, Clone)]
pub enum NodeStatusSnapshot {
    Pending,
    Running,
    Completed,
    Failed(String),
    Cancelled,
}

impl NodeStatusSnapshot {
    /// Snapshot a node status.
    pub fn from_status(s: &NodeStatus) -> (r: Self)
        ensures
            r == match *s {
                NodeStatus::Pending => NodeStatusSnapshot::Pending,
                NodeStatus::Running => NodeStatusSnapshot::Running,
                NodeStatus::Completed => NodeStatusSnapshot::Completed,
                NodeStatus::Failed(m) => NodeStatusSnapshot::Failed(m),
                NodeStatus::Cancelled => NodeStatusSnapshot::Cancelled,
            },
    {
        match s {
            NodeStatus::Pending => NodeStatusSnapshot::Pending,
            NodeStatus::Running => NodeStatusSnapshot::Running,
            NodeStatus::Completed => NodeStatusSnapshot::Completed,
            NodeStatus::Failed(m) => NodeStatusSnapshot::Failed(m.clone()),
            NodeStatus::Cancelled => NodeStatusSnapshot::Cancelled,
        }
    }
}

/// Storable snapshot of a frontier (pending or running) node.
#[derive(Debug, Clone)]
pub struct FrontierNodeSnapshot {
    /// Node identifier.
    pub node_id: NodeId,
    /// Parent node, if any.
    pub parent: Option<NodeId>,
    /// Stable type name of the task, or `"opaque"`.
    pub task_type: String,
    /// Constructor params, or `null` for opaque tasks.
    pub task_params: Value,
    /// Serialized input at spawn time, or `null`.
    pub input: Value,
    /// Node status at checkpoint time.
    pub status: NodeStatusSnapshot,
}

/// `v` is `Some(x)`'s `x`, or a JSON `null` when `v` is `None`.
pub open spec fn value_or_null(v: Option<Value>, x: Value) -> bool {
    match v {
        Some(y) => x == y,
        None => json_is_null(x),
    }
}

fn value_or_null_exec(v: &Option<Value>) -> (x: Value)
    ensures
        value_or_null(*v, x),
{
    match v {
        Some(y) => y.clone(),
        None => Value::default(),
    }
}

/// `s` is the snapshot of frontier node `n`, whose task described itself
/// as `info`.
pub open spec fn frontier_snapshot_of<T>(s: FrontierNodeSnapshot, n: TaskNodeView<T>, info: Option<(String, Value)>) -> bool {
    &&& s.node_id == n.id
    &&& s.parent == n.parent
    &&& match info {
        Some((t, p)) => s.task_type@ == t@ && s.task_params == p,
        None => s.task_type@ == opaque_text() && json_is_null(s.task_params),
    }
    &&& value_or_null(n.input, s.input)
    &&& s.status == NodeStatusSnapshot::from_status_spec(n.status)
}

/// Snapshot `s` carries the task description `info`: its stable type name
/// and params, or `"opaque"` and `null` params when there is none.
pub open spec fn described_as(s: FrontierNodeSnapshot, info: Option<(String, Value)>) -> bool {
    match info {
        Some(d) => s.task_type@ == d.0@ && s.task_params == d.1,
        None => s.task_type@ == "opaque"@ && json_is_null(s.task_params),
    }
}

/// Capturing the frontier keeps each node as it was: the snapshot taken of
/// a node carries that node's parent, its status and its input (`null` when
/// it had none), and the description that `describe` gave of the node's
/// task (its stable type name and params), or `"opaque"` and `null` params
/// when it gave none.
pub proof fn law_frontier_snapshot_keeps_node<T: Clone, D: Fn(&T) -> Option<(String, Value)>>(
    m: Map<NodeId, TaskNodeView<T>>,
    describe: D,
    snaps: Seq<FrontierNodeSnapshot>,
)
    requires
        forall|i: int| 0 <= i < snaps.len() ==> m.contains_key((#[trigger] snaps[i]).node_id)
            && exists|n: TaskNode<T>, info: Option<(String, Value)>| node_snapshot_of(n, m[snaps[i].node_id])
                && call_ensures(describe, (&n.task,), info) && frontier_snapshot_of(snaps[i], n@, info),
    ensures
        forall|i: int| 0 <= i < snaps.len() ==> {
            let s = #[trigger] snaps[i];
            let node = m[s.node_id];
            &&& s.parent == node.parent
            &&& s.status == match node.status {
                NodeStatus::Pending => NodeStatusSnapshot::Pending,
                NodeStatus::Running => NodeStatusSnapshot::Running,
                NodeStatus::Completed => NodeStatusSnapshot::Completed,
                NodeStatus::Failed(msg) => NodeStatusSnapshot::Failed(msg),
                NodeStatus::Cancelled => NodeStatusSnapshot::Cancelled,
            }
            &&& match node.input {
                Some(v) => s.input == v,
                None => json_is_null(s.input),
            }
            &&& exists|n: TaskNode<T>, info: Option<(String, Value)>| node_snapshot_of(n, node)
                && #[trigger] call_ensures(describe, (&n.task,), info) && described_as(s, info)
        },
{
    assert forall|i: int| 0 <= i < snaps.len() implies {
        let s = #[trigger] snaps[i];
        let node = m[s.node_id];
        &&& s.parent == node.parent
        &&& s.status == match node.status {
            NodeStatus::Pending => NodeStatusSnapshot::Pending,
            NodeStatus::Running => NodeStatusSnapshot::Running,
            NodeStatus::Completed => NodeStatusSnapshot::Completed,
            NodeStatus::Failed(msg) => NodeStatusSnapshot::Failed(msg),
            NodeStatus::Cancelled => NodeStatusSnapshot::Cancelled,
        }
        &&& match node.input {
            Some(v) => s.input == v,
            None => json_is_null(s.input),
        }
        &&& exists|n: TaskNode<T>, info: Option<(String, Value)>| node_snapshot_of(n, node)
            && #[trigger] call_ensures(describe, (&n.task,), info) && described_as(s, info)
    } by {
        let (n, info) = choose|n: TaskNode<T>, info: Option<(String, Value)>| node_snapshot_of(n, m[snaps[i].node_id])
            && call_ensures(describe, (&n.task,), info) && frontier_snapshot_of(snaps[i], n@, info);
        let s = snaps[i];
        assert(node_snapshot_of(n, m[s.node_id]) && call_ensures(describe, (&n.task,), info) && described_as(s, info));
    }
}

impl FrontierNodeSnapshot {
    /// Snapshot a frontier node, given the task's own description of itself
    /// (its stable type name and params) when it has one.
    pub fn from_node<T>(node: &TaskNode<T>, info: Option<(String, Value)>) -> (r: Self)
        ensures
            frontier_snapshot_of(r, node@, info),
    {
        let (task_type, task_params) = match info {
            Some((t, p)) => (t, p),
            None => (String::from_str("opaque"), Value::default()),
        };
        proof {
            reveal_strlit("opaque");
        }
        FrontierNodeSnapshot {
            node_id: node.id,
            parent: node.parent,
            task_type,
            task_params,
            input: value_or_null_exec(&node.input),
            status: NodeStatusSnapshot::from_status(&node.status),
        }
    }
}

impl NodeStatusSnapshot {
    /// The snapshot of a node status.
    pub open spec fn from_status_spec(s: NodeStatus) -> NodeStatusSnapshot {
        match s {
            NodeStatus::Pending => NodeStatusSnapshot::Pending,
            NodeStatus::Running => NodeStatusSnapshot::Running,
            NodeStatus::Completed => NodeStatusSnapshot::Completed,
            NodeStatus::Failed(m) => NodeStatusSnapshot::Failed(m),
            NodeStatus::Cancelled => NodeStatusSnapshot::Cancelled,
        }
    }
}

/// Storable snapshot of an execution graph record.
#[derive(Debug, Clone)]
pub struct ExecNodeSnapshot {
    /// Node identifier.
    pub node_id: NodeId,
    /// Parent node, if any.
    pub parent: Option<NodeId>,
    /// Task type name, or `"opaque"` when no params snapshot was recorded.
    pub task_type: String,
    /// Constructor params, or `null` for opaque tasks.
    pub task_params: Value,
    /// Serialized input at spawn time, or `null`.
    pub input: Value,
    /// Terminal state, if the task has finished.
    pub terminal: Option<TerminalStateSnapshot>,
}

/// `s` is the snapshot of terminal state `t` of a record whose output is `out`.
pub open spec fn terminal_snapshot_of(s: Option<TerminalStateSnapshot>, t: Option<TerminalView>, out: Option<Value>) -> bool {
    match t {
        None => s is None,
        Some(TerminalView::Completed { output_type }) => s matches Some(
            TerminalStateSnapshot::Completed { output_type: ot, output: o },
        ) && ot@ == output_type && o == out,
        Some(TerminalView::Failed { message }) => s matches Some(TerminalStateSnapshot::Failed { message: m })
            && m@ == message,
        Some(TerminalView::Cancelled) => s matches Some(TerminalStateSnapshot::Cancelled),
    }
}

/// `s` is the snapshot of record `n`.
pub open spec fn exec_snapshot_of(s: ExecNodeSnapshot, n: ExecNodeView) -> bool {
    &&& s.node_id == n.id
    &&& s.parent == n.parent
    &&& match n.params_snapshot {
        Some(p) => s.task_type@ == n.task_type && s.task_params == p,
        None => s.task_type@ == opaque_text() && json_is_null(s.task_params),
    }
    &&& value_or_null(n.input, s.input)
    &&& terminal_snapshot_of(s.terminal, n.terminal, n.output)
}

impl ExecNodeSnapshot {
    /// Snapshot an execution graph record.
    pub fn from_node(node: &ExecNode) -> (r: Self)
        ensures
            exec_snapshot_of(r, node@),
    {
        let task_type = match &node.params_snapshot {
            Some(_) => node.task_type.clone(),
            None => String::from_str("opaque"),
        };
        proof {
            reveal_strlit("opaque");
        }
        let task_params = value_or_null_exec(&node.params_snapshot);
        let terminal = match &node.terminal {
            Some(t) => Some(TerminalStateSnapshot::from_terminal(
                t,
                match &node.output {
                    Some(v) => Some(v),
                    None => None,
                },
            )),
            None => None,
        };
        ExecNodeSnapshot {
            node_id: node.id,
            parent: node.parent,
            task_type,
            task_params,
            input: value_or_null_exec(&node.input),
            terminal,
        }
    }
}

/// Full snapshot of a runtime at a point in time.
#[derive(Debug, Clone)]
pub struct Checkpoint {
    /// Snapshot of all nodes in the frontier (pending or running).
    pub frontier: Vec<FrontierNodeSnapshot>,
    /// Snapshot of all records of the execution graph.
    pub exec_graph: Vec<ExecNodeSnapshot>,
}

/// The graph after writing the record of snapshot `s` on top of `m`: the
/// record with its parent, its input set, and its terminal state (with a
/// completed task's output type and output) put back. No child is listed
/// yet; [`link_children`] does that once every record is written.
pub open spec fn apply_snapshot(m: Map<NodeId, ExecNodeView>, s: ExecNodeSnapshot) -> Map<NodeId, ExecNodeView> {
    let id = s.node_id;
    let params = if s.task_type@ == opaque_text() { None } else { Some(s.task_params) };
    let m1 = m.insert(id, spawn_record(id, s.task_type@, params, s.parent));
    let m2 = with_record_input(m1, id, s.input);
    match s.terminal {
        None => m2,
        Some(TerminalStateSnapshot::Completed { output_type, output }) => {
            let m3 = match output {
                Some(o) => with_record_output(m2, id, o),
                None => m2,
            };
            with_terminal(m3, id, TerminalView::Completed { output_type: output_type@ })
        },
        Some(TerminalStateSnapshot::Failed { message }) => with_terminal(
            m2,
            id,
            TerminalView::Failed { message: message@ },
        ),
        Some(TerminalStateSnapshot::Cancelled) => with_terminal(m2, id, TerminalView::Cancelled),
    }
}

/// The records of a list of snapshots, written in order, before any child
/// is listed.
pub open spec fn recorded_graph(snaps: Seq<ExecNodeSnapshot>) -> Map<NodeId, ExecNodeView>
    decreases snaps.len(),
{
    if snaps.len() == 0 {
        Map::empty()
    } else {
        apply_snapshot(recorded_graph(snaps.drop_last()), snaps.last())
    }
}

/// `m` with each snapshot's id, in list order, appended to the children of
/// its parent's record, where that record is present.
pub open spec fn link_children(m: Map<NodeId, ExecNodeView>, snaps: Seq<ExecNodeSnapshot>) -> Map<NodeId, ExecNodeView>
    decreases snaps.len(),
{
    if snaps.len() == 0 {
        m
    } else {
        adopt_record(link_children(m, snaps.drop_last()), snaps.last().parent, snaps.last().node_id)
    }
}

/// The graph rebuilt from a list of snapshots: every record written
/// first, then every child listed under its parent, so lineage does not
/// depend on the order of the list.
pub open spec fn restored_graph(snaps: Seq<ExecNodeSnapshot>) -> Map<NodeId, ExecNodeView> {
    link_children(recorded_graph(snaps), snaps)
}

/// The ids of the snapshots whose parent is `p`, in list order.
pub open spec fn child_ids(snaps: Seq<ExecNodeSnapshot>, p: NodeId) -> Seq<NodeId>
    decreases snaps.len(),
{
    if snaps.len() == 0 {
        Seq::empty()
    } else if snaps.last().parent == Some(p) {
        child_ids(snaps.drop_last(), p).push(snaps.last().node_id)
    } else {
        child_ids(snaps.drop_last(), p)
    }
}

/// Error returned when restoring a checkpoint.
#[derive(Debug)]
pub enum RestoreError {
    /// A frontier node's task type was not registered, or its factory failed.
    UnknownTaskType { node_id: NodeId, task_type: String, source: RegistryError },
    /// A frontier node had task type `"opaque"`; it cannot be restored.
    OpaqueTask { node_id: NodeId },
}

/// The message of a restore error.
pub open spec fn restore_error_text(e: RestoreError) -> Seq<char> {
    match e {
        RestoreError::UnknownTaskType { node_id, task_type, source } => "cannot restore frontier node "@ + decimal(
            node_id as nat,
        ) + ": unknown task type "@ + debug_quoted(task_type@) + ": "@ + registry_error_text(source),
        RestoreError::OpaqueTask { node_id } => "cannot restore frontier node "@ + decimal(node_id as nat)
            + ": task is opaque (not serializable)"@,
    }
}

impl RestoreError {
    /// The error's message, as shown to users.
    pub fn message(&self) -> (s: String)
        ensures
            s@ == restore_error_text(*self),
    {
        match self {
            RestoreError::UnknownTaskType { node_id, task_type, source } => {
                let mut s = String::from_str("cannot restore frontier node ");
                s.append(decimal_text(*node_id).as_str());
                s.append(": unknown task type ");
                s.append(quoted(task_type.as_str()).as_str());
                s.append(": ");
                s.append(source.message().as_str());
                s
            },
            RestoreError::OpaqueTask { node_id } => {
                let mut s = String::from_str("cannot restore frontier node ");
                s.append(decimal_text(*node_id).as_str());
                s.append(": task is opaque (not serializable)");
                s
            },
        }
    }
}

/// Whether a frontier snapshot is opaque.
fn is_opaque(task_type: &String) -> (b: bool)
    ensures
        b == (task_type@ == opaque_text()),
{
    let opaque = String::from_str("opaque");
    proof {
        reveal_strlit("opaque");
    }
    *task_type == opaque
}

impl Checkpoint {
    /// Whether `id` is the id of one of this checkpoint's records or
    /// frontier nodes.
    pub open spec fn holds_id(&self, id: NodeId) -> bool {
        (exists|k: int| 0 <= k < self.exec_graph@.len() && self.exec_graph@[k].node_id == id)
            || (exists|k: int| 0 <= k < self.frontier@.len() && self.frontier@[k].node_id == id)
    }

    /// Build a checkpoint from snapshots of the frontier and of the
    /// execution graph. `infos[i]` is the self-description of the task of
    /// `frontier_nodes[i]`, when it has one.
    pub fn from_snapshots<T>(
        frontier_nodes: &Vec<TaskNode<T>>,
        infos: Vec<Option<(String, Value)>>,
        exec_nodes: &Vec<ExecNode>,
    ) -> (c: Self)
        requires
            infos@.len() == frontier_nodes@.len(),
        ensures
            c.frontier@.len() == frontier_nodes@.len(),
            forall|i: int| 0 <= i < c.frontier@.len() ==> frontier_snapshot_of(
                #[trigger] c.frontier@[i],
                frontier_nodes@[i]@,
                infos@[i],
            ),
            c.exec_graph@.len() == exec_nodes@.len(),
            forall|i: int| 0 <= i < c.exec_graph@.len() ==> exec_snapshot_of(
                #[trigger] c.exec_graph@[i],
                exec_nodes@[i]@,
            ),
    {
        let ghost all_infos = infos@;
        let mut frontier: Vec<FrontierNodeSnapshot> = Vec::new();
        let mut infos = infos;
        let mut i: usize = 0;
        while i < frontier_nodes.len()
            invariant
                i <= frontier_nodes@.len(),
                all_infos.len() == frontier_nodes@.len(),
                infos@ == all_infos.skip(i as int),
                frontier@.len() == i,
                forall|j: int| 0 <= j < i ==> frontier_snapshot_of(#[trigger] frontier@[j], frontier_nodes@[j]@, all_infos[j]),
            decreases frontier_nodes@.len() - i,
        {
            assert(infos@[0] == all_infos[i as int]);
            let info = infos.remove(0);
            assert(infos@ =~= all_infos.skip(i + 1));
            frontier.push(FrontierNodeSnapshot::from_node(&frontier_nodes[i], info));
            i += 1;
        }
        let mut graph: Vec<ExecNodeSnapshot> = Vec::new();
        let mut k: usize = 0;
        while k < exec_nodes.len()
            invariant
                k <= exec_nodes@.len(),
                graph@.len() == k,
                forall|j: int| 0 <= j < k ==> exec_snapshot_of(#[trigger] graph@[j], exec_nodes@[j]@),
            decreases exec_nodes@.len() - k,
        {
            graph.push(ExecNodeSnapshot::from_node(&exec_nodes[k]));
            k += 1;
        }
        Checkpoint { frontier, exec_graph: graph }
    }

    /// Capture a checkpoint of a frontier and an execution graph.
    /// `describe` gives each frontier task's self-description, when it has
    /// one.
    pub fn capture<T: Clone, D>(frontier: &crate::frontier::Frontier<T>, describe: D, graph: &ExecGraph) -> (c: Self)
        where
            D: Fn(&T) -> Option<(String, Value)>,
        requires
            frontier.wf(),
            graph.wf(),
            forall|t: &T| call_requires(describe, (t,)),
        ensures
            c.frontier@.len() == frontier@.len(),
            forall|i: int| 0 <= i < c.frontier@.len() ==> frontier@.contains_key((#[trigger] c.frontier@[i]).node_id)
                && exists|n: TaskNode<T>, info: Option<(String, Value)>| node_snapshot_of(n, frontier@[c.frontier@[i].node_id])
                    && call_ensures(describe, (&n.task,), info) && frontier_snapshot_of(c.frontier@[i], n@, info),
            forall|i: int, j: int| 0 <= i < j < c.frontier@.len() ==> c.frontier@[i].node_id != c.frontier@[j].node_id,
            forall|k: NodeId| #[trigger] frontier@.contains_key(k) ==> exists|i: int| 0 <= i < c.frontier@.len()
                && c.frontier@[i].node_id == k,
            c.exec_graph@.len() == graph@.len(),
            forall|i: int| 0 <= i < c.exec_graph@.len() ==> graph@.contains_key((#[trigger] c.exec_graph@[i]).node_id)
                && exec_snapshot_of(c.exec_graph@[i], graph@[c.exec_graph@[i].node_id]),
            forall|i: int, j: int| 0 <= i < j < c.exec_graph@.len() ==> c.exec_graph@[i].node_id
                != c.exec_graph@[j].node_id,
            forall|k: NodeId| #[trigger] graph@.contains_key(k) ==> exists|i: int| 0 <= i < c.exec_graph@.len()
                && c.exec_graph@[i].node_id == k,
    {
        let nodes = frontier.snapshot();
        let mut infos: Vec<Option<(String, Value)>> = Vec::new();
        let mut i: usize = 0;
        while i < nodes.len()
            invariant
                i <= nodes@.len(),
                infos@.len() == i,
                forall|t: &T| call_requires(describe, (t,)),
                forall|j: int| 0 <= j < i ==> call_ensures(describe, (&nodes@[j].task,), #[trigger] infos@[j]),
            decreases nodes@.len() - i,
        {
            infos.push(describe(&nodes[i].task));
            i += 1;
        }
        let ghost all_infos = infos@;
        let records = graph.snapshot();
        let c = Self::from_snapshots(&nodes, infos, &records);
        assert forall|k: NodeId| #[trigger] graph@.contains_key(k) implies exists|i: int| 0 <= i < c.exec_graph@.len()
            && c.exec_graph@[i].node_id == k by {
            let i = choose|i: int| 0 <= i < records@.len() && records@[i].id == k;
            assert(exec_snapshot_of(c.exec_graph@[i], records@[i]@));
        }
        assert forall|i: int| 0 <= i < c.frontier@.len() implies frontier@.contains_key((#[trigger] c.frontier@[i]).node_id)
            && exists|n: TaskNode<T>, info: Option<(String, Value)>| node_snapshot_of(n, frontier@[c.frontier@[i].node_id])
                && call_ensures(describe, (&n.task,), info) && frontier_snapshot_of(c.frontier@[i], n@, info) by {
            assert(frontier_snapshot_of(c.frontier@[i], nodes@[i]@, all_infos[i]));
            assert(call_ensures(describe, (&nodes@[i].task,), all_infos[i]));
            assert(node_snapshot_of(nodes@[i], frontier@[nodes@[i].id]));
        }
        assert forall|k: NodeId| #[trigger] frontier@.contains_key(k) implies exists|i: int| 0 <= i < c.frontier@.len()
            && c.frontier@[i].node_id == k by {
            let i = choose|i: int| 0 <= i < nodes@.len() && nodes@[i].id == k;
            assert(frontier_snapshot_of(c.frontier@[i], nodes@[i]@, all_infos[i]));
        }
        assert forall|a: int, b: int| 0 <= a < b < c.frontier@.len() implies c.frontier@[a].node_id != c.frontier@[b].node_id by {
            assert(frontier_snapshot_of(c.frontier@[a], nodes@[a]@, all_infos[a]));
            assert(frontier_snapshot_of(c.frontier@[b], nodes@[b]@, all_infos[b]));
        }
        c
    }

    /// Rebuild the execution graph from this checkpoint's records: every
    /// record is written first, in order, and then each record is listed
    /// among its parent's children.
    pub fn restore_graph(&self) -> (g: ExecGraph)
        ensures
            g.wf(),
            g@ == restored_graph(self.exec_graph@),
    {
        let mut g = ExecGraph::new();
        let mut i: usize = 0;
        while i < self.exec_graph.len()
            invariant
                i <= self.exec_graph@.len(),
                g.wf(),
                g@ == recorded_graph(self.exec_graph@.take(i as int)),
            decreases self.exec_graph@.len() - i,
        {
            let s = &self.exec_graph[i];
            let params = if is_opaque(&s.task_type) {
                None
            } else {
                Some(s.task_params.clone())
            };
            g.put_record(s.node_id, s.task_type.as_str(), params, s.parent);
            g.set_input(s.node_id, s.input.clone());
            match &s.terminal {
                None => {},
                Some(TerminalStateSnapshot::Completed { output_type, output }) => {
                    match output {
                        Some(o) => g.set_output(s.node_id, o.clone()),
                        None => {},
                    }
                    g.set_completed(s.node_id, output_type.as_str());
                },
                Some(TerminalStateSnapshot::Failed { message }) => {
                    g.set_failed(s.node_id, message.as_str());
                },
                Some(TerminalStateSnapshot::Cancelled) => {
                    g.set_cancelled(s.node_id);
                },
            }
            proof {
                assert(self.exec_graph@.take(i + 1).drop_last() =~= self.exec_graph@.take(i as int));
            }
            i += 1;
        }
        assert(self.exec_graph@.take(self.exec_graph@.len() as int) =~= self.exec_graph@);
        let ghost recorded = g@;
        let mut j: usize = 0;
        while j < self.exec_graph.len()
            invariant
                j <= self.exec_graph@.len(),
                recorded == recorded_graph(self.exec_graph@),
                g.wf(),
                g@ == link_children(recorded, self.exec_graph@.take(j as int)),
            decreases self.exec_graph@.len() - j,
        {
            let s = &self.exec_graph[j];
            g.adopt_child(s.parent, s.node_id);
            proof {
                assert(self.exec_graph@.take(j + 1).drop_last() =~= self.exec_graph@.take(j as int));
            }
            j += 1;
        }
        assert(self.exec_graph@.take(self.exec_graph@.len() as int) =~= self.exec_graph@);
        g
    }

    /// The first id above every node id that this checkpoint holds (in its
    /// records and its frontier), or 0 when it holds none; `None` when one of
    /// them is `u64::MAX`, so that no id lies above them all.
    pub fn next_free_id(&self) -> (r: Option<u64>)
        ensures
            r is None <==> exists|id: NodeId| self.holds_id(id) && id == u64::MAX,
            r matches Some(n) ==> (forall|id: NodeId| self.holds_id(id) ==> id < n)
                && (n == 0 || self.holds_id((n - 1) as NodeId)),
    {
        let mut next: u64 = 0;
        let mut i: usize = 0;
        while i < self.exec_graph.len()
            invariant
                i <= self.exec_graph@.len(),
                forall|j: int| 0 <= j < i ==> #[trigger] self.exec_graph@[j].node_id < next,
                next == 0 || self.holds_id((next - 1) as NodeId),
            decreases self.exec_graph@.len() - i,
        {
            let id = self.exec_graph[i].node_id;
            if id == u64::MAX {
                assert(self.holds_id(self.exec_graph@[i as int].node_id));
                return None;
            }
            if id >= next {
                next = id + 1;
                assert(self.holds_id(self.exec_graph@[i as int].node_id));
            }
            i += 1;
        }
        let mut j: usize = 0;
        while j < self.frontier.len()
            invariant
                j <= self.frontier@.len(),
                forall|k: int| 0 <= k < self.exec_graph@.len() ==> #[trigger] self.exec_graph@[k].node_id < next,
                forall|k: int| 0 <= k < j ==> #[trigger] self.frontier@[k].node_id < next,
                next == 0 || self.holds_id((next - 1) as NodeId),
            decreases self.frontier@.len() - j,
        {
            let id = self.frontier[j].node_id;
            if id == u64::MAX {
                assert(self.holds_id(self.frontier@[j as int].node_id));
                return None;
            }
            if id >= next {
                next = id + 1;
                assert(self.holds_id(self.frontier@[j as int].node_id));
            }
            j += 1;
        }
        proof {
            assert forall|id: NodeId| self.holds_id(id) implies id < next by {
                if exists|k: int| 0 <= k < self.exec_graph@.len() && self.exec_graph@[k].node_id == id {
                    let k = choose|k: int| 0 <= k < self.exec_graph@.len() && self.exec_graph@[k].node_id == id;
                    assert(self.exec_graph@[k].node_id < next);
                } else {
                    let k = choose|k: int| 0 <= k < self.frontier@.len() && self.frontier@[k].node_id == id;
                    assert(self.frontier@[k].node_id < next);
                }
            }
        }
        Some(next)
    }

    /// Turn the frontier nodes back into tasks, in order, through the
    /// registry: each with the input it had.
    ///
    /// Fails at the first node (in order) that is opaque, or whose type is
    /// unknown to the registry or whose factory fails.
    pub fn restore_frontier<F, O>(&self, registry: &TaskRegistry<F>) -> (r: Result<Vec<(O, Value)>, RestoreError>)
        where
            F: Fn(Value) -> Result<O, RegistryError>,
        requires
            registry.wf(),
            registry.factories_total(),
        ensures
            match r {
                Ok(plan) => plan@.len() == self.frontier@.len() && forall|i: int| 0 <= i < plan@.len() ==> {
                    let s = self.frontier@[i];
                    &&& s.task_type@ != opaque_text()
                    &&& registry.names().contains(s.task_type@)
                    &&& call_ensures(registry.factory(s.task_type@), (s.task_params,), Ok::<O, RegistryError>(#[trigger] plan@[i].0))
                    &&& plan@[i].1 == s.input
                },
                Err(e) => exists|k: int| 0 <= k < self.frontier@.len() && restorable_prefix(self.frontier@, registry, k)
                    && rejected_as(self.frontier@[k], registry, e),
            },
    {
        let mut plan: Vec<(O, Value)> = Vec::new();
        let mut i: usize = 0;
        while i < self.frontier.len()
            invariant
                registry.wf(),
                registry.factories_total(),
                i <= self.frontier@.len(),
                plan@.len() == i,
                restorable_prefix(self.frontier@, registry, i as int),
                forall|j: int| 0 <= j < i ==> {
                    let s = self.frontier@[j];
                    &&& s.task_type@ != opaque_text()
                    &&& registry.names().contains(s.task_type@)
                    &&& call_ensures(registry.factory(s.task_type@), (s.task_params,), Ok::<O, RegistryError>(#[trigger] plan@[j].0))
                    &&& plan@[j].1 == s.input
                },
            decreases self.frontier@.len() - i,
        {
            let s = &self.frontier[i];
            if is_opaque(&s.task_type) {
                return Err(RestoreError::OpaqueTask { node_id: s.node_id });
            }
            match registry.deserialize(s.task_type.as_str(), s.task_params.clone()) {
                Ok(task) => {
                    plan.push((task, s.input.clone()));
                },
                Err(e) => {
                    let err = RestoreError::UnknownTaskType { node_id: s.node_id, task_type: s.task_type.clone(), source: e };
                    return Err(err);
                },
            }
            i += 1;
        }
        Ok(plan)
    }
}

/// The first `k` frontier snapshots can all be restored.
pub open spec fn restorable_prefix<F, O>(snaps: Seq<FrontierNodeSnapshot>, registry: &TaskRegistry<F>, k: int) -> bool
    where
        F: Fn(Value) -> Result<O, RegistryError>,
{
    forall|j: int| 0 <= j < k ==> {
        let s = #[trigger] snaps[j];
        &&& s.task_type@ != opaque_text()
        &&& registry.names().contains(s.task_type@)
        &&& exists|t: O| call_ensures(registry.factory(s.task_type@), (s.task_params,), Ok::<O, RegistryError>(t))
    }
}

/// Restoring snapshot `s` fails with `e`.
pub open spec fn rejected_as<F, O>(s: FrontierNodeSnapshot, registry: &TaskRegistry<F>, e: RestoreError) -> bool
    where
        F: Fn(Value) -> Result<O, RegistryError>,
{
    if s.task_type@ == opaque_text() {
        e == RestoreError::OpaqueTask { node_id: s.node_id }
    } else {
        e matches RestoreError::UnknownTaskType { node_id, task_type, source } && node_id == s.node_id
            && task_type@ == s.task_type@ && if registry.names().contains(s.task_type@) {
            call_ensures(registry.factory(s.task_type@), (s.task_params,), Err::<O, RegistryError>(source))
        } else {
            source matches RegistryError::UnknownTaskType(n) && n@ == s.task_type@
        }
    }
}



/// Record `r` carries what restoring snapshot `s` writes (its children
/// are stated apart, by [`child_ids`]).
pub open spec fn restored_from(r: ExecNodeView, s: ExecNodeSnapshot) -> bool {
    &&& r.id == s.node_id
    &&& r.parent == s.parent
    &&& r.task_type == s.task_type@
    &&& r.params_snapshot == (if s.task_type@ == opaque_text() { None } else { Some(s.task_params) })
    &&& r.input == Some(s.input)
    &&& match s.terminal {
        None => r.terminal is None && r.output is None,
        Some(TerminalStateSnapshot::Completed { output_type, output }) => r.terminal == Some(
            TerminalView::Completed { output_type: output_type@ },
        ) && r.output == output,
        Some(TerminalStateSnapshot::Failed { message }) => r.terminal == Some(
            TerminalView::Failed { message: message@ },
        ) && r.output is None,
        Some(TerminalStateSnapshot::Cancelled) => r.terminal == Some(TerminalView::Cancelled) && r.output is None,
    }
}

/// Two records agree on everything but their children.
pub open spec fn same_but_children(a: ExecNodeView, b: ExecNodeView) -> bool {
    ExecNodeView { children: Seq::empty(), ..a } == ExecNodeView { children: Seq::empty(), ..b }
}

proof fn lemma_apply_snapshot(m: Map<NodeId, ExecNodeView>, s: ExecNodeSnapshot)
    ensures
        apply_snapshot(m, s).dom() == m.dom().insert(s.node_id),
        restored_from(apply_snapshot(m, s)[s.node_id], s),
        apply_snapshot(m, s)[s.node_id].children == Seq::<NodeId>::empty(),
        forall|k: NodeId| #[trigger] m.contains_key(k) && k != s.node_id ==> apply_snapshot(m, s)[k] == m[k],
{
    assert(apply_snapshot(m, s).dom() =~= m.dom().insert(s.node_id));
}

/// Writing the records of snapshots with distinct ids gives, under each
/// id, the record that its snapshot describes, with no children yet.
proof fn lemma_recorded_graph(snaps: Seq<ExecNodeSnapshot>)
    requires
        forall|i: int, j: int| 0 <= i < j < snaps.len() ==> snaps[i].node_id != snaps[j].node_id,
    ensures
        forall|k: NodeId| #[trigger] recorded_graph(snaps).contains_key(k) <==> exists|i: int| 0 <= i < snaps.len()
            && snaps[i].node_id == k,
        forall|i: int| 0 <= i < snaps.len() ==> restored_from(recorded_graph(snaps)[#[trigger] snaps[i].node_id], snaps[i])
            && recorded_graph(snaps)[snaps[i].node_id].children == Seq::<NodeId>::empty(),
    decreases snaps.len(),
{
    if snaps.len() > 0 {
        let init = snaps.drop_last();
        let last = snaps.last();
        lemma_recorded_graph(init);
        lemma_apply_snapshot(recorded_graph(init), last);
        let m = recorded_graph(init);
        assert forall|k: NodeId| #[trigger] recorded_graph(snaps).contains_key(k) <==> exists|i: int| 0 <= i < snaps.len()
            && snaps[i].node_id == k by {
            if recorded_graph(snaps).contains_key(k) {
                if k == last.node_id {
                    assert(snaps[snaps.len() - 1].node_id == k);
                } else {
                    let i = choose|i: int| 0 <= i < init.len() && init[i].node_id == k;
                    assert(snaps[i].node_id == k);
                }
            }
            if exists|i: int| 0 <= i < snaps.len() && snaps[i].node_id == k {
                let i = choose|i: int| 0 <= i < snaps.len() && snaps[i].node_id == k;
                if i < init.len() {
                    assert(init[i].node_id == k);
                }
            }
        }
        assert forall|i: int| 0 <= i < snaps.len() implies restored_from(recorded_graph(snaps)[#[trigger] snaps[i].node_id], snaps[i])
            && recorded_graph(snaps)[snaps[i].node_id].children == Seq::<NodeId>::empty() by {
            if i < init.len() {
                assert(init[i] == snaps[i]);
                assert(m.contains_key(init[i].node_id));
                assert(snaps[i].node_id != last.node_id);
            }
        }
    }
}

/// Listing the children of `snaps` keeps the ids of `m` and every field but
/// `children`, and appends to each record's children the ids of the
/// snapshots whose parent it is, in list order.
proof fn lemma_link_children(m: Map<NodeId, ExecNodeView>, snaps: Seq<ExecNodeSnapshot>)
    ensures
        link_children(m, snaps).dom() == m.dom(),
        forall|k: NodeId| #[trigger] m.contains_key(k) ==> same_but_children(link_children(m, snaps)[k], m[k])
            && link_children(m, snaps)[k].children == m[k].children + child_ids(snaps, k),
    decreases snaps.len(),
{
    if snaps.len() == 0 {
        assert forall|k: NodeId| #[trigger] m.contains_key(k) implies same_but_children(link_children(m, snaps)[k], m[k])
            && link_children(m, snaps)[k].children == m[k].children + child_ids(snaps, k) by {
            assert(m[k].children + Seq::<NodeId>::empty() =~= m[k].children);
        }
    } else {
        let init = snaps.drop_last();
        let last = snaps.last();
        lemma_link_children(m, init);
        let l = link_children(m, init);
        assert(link_children(m, snaps).dom() =~= m.dom());
        assert forall|k: NodeId| #[trigger] m.contains_key(k) implies same_but_children(link_children(m, snaps)[k], m[k])
            && link_children(m, snaps)[k].children == m[k].children + child_ids(snaps, k) by {
            if last.parent == Some(k) {
                assert(l.contains_key(k));
                assert(link_children(m, snaps)[k].children == l[k].children.push(last.node_id));
                assert((m[k].children + child_ids(init, k)).push(last.node_id) =~= m[k].children + child_ids(init, k).push(
                    last.node_id,
                ));
                assert(ExecNodeView { children: Seq::empty(), ..link_children(m, snaps)[k] } =~= ExecNodeView {
                    children: Seq::empty(),
                    ..l[k]
                });
            } else {
                assert(link_children(m, snaps)[k] == l[k]);
            }
        }
    }
}

/// An id is among the children that `snaps` lists under `p` exactly when a
/// snapshot with that id names `p` as its parent.
proof fn lemma_child_ids(snaps: Seq<ExecNodeSnapshot>, p: NodeId)
    ensures
        forall|c: NodeId| #[trigger] child_ids(snaps, p).contains(c) <==> exists|i: int| 0 <= i < snaps.len()
            && snaps[i].node_id == c && snaps[i].parent == Some(p),
    decreases snaps.len(),
{
    if snaps.len() > 0 {
        let init = snaps.drop_last();
        let last = snaps.last();
        lemma_child_ids(init, p);
        assert forall|c: NodeId| #[trigger] child_ids(snaps, p).contains(c) <==> exists|i: int| 0 <= i < snaps.len()
            && snaps[i].node_id == c && snaps[i].parent == Some(p) by {
            if child_ids(snaps, p).contains(c) {
                if last.parent == Some(p) && c == last.node_id {
                    assert(snaps[snaps.len() - 1] == last);
                } else {
                    if last.parent == Some(p) {
                        let j = choose|j: int| 0 <= j < child_ids(snaps, p).len() && child_ids(snaps, p)[j] == c;
                        assert(child_ids(init, p)[j] == c);
                    }
                    assert(child_ids(init, p).contains(c));
                    let i = choose|i: int| 0 <= i < init.len() && init[i].node_id == c && init[i].parent == Some(p);
                    assert(snaps[i] == init[i]);
                }
            }
            if exists|i: int| 0 <= i < snaps.len() && snaps[i].node_id == c && snaps[i].parent == Some(p) {
                let i = choose|i: int| 0 <= i < snaps.len() && snaps[i].node_id == c && snaps[i].parent == Some(p);
                if i < init.len() {
                    assert(init[i] == snaps[i]);
                    assert(child_ids(init, p).contains(c));
                    let j = choose|j: int| 0 <= j < child_ids(init, p).len() && child_ids(init, p)[j] == c;
                    if last.parent == Some(p) {
                        assert(child_ids(snaps, p)[j] == c);
                    }
                } else {
                    assert(child_ids(snaps, p)[child_ids(snaps, p).len() - 1] == c);
                }
            }
        }
    }
}

/// Restoring a list of snapshots with distinct ids gives, under each id,
/// the record that its snapshot describes, listing as its children the
/// ids of the snapshots whose parent it is, in list order.
proof fn lemma_restored_graph(snaps: Seq<ExecNodeSnapshot>)
    requires
        forall|i: int, j: int| 0 <= i < j < snaps.len() ==> snaps[i].node_id != snaps[j].node_id,
    ensures
        forall|k: NodeId| #[trigger] restored_graph(snaps).contains_key(k) <==> exists|i: int| 0 <= i < snaps.len()
            && snaps[i].node_id == k,
        forall|i: int| 0 <= i < snaps.len() ==> restored_from(restored_graph(snaps)[#[trigger] snaps[i].node_id], snaps[i])
            && restored_graph(snaps)[snaps[i].node_id].children == child_ids(snaps, snaps[i].node_id),
{
    lemma_recorded_graph(snaps);
    let m = recorded_graph(snaps);
    lemma_link_children(m, snaps);
    assert forall|i: int| 0 <= i < snaps.len() implies restored_from(restored_graph(snaps)[#[trigger] snaps[i].node_id], snaps[i])
        && restored_graph(snaps)[snaps[i].node_id].children == child_ids(snaps, snaps[i].node_id) by {
        let k = snaps[i].node_id;
        assert(m.contains_key(k));
        let a = restored_graph(snaps)[k];
        let b = m[k];
        assert(ExecNodeView { children: Seq::empty(), ..a } == ExecNodeView { children: Seq::empty(), ..b });
        assert(a.id == b.id && a.parent == b.parent && a.task_type == b.task_type
            && a.params_snapshot == b.params_snapshot && a.input == b.input
            && a.terminal == b.terminal && a.output == b.output);
        assert(Seq::<NodeId>::empty() + child_ids(snaps, k) =~= child_ids(snaps, k));
    }
}

/// What a record reads after a checkpoint and a restore: the same id,
/// parent, params, task type (`"opaque"` when there were no params),
/// input (a JSON `null` when there was none), the same terminal state
/// (a completed task's output type, a failure's message), and a completed
/// task's output.
pub open spec fn survives_restore(before: ExecNodeView, after: ExecNodeView) -> bool {
    &&& after.id == before.id
    &&& after.parent == before.parent
    &&& after.params_snapshot == before.params_snapshot
    &&& after.task_type == (if before.params_snapshot is Some { before.task_type } else { opaque_text() })
    &&& after.input matches Some(v) && value_or_null(before.input, v)
    &&& match before.terminal {
        None => after.terminal is None && after.output is None,
        Some(TerminalView::Completed { output_type: _ }) => after.terminal == before.terminal
            && after.output == before.output,
        Some(TerminalView::Failed { message }) => after.terminal == Some(TerminalView::Failed { message })
            && after.output is None,
        Some(TerminalView::Cancelled) => after.terminal == Some(TerminalView::Cancelled) && after.output is None,
    }
}

/// Checkpoint then restore: rebuilding the execution graph from the
/// snapshots of every record of a graph, in whatever order they are listed,
/// gives back a graph with the same ids, under each id a record that
/// survived the round trip, and under each record as children exactly the
/// records whose parent it is (in the order of the list).
///
/// Records whose task type is literally `"opaque"` while they do carry
/// params are left out: their snapshot cannot be told from an opaque one.
pub proof fn law_checkpoint_restore(g: Map<NodeId, ExecNodeView>, snaps: Seq<ExecNodeSnapshot>)
    requires
        forall|i: int, j: int| 0 <= i < j < snaps.len() ==> snaps[i].node_id != snaps[j].node_id,
        forall|i: int| 0 <= i < snaps.len() ==> g.contains_key(#[trigger] snaps[i].node_id)
            && exec_snapshot_of(snaps[i], g[snaps[i].node_id]),
        forall|k: NodeId| #[trigger] g.contains_key(k) ==> exists|i: int| 0 <= i < snaps.len() && snaps[i].node_id == k,
        forall|k: NodeId| #[trigger] g.contains_key(k) && g[k].params_snapshot is Some ==> g[k].task_type
            != opaque_text(),
    ensures
        restored_graph(snaps).dom() == g.dom(),
        forall|k: NodeId| #[trigger] g.contains_key(k) ==> survives_restore(g[k], restored_graph(snaps)[k]),
        forall|k: NodeId| #[trigger] g.contains_key(k) ==> restored_graph(snaps)[k].children == child_ids(snaps, k),
        forall|k: NodeId, c: NodeId| g.contains_key(k) ==> (#[trigger] restored_graph(snaps)[k].children.contains(c)
            <==> g.contains_key(c) && g[c].parent == Some(k)),
{
    lemma_restored_graph(snaps);
    let r = restored_graph(snaps);
    assert(r.dom() =~= g.dom());
    assert forall|k: NodeId| #[trigger] g.contains_key(k) implies r[k].children == child_ids(snaps, k) by {
        let i = choose|i: int| 0 <= i < snaps.len() && snaps[i].node_id == k;
        assert(r[snaps[i].node_id].children == child_ids(snaps, snaps[i].node_id));
    }
    assert forall|k: NodeId, c: NodeId| g.contains_key(k) implies (#[trigger] r[k].children.contains(c)
        <==> g.contains_key(c) && g[c].parent == Some(k)) by {
        lemma_child_ids(snaps, k);
        if r[k].children.contains(c) {
            assert(child_ids(snaps, k).contains(c));
            let i = choose|i: int| 0 <= i < snaps.len() && snaps[i].node_id == c && snaps[i].parent == Some(k);
            assert(exec_snapshot_of(snaps[i], g[snaps[i].node_id]));
        }
        if g.contains_key(c) && g[c].parent == Some(k) {
            let i = choose|i: int| 0 <= i < snaps.len() && snaps[i].node_id == c;
            assert(exec_snapshot_of(snaps[i], g[snaps[i].node_id]));
            assert(snaps[i].node_id == c && snaps[i].parent == Some(k));
        }
    }
    assert forall|k: NodeId| #[trigger] g.contains_key(k) implies survives_restore(g[k], r[k]) by {
        let i = choose|i: int| 0 <= i < snaps.len() && snaps[i].node_id == k;
        let s = snaps[i];
        assert(restored_from(r[s.node_id], s));
        assert(exec_snapshot_of(s, g[k]));
    }
}

} // verus!
