//! Execution graph: the monotonically-growing audit log of all spawned tasks.
//!
//! The [`Frontier`](crate::frontier::Frontier) tracks pending tasks only; it
//! shrinks as tasks complete. The [`ExecGraph`] records every task that was
//! ever spawned, its parent-child lineage, its params snapshot (when the
//! task could describe itself as JSON), and its terminal state. Entries are
//! never removed.

use crate::frontier::{copy_ids, copy_json, NodeId};
use serde_json::Value;
use std::collections::HashMap;
use vstd::prelude::*;
use vstd::string::*;

verus! {

/// The resolved outcome of a task.
#[derive(Debug, Clone, PartialEq, Eq)]
pub enum TerminalState {
    /// Task produced a value. Carries the Rust type name of the output type.
    Completed {
        /// `std::any::type_name` of the output type.
        output_type: String,
    },
    /// Task returned an error.
    Failed {
        /// Display string of the error.
        message: String,
    },
    /// Task was cancelled before producing a value.
    Cancelled,
}

/// The mathematical content of a [`TerminalState`].
pub enum TerminalView {
    Completed { output_type: Seq<char> },
    Failed { message: Seq<char> },
    Cancelled,
}

impl View for TerminalState {
    type V = TerminalView;

    open spec fn view(&self) -> TerminalView {
        match self {
            TerminalState::Completed { output_type } => TerminalView::Completed { output_type: output_type@ },
            TerminalState::Failed { message } => TerminalView::Failed { message: message@ },
            TerminalState::Cancelled => TerminalView::Cancelled,
        }
    }
}

/// The view of an optional terminal state.
pub open spec fn terminal_view(t: Option<TerminalState>) -> Option<TerminalView> {
    match t {
        Some(s) => Some(s@),
        None => None,
    }
}

/// A single record in the execution graph.
#[derive(Debug, Clone)]
pub struct ExecNode {
    /// Unique identifier (same space as [`NodeId`] in the frontier).
    pub id: NodeId,
    /// Task type name at spawn time.
    pub task_type: String,
    /// Params snapshot at spawn time, when the task could describe itself.
    pub params_snapshot: Option<Value>,
    /// Parent node id, if the task was spawned by another one.
    pub parent: Option<NodeId>,
    /// All child nodes the task spawned.
    pub children: Vec<NodeId>,
    /// Terminal state, set when the task finishes; `None` while running.
    pub terminal: Option<TerminalState>,
    /// The task's input as JSON, when it could be serialized.
    pub input: Option<Value>,
    /// The task's output as JSON, when it could be serialized.
    pub output: Option<Value>,
}

/// The mathematical content of an [`ExecNode`].
pub struct ExecNodeView {
    pub id: NodeId,
    pub task_type: Seq<char>,
    pub params_snapshot: Option<Value>,
    pub parent: Option<NodeId>,
    pub children: Seq<NodeId>,
    pub terminal: Option<TerminalView>,
    pub input: Option<Value>,
    pub output: Option<Value>,
}

impl View for ExecNode {
    type V = ExecNodeView;

    open spec fn view(&self) -> ExecNodeView {
        ExecNodeView {
            id: self.id,
            task_type: self.task_type@,
            params_snapshot: self.params_snapshot,
            parent: self.parent,
            children: self.children@,
            terminal: terminal_view(self.terminal),
            input: self.input,
            output: self.output,
        }
    }
}

/// The record that `record_spawn` writes.
pub open spec fn spawn_record(
    id: NodeId,
    task_type: Seq<char>,
    params_snapshot: Option<Value>,
    parent: Option<NodeId>,
) -> ExecNodeView {
    ExecNodeView {
        id,
        task_type,
        params_snapshot,
        parent,
        children: Seq::empty(),
        terminal: None,
        input: None,
        output: None,
    }
}

/// `m` with `child` appended to the children of `parent`, when `parent`
/// names a record of `m`; `m` itself otherwise.
pub open spec fn adopt_record(
    m: Map<NodeId, ExecNodeView>,
    parent: Option<NodeId>,
    child: NodeId,
) -> Map<NodeId, ExecNodeView> {
    match parent {
        Some(p) => if m.contains_key(p) {
            m.insert(p, ExecNodeView { children: m[p].children.push(child), ..m[p] })
        } else {
            m
        },
        None => m,
    }
}

/// `m` with the terminal state of `id` set to `t`, when `id` is present.
pub open spec fn with_terminal(
    m: Map<NodeId, ExecNodeView>,
    id: NodeId,
    t: TerminalView,
) -> Map<NodeId, ExecNodeView> {
    if m.contains_key(id) {
        m.insert(id, ExecNodeView { terminal: Some(t), ..m[id] })
    } else {
        m
    }
}

/// `m` with the input of `id` set to `v`, when `id` is present.
pub open spec fn with_record_input(
    m: Map<NodeId, ExecNodeView>,
    id: NodeId,
    v: Value,
) -> Map<NodeId, ExecNodeView> {
    if m.contains_key(id) {
        m.insert(id, ExecNodeView { input: Some(v), ..m[id] })
    } else {
        m
    }
}

/// `m` with the output of `id` set to `v`, when `id` is present.
pub open spec fn with_record_output(
    m: Map<NodeId, ExecNodeView>,
    id: NodeId,
    v: Value,
) -> Map<NodeId, ExecNodeView> {
    if m.contains_key(id) {
        m.insert(id, ExecNodeView { output: Some(v), ..m[id] })
    } else {
        m
    }
}

/// Which records a query selects.
pub enum NodeQuery {
    /// Records whose terminal state is `Completed`.
    Completed,
    /// Records whose terminal state is `Failed`.
    Failed,
    /// Records with no terminal state yet.
    Running,
}

/// Whether a record with terminal state `t` is selected by `q`.
pub open spec fn selects(q: NodeQuery, t: Option<TerminalView>) -> bool {
    match q {
        NodeQuery::Completed => t matches Some(TerminalView::Completed { .. }),
        NodeQuery::Failed => t matches Some(TerminalView::Failed { .. }),
        NodeQuery::Running => t is None,
    }
}

/// `r` lists, once each, exactly the records of `m` that `q` selects.
pub open spec fn lists_selected(r: Seq<ExecNode>, m: Map<NodeId, ExecNodeView>, q: NodeQuery) -> bool {
    &&& forall|i: int| 0 <= i < r.len() ==> m.contains_key(#[trigger] r[i].id) && r[i]@ == m[r[i].id]
        && selects(q, m[r[i].id].terminal)
    &&& forall|i: int, j: int| 0 <= i < j < r.len() ==> r[i].id != r[j].id
    &&& forall|k: NodeId| #[trigger] m.contains_key(k) && selects(q, m[k].terminal) ==>
        exists|i: int| 0 <= i < r.len() && r[i].id == k
}

/// A copy of a terminal state.
pub fn copy_terminal(t: &Option<TerminalState>) -> (r: Option<TerminalState>)
    ensures
        r == *t,
{
    match t {
        Some(TerminalState::Completed { output_type }) => Some(TerminalState::Completed { output_type: output_type.clone() }),
        Some(TerminalState::Failed { message }) => Some(TerminalState::Failed { message: message.clone() }),
        Some(TerminalState::Cancelled) => Some(TerminalState::Cancelled),
        None => None,
    }
}

/// A copy of an execution record.
pub fn copy_record(n: &ExecNode) -> (r: ExecNode)
    ensures
        r@ == n@,
{
    ExecNode {
        id: n.id,
        task_type: n.task_type.clone(),
        params_snapshot: copy_json(&n.params_snapshot),
        parent: n.parent,
        children: copy_ids(&n.children),
        terminal: copy_terminal(&n.terminal),
        input: copy_json(&n.input),
        output: copy_json(&n.output),
    }
}

/// Monotonically-growing audit log of all spawned tasks.
///
/// Records are kept in a map keyed by id; `order` lists the ids present in
/// the order they were first recorded.
pub struct ExecGraph {
    nodes: HashMap<NodeId, ExecNode>,
    order: Vec<NodeId>,
}

impl View for ExecGraph {
    type V = Map<NodeId, ExecNodeView>;

    closed spec fn view(&self) -> Map<NodeId, ExecNodeView> {
        self.nodes@.map_values(|n: ExecNode| n@)
    }
}

impl ExecGraph {
    /// Well-formedness: every record is stored under its own id and `order`
    /// lists each stored id once.
    pub closed spec fn wf(&self) -> bool {
        &&& forall|k: NodeId| #[trigger] self.nodes@.contains_key(k) ==> self.nodes@[k].id == k
        &&& self.order@.no_duplicates()
        &&& forall|i: int| 0 <= i < self.order@.len() ==> self.nodes@.contains_key(#[trigger] self.order@[i])
        &&& forall|k: NodeId| #[trigger] self.nodes@.contains_key(k) ==> self.order@.contains(k)
    }

    proof fn lemma_order_len(&self)
        requires
            self.wf(),
        ensures
            self.order@.len() == self@.dom().len(),
    {
        broadcast use vstd::std_specs::hash::group_hash_axioms;
        let s = self.order@.to_set();
        assert(s =~= self@.dom());
        self.order@.unique_seq_to_set();
    }

    /// Create an empty execution graph.
    pub fn new() -> (g: Self)
        ensures
            g.wf(),
            g@ == Map::<NodeId, ExecNodeView>::empty(),
    {
        let g = ExecGraph { nodes: HashMap::new(), order: Vec::new() };
        assert(g@ =~= Map::<NodeId, ExecNodeView>::empty());
        g
    }

    /// The records of the graph form a finite map.
    pub proof fn lemma_view_finite(&self)
        ensures
            self@.dom().finite(),
    {
        broadcast use vstd::std_specs::hash::group_hash_axioms;
        assert(self.nodes@.dom() =~= self@.dom());
    }

    /// Record a newly spawned task.
    ///
    /// The record under `id` becomes a fresh record (replacing any earlier
    /// one under the same id); when `parent` names a record, `id` is
    /// appended to that record's `children`.
    pub fn record_spawn(
        &mut self,
        id: NodeId,
        task_type: &str,
        params_snapshot: Option<Value>,
        parent: Option<NodeId>,
    )
        requires
            old(self).wf(),
        ensures
            final(self).wf(),
            final(self)@ == adopt_record(
                old(self)@.insert(id, spawn_record(id, task_type@, params_snapshot, parent)),
                parent,
                id,
            ),
    {
        self.put_record(id, task_type, params_snapshot, parent);
        self.adopt_child(parent, id);
    }

    /// Write a fresh record under `id` (replacing any earlier one), with
    /// `parent` as its parent but without listing it among the parent's
    /// children.
    pub(crate) fn put_record(
        &mut self,
        id: NodeId,
        task_type: &str,
        params_snapshot: Option<Value>,
        parent: Option<NodeId>,
    )
        requires
            old(self).wf(),
        ensures
            final(self).wf(),
            final(self)@ == old(self)@.insert(id, spawn_record(id, task_type@, params_snapshot, parent)),
    {
        broadcast use vstd::std_specs::hash::group_hash_axioms;
        let ghost before = *self;
        let node = ExecNode {
            id,
            task_type: String::from_str(task_type),
            params_snapshot,
            parent,
            children: Vec::new(),
            terminal: None,
            input: None,
            output: None,
        };
        let was_present = self.nodes.contains_key(&id);
        self.nodes.insert(id, node);
        if !was_present {
            self.order.push(id);
        }
        assert(self@ =~= before@.insert(id, spawn_record(id, task_type@, params_snapshot, parent)));
        if !was_present {
            assert(!before.order@.contains(id));
            assert(self.order@ == before.order@.push(id));
            assert(self.order@[self.order@.len() - 1] == id);
        }
        assert forall|k: NodeId| #[trigger] self.nodes@.contains_key(k) implies self.order@.contains(k) by {
            if k != id || was_present {
                assert(before.order@.contains(k));
                let j = choose|j: int| 0 <= j < before.order@.len() && before.order@[j] == k;
                assert(self.order@[j] == k);
            } else {
                assert(self.order@[self.order@.len() - 1] == k);
            }
        }
        assert forall|i: int| 0 <= i < self.order@.len() implies self.nodes@.contains_key(#[trigger] self.order@[i]) by {
            if i < before.order@.len() {
                assert(before.nodes@.contains_key(before.order@[i]));
            }
        }
    }

    /// When `parent` names a record, append `id` to that record's
    /// `children`.
    pub(crate) fn adopt_child(&mut self, parent: Option<NodeId>, id: NodeId)
        requires
            old(self).wf(),
        ensures
            final(self).wf(),
            final(self)@ == adopt_record(old(self)@, parent, id),
    {
        broadcast use vstd::std_specs::hash::group_hash_axioms;
        let ghost before = *self;
        match parent {
            Some(pid) => {
                match self.nodes.remove(&pid) {
                    Some(mut p) => {
                        p.children.push(id);
                        self.reinsert(p, Ghost(before));
                        assert(self@ =~= adopt_record(before@, parent, id));
                    },
                    None => {
                        assert(self@ =~= adopt_record(before@, parent, id));
                    },
                }
            },
            None => {},
        }
    }

    /// Put `n` back under its own id after it was taken out.
    fn reinsert(&mut self, n: ExecNode, Ghost(before): Ghost<Self>)
        requires
            before.wf(),
            before.nodes@.contains_key(n.id),
            old(self).nodes@ == before.nodes@.remove(n.id),
            old(self).order == before.order,
        ensures
            final(self).wf(),
            final(self)@ == before@.insert(n.id, n@),
    {
        broadcast use vstd::std_specs::hash::group_hash_axioms;
        let id = n.id;
        self.nodes.insert(id, n);
        assert(self.nodes@ =~= before.nodes@.insert(id, n));
        assert(self@ =~= before@.insert(id, n@));
        assert forall|k: NodeId| #[trigger] self.nodes@.contains_key(k) implies self.nodes@[k].id == k
            && self.order@.contains(k) by {
            assert(before.nodes@.contains_key(k));
        }
        assert forall|i: int| 0 <= i < self.order@.len() implies self.nodes@.contains_key(#[trigger] self.order@[i]) by {
            assert(before.nodes@.contains_key(before.order@[i]));
        }
    }

    fn update_terminal(&mut self, id: NodeId, t: TerminalState)
        requires
            old(self).wf(),
        ensures
            final(self).wf(),
            final(self)@ == with_terminal(old(self)@, id, t@),
    {
        broadcast use vstd::std_specs::hash::group_hash_axioms;
        let ghost before = *self;
        let ghost tv = t@;
        match self.nodes.remove(&id) {
            Some(mut n) => {
                n.terminal = Some(t);
                self.reinsert(n, Ghost(before));
                assert(self@ =~= with_terminal(before@, id, tv));
            },
            None => {
                assert(self@ =~= with_terminal(before@, id, tv));
            },
        }
    }

    /// Mark a node as completed; `output_type` names the output type.
    pub fn set_completed(&mut self, id: NodeId, output_type: &str)
        requires
            old(self).wf(),
        ensures
            final(self).wf(),
            final(self)@ == with_terminal(old(self)@, id, TerminalView::Completed { output_type: output_type@ }),
    {
        self.update_terminal(id, TerminalState::Completed { output_type: String::from_str(output_type) })
    }

    /// Mark a node as failed with the given message.
    pub fn set_failed(&mut self, id: NodeId, message: &str)
        requires
            old(self).wf(),
        ensures
            final(self).wf(),
            final(self)@ == with_terminal(old(self)@, id, TerminalView::Failed { message: message@ }),
    {
        self.update_terminal(id, TerminalState::Failed { message: String::from_str(message) })
    }

    /// Mark a node as cancelled.
    pub fn set_cancelled(&mut self, id: NodeId)
        requires
            old(self).wf(),
        ensures
            final(self).wf(),
            final(self)@ == with_terminal(old(self)@, id, TerminalView::Cancelled),
    {
        self.update_terminal(id, TerminalState::Cancelled)
    }

    /// Record the serialized input of a node.
    pub fn set_input(&mut self, id: NodeId, v: Value)
        requires
            old(self).wf(),
        ensures
            final(self).wf(),
            final(self)@ == with_record_input(old(self)@, id, v),
    {
        broadcast use vstd::std_specs::hash::group_hash_axioms;
        let ghost before = *self;
        match self.nodes.remove(&id) {
            Some(mut n) => {
                n.input = Some(v);
                self.reinsert(n, Ghost(before));
                assert(self@ =~= with_record_input(before@, id, v));
            },
            None => {
                assert(self@ =~= with_record_input(before@, id, v));
            },
        }
    }

    /// Record the serialized output of a node.
    pub fn set_output(&mut self, id: NodeId, v: Value)
        requires
            old(self).wf(),
        ensures
            final(self).wf(),
            final(self)@ == with_record_output(old(self)@, id, v),
    {
        broadcast use vstd::std_specs::hash::group_hash_axioms;
        let ghost before = *self;
        match self.nodes.remove(&id) {
            Some(mut n) => {
                n.output = Some(v);
                self.reinsert(n, Ghost(before));
                assert(self@ =~= with_record_output(before@, id, v));
            },
            None => {
                assert(self@ =~= with_record_output(before@, id, v));
            },
        }
    }

    /// Get a snapshot of a single node.
    pub fn get(&self, id: NodeId) -> (r: Option<ExecNode>)
        requires
            self.wf(),
        ensures
            match r {
                Some(n) => self@.contains_key(id) && n@ == self@[id],
                None => !self@.contains_key(id),
            },
    {
        broadcast use vstd::std_specs::hash::group_hash_axioms;
        match self.nodes.get(&id) {
            Some(n) => Some(copy_record(n)),
            None => None,
        }
    }

    /// Get the children of a node (empty when the node is unknown).
    pub fn get_children(&self, id: NodeId) -> (r: Vec<NodeId>)
        requires
            self.wf(),
        ensures
            r@ == (if self@.contains_key(id) { self@[id].children } else { Seq::empty() }),
    {
        broadcast use vstd::std_specs::hash::group_hash_axioms;
        match self.nodes.get(&id) {
            Some(n) => copy_ids(&n.children),
            None => Vec::new(),
        }
    }

    /// Get snapshots of all nodes, in the order they were first recorded.
    pub fn snapshot(&self) -> (r: Vec<ExecNode>)
        requires
            self.wf(),
        ensures
            r@.len() == self@.len(),
            forall|i: int| 0 <= i < r@.len() ==> self@.contains_key(#[trigger] r@[i].id) && r@[i]@ == self@[r@[i].id],
            forall|i: int, j: int| 0 <= i < j < r@.len() ==> r@[i].id != r@[j].id,
            forall|k: NodeId| #[trigger] self@.contains_key(k) ==> exists|i: int| 0 <= i < r@.len() && r@[i].id == k,
    {
        broadcast use vstd::std_specs::hash::group_hash_axioms;
        proof {
            self.lemma_order_len();
        }
        let mut r: Vec<ExecNode> = Vec::new();
        let mut i: usize = 0;
        while i < self.order.len()
            invariant
                self.wf(),
                i <= self.order@.len(),
                r@.len() == i,
                forall|j: int| 0 <= j < i ==> #[trigger] r@[j].id == self.order@[j],
                forall|j: int| 0 <= j < i ==> self@.contains_key(#[trigger] r@[j].id) && r@[j]@ == self@[r@[j].id],
            decreases self.order@.len() - i,
        {
            let id = self.order[i];
            assert(self.nodes@.contains_key(self.order@[i as int]));
            match self.nodes.get(&id) {
                Some(n) => {
                    r.push(copy_record(n));
                },
                None => {
                    assert(false);
                },
            }
            i += 1;
        }
        proof {
            assert forall|a: int, b: int| 0 <= a < b < r@.len() implies r@[a].id != r@[b].id by {
                assert(r@[a].id == self.order@[a]);
                assert(r@[b].id == self.order@[b]);
            }
            assert forall|k: NodeId| #[trigger] self@.contains_key(k) implies exists|i: int| 0 <= i < r@.len() && r@[i].id == k by {
                assert(self.nodes@.contains_key(k));
                assert(self.order@.contains(k));
                let p = choose|p: int| 0 <= p < self.order@.len() && self.order@[p] == k;
                assert(r@[p].id == k);
            }
        }
        r
    }

    fn select(&self, q: NodeQuery) -> (r: Vec<ExecNode>)
        requires
            self.wf(),
        ensures
            lists_selected(r@, self@, q),
    {
        broadcast use vstd::std_specs::hash::group_hash_axioms;
        let mut r: Vec<ExecNode> = Vec::new();
        let mut i: usize = 0;
        let ghost mut idx: Seq<int> = Seq::empty();
        while i < self.order.len()
            invariant
                self.wf(),
                i <= self.order@.len(),
                idx.len() == r@.len(),
                forall|j: int| 0 <= j < idx.len() ==> 0 <= #[trigger] idx[j] < i && r@[j].id == self.order@[idx[j]],
                forall|a: int, b: int| 0 <= a < b < idx.len() ==> idx[a] < idx[b],
                forall|j: int| 0 <= j < r@.len() ==> self@.contains_key(#[trigger] r@[j].id) && r@[j]@ == self@[r@[j].id]
                    && selects(q, self@[r@[j].id].terminal),
                forall|p: int| 0 <= p < i && selects(q, self@[self.order@[p]].terminal) ==>
                    exists|j: int| 0 <= j < r@.len() && #[trigger] r@[j].id == self.order@[p],
            decreases self.order@.len() - i,
        {
            let id = self.order[i];
            let ghost old_r = r@;
            assert(self.nodes@.contains_key(self.order@[i as int]));
            match self.nodes.get(&id) {
                Some(n) => {
                    let keep = match (&n.terminal, &q) {
                        (Some(TerminalState::Completed { .. }), NodeQuery::Completed) => true,
                        (Some(TerminalState::Failed { .. }), NodeQuery::Failed) => true,
                        (None, NodeQuery::Running) => true,
                        _ => false,
                    };
                    if keep {
                        r.push(copy_record(n));
                        proof {
                            idx = idx.push(i as int);
                            assert(r@[r@.len() - 1].id == self.order@[i as int]);
                        }
                    }
                },
                None => {
                    assert(false);
                },
            }
            proof {
                assert forall|p: int| 0 <= p < i + 1 && selects(q, self@[self.order@[p]].terminal) implies
                    exists|j: int| 0 <= j < r@.len() && #[trigger] r@[j].id == self.order@[p] by {
                    if p < i {
                        let j = choose|j: int| 0 <= j < old_r.len() && #[trigger] old_r[j].id == self.order@[p];
                        assert(r@[j] == old_r[j]);
                    } else {
                        assert(r@[r@.len() - 1].id == self.order@[p]);
                    }
                }
            }
            i += 1;
        }
        proof {
            assert forall|a: int, b: int| 0 <= a < b < r@.len() implies r@[a].id != r@[b].id by {
                assert(r@[a].id == self.order@[idx[a]]);
                assert(r@[b].id == self.order@[idx[b]]);
            }
            assert forall|k: NodeId| #[trigger] self@.contains_key(k) && selects(q, self@[k].terminal) implies
                exists|j: int| 0 <= j < r@.len() && r@[j].id == k by {
                assert(self.order@.contains(k));
                let p = choose|p: int| 0 <= p < self.order@.len() && self.order@[p] == k;
                assert(selects(q, self@[self.order@[p]].terminal));
            }
        }
        r
    }

    /// All nodes that completed successfully.
    pub fn completed_nodes(&self) -> (r: Vec<ExecNode>)
        requires
            self.wf(),
        ensures
            lists_selected(r@, self@, NodeQuery::Completed),
    {
        self.select(NodeQuery::Completed)
    }

    /// All nodes that failed.
    pub fn failed_nodes(&self) -> (r: Vec<ExecNode>)
        requires
            self.wf(),
        ensures
            lists_selected(r@, self@, NodeQuery::Failed),
    {
        self.select(NodeQuery::Failed)
    }

    /// All nodes that are still running (no terminal state recorded yet).
    pub fn running_nodes(&self) -> (r: Vec<ExecNode>)
        requires
            self.wf(),
        ensures
            lists_selected(r@, self@, NodeQuery::Running),
    {
        self.select(NodeQuery::Running)
    }

    /// Total number of nodes ever recorded.
    pub fn len(&self) -> (n: usize)
        requires
            self.wf(),
        ensures
            n == self@.len(),
    {
        broadcast use vstd::std_specs::hash::group_hash_axioms;
        proof {
            assert(self.nodes@.dom() =~= self@.dom());
        }
        self.nodes.len()
    }

    /// Returns `true` if no tasks have been recorded.
    pub fn is_empty(&self) -> (b: bool)
        requires
            self.wf(),
        ensures
            b == (self@.len() == 0),
    {
        self.len() == 0
    }
}



/// The execution graph only grows: recording a spawn keeps every record id
/// and adds the new one (so a fresh id raises the record count by one, and
/// no recording lowers it), and setting a terminal state, an input or an
/// output keeps the set of ids as it is. No operation removes a record.
pub proof fn law_graph_only_grows(
    m: Map<NodeId, ExecNodeView>,
    id: NodeId,
    task_type: Seq<char>,
    params_snapshot: Option<Value>,
    parent: Option<NodeId>,
    t: TerminalView,
    v: Value,
)
    requires
        m.dom().finite(),
    ensures
        adopt_record(m.insert(id, spawn_record(id, task_type, params_snapshot, parent)), parent, id).dom()
            == m.dom().insert(id),
        adopt_record(m.insert(id, spawn_record(id, task_type, params_snapshot, parent)), parent, id).len()
            == if m.contains_key(id) { m.len() } else { m.len() + 1 },
        with_terminal(m, id, t).dom() == m.dom(),
        with_record_input(m, id, v).dom() == m.dom(),
        with_record_output(m, id, v).dom() == m.dom(),
{
    assert(adopt_record(m.insert(id, spawn_record(id, task_type, params_snapshot, parent)), parent, id).dom()
        =~= m.dom().insert(id));
    assert(with_terminal(m, id, t).dom() =~= m.dom());
    assert(with_record_input(m, id, v).dom() =~= m.dom());
    assert(with_record_output(m, id, v).dom() =~= m.dom());
}

/// Each query lists exactly the records in the matching state, once each:
/// the completed query the records whose terminal state is `Completed`, the
/// failed query those whose terminal state is `Failed`, the running query
/// those with no terminal state. A record in any other state (a cancelled
/// one, say) is in none of the three lists.
pub proof fn law_queries_select_by_state(
    m: Map<NodeId, ExecNodeView>,
    completed: Seq<ExecNode>,
    failed: Seq<ExecNode>,
    running: Seq<ExecNode>,
)
    requires
        lists_selected(completed, m, NodeQuery::Completed),
        lists_selected(failed, m, NodeQuery::Failed),
        lists_selected(running, m, NodeQuery::Running),
    ensures
        forall|i: int| 0 <= i < completed.len() ==> m.contains_key(#[trigger] completed[i].id)
            && (m[completed[i].id].terminal matches Some(TerminalView::Completed { .. }))
            && (completed[i].terminal matches Some(TerminalState::Completed { .. })),
        forall|i: int| 0 <= i < failed.len() ==> m.contains_key(#[trigger] failed[i].id)
            && (m[failed[i].id].terminal matches Some(TerminalView::Failed { .. }))
            && (failed[i].terminal matches Some(TerminalState::Failed { .. })),
        forall|i: int| 0 <= i < running.len() ==> m.contains_key(#[trigger] running[i].id)
            && m[running[i].id].terminal is None && running[i].terminal is None,
        forall|k: NodeId| #[trigger] m.contains_key(k) && (m[k].terminal matches Some(TerminalView::Completed { .. }))
            ==> exists|i: int| 0 <= i < completed.len() && completed[i].id == k,
        forall|k: NodeId| #[trigger] m.contains_key(k) && (m[k].terminal matches Some(TerminalView::Failed { .. }))
            ==> exists|i: int| 0 <= i < failed.len() && failed[i].id == k,
        forall|k: NodeId| #[trigger] m.contains_key(k) && m[k].terminal is None
            ==> exists|i: int| 0 <= i < running.len() && running[i].id == k,
        forall|i: int, j: int| 0 <= i < j < completed.len() ==> completed[i].id != completed[j].id,
{
    assert forall|i: int| 0 <= i < completed.len() implies m.contains_key(#[trigger] completed[i].id)
        && (m[completed[i].id].terminal matches Some(TerminalView::Completed { .. }))
        && (completed[i].terminal matches Some(TerminalState::Completed { .. })) by {
        assert(completed[i]@ == m[completed[i].id]);
    }
    assert forall|i: int| 0 <= i < failed.len() implies m.contains_key(#[trigger] failed[i].id)
        && (m[failed[i].id].terminal matches Some(TerminalView::Failed { .. }))
        && (failed[i].terminal matches Some(TerminalState::Failed { .. })) by {
        assert(failed[i]@ == m[failed[i].id]);
    }
    assert forall|i: int| 0 <= i < running.len() implies m.contains_key(#[trigger] running[i].id)
        && m[running[i].id].terminal is None && running[i].terminal is None by {
        assert(running[i]@ == m[running[i].id]);
    }
}

/// Recording a spawn under a fresh id adds one record, with the given task
/// type, params and parent, no children, no terminal state, input or
/// output; the parent's record, when present, keeps its earlier children
/// and gets the new id appended after them, and every other record stays
/// as it was. Setting a terminal state, an input or an output changes only
/// that field of that one record.
pub proof fn law_record_spawn_and_updates(
    m: Map<NodeId, ExecNodeView>,
    id: NodeId,
    task_type: Seq<char>,
    params_snapshot: Option<Value>,
    parent: Option<NodeId>,
    t: TerminalView,
    v: Value,
)
    requires
        !m.contains_key(id),
    ensures
        adopt_record(m.insert(id, spawn_record(id, task_type, params_snapshot, parent)), parent, id)[id] == (
        ExecNodeView {
            id,
            task_type,
            params_snapshot,
            parent,
            children: if parent == Some(id) { seq![id] } else { Seq::empty() },
            terminal: None,
            input: None,
            output: None,
        }),
        forall|p: NodeId| #[trigger] m.contains_key(p) && parent == Some(p) ==> adopt_record(
            m.insert(id, spawn_record(id, task_type, params_snapshot, parent)),
            parent,
            id,
        )[p] == (ExecNodeView { children: m[p].children.push(id), ..m[p] }),
        forall|k: NodeId| #[trigger] m.contains_key(k) && parent != Some(k) ==> adopt_record(
            m.insert(id, spawn_record(id, task_type, params_snapshot, parent)),
            parent,
            id,
        )[k] == m[k],
        forall|k: NodeId| #[trigger] m.contains_key(k) ==> with_terminal(m, k, t)[k] == (ExecNodeView {
            terminal: Some(t),
            ..m[k]
        }) && with_record_input(m, k, v)[k] == (ExecNodeView { input: Some(v), ..m[k] }) && with_record_output(
            m,
            k,
            v,
        )[k] == (ExecNodeView { output: Some(v), ..m[k] }),
        forall|k: NodeId, j: NodeId| #[trigger] m.contains_key(k) && #[trigger] m.contains_key(j) && k != j
            ==> with_terminal(m, j, t)[k] == m[k] && with_record_input(m, j, v)[k] == m[k]
            && with_record_output(m, j, v)[k] == m[k],
{
}

impl Default for ExecGraph {
    fn default() -> (g: Self)
        ensures
            g.wf(),
            g@ == Map::<NodeId, ExecNodeView>::empty(),
    {
        Self::new()
    }
}

} // verus!
