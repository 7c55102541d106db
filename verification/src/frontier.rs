//! The frontier: the live, manipulable tree of pending tasks.
//!
//! Every spawned task is registered as a [`TaskNode`] in the frontier before
//! execution begins, with its parent recorded on the node and the node's id
//! appended to its parent's `children`. Nodes leave the frontier when they
//! reach a terminal state; the execution graph keeps the full record.
//!
//! The frontier is generic over the task value it stores: it never looks at
//! a task, it only carries it.

use serde_json::Value;
use std::collections::HashMap;
use vstd::prelude::*;

verus! {

/// Unique identifier for a node in the frontier tree.
pub type NodeId = u64;

/// Lifecycle state of a frontier node.
#[derive(Debug, Clone, PartialEq, Eq)]
pub enum NodeStatus {
    /// Registered but not yet executing.
    Pending,
    /// Currently executing.
    Running,
    /// Completed successfully.
    Completed,
    /// Completed with an error.
    Failed(String),
    /// Cancelled before or during execution.
    Cancelled,
}

/// A single node in the frontier tree.
#[derive(Debug, Clone)]
pub struct TaskNode<T> {
    /// Unique id for this node.
    pub id: NodeId,
    /// The task that will be / is being executed.
    pub task: T,
    /// Parent node, if any (root nodes have `None`).
    pub parent: Option<NodeId>,
    /// Child nodes the task spawned so far.
    pub children: Vec<NodeId>,
    /// Current execution status.
    pub status: NodeStatus,
    /// The task's input as JSON, when it could be serialized.
    pub input: Option<Value>,
}

/// The mathematical content of a [`TaskNode`].
pub struct TaskNodeView<T> {
    pub id: NodeId,
    pub task: T,
    pub parent: Option<NodeId>,
    pub children: Seq<NodeId>,
    pub status: NodeStatus,
    pub input: Option<Value>,
}

impl<T> View for TaskNode<T> {
    type V = TaskNodeView<T>;

    open spec fn view(&self) -> TaskNodeView<T> {
        TaskNodeView {
            id: self.id,
            task: self.task,
            parent: self.parent,
            children: self.children@,
            status: self.status,
            input: self.input,
        }
    }
}

/// The fresh node that `register` inserts.
pub open spec fn fresh_node<T>(id: NodeId, task: T, parent: Option<NodeId>) -> TaskNodeView<T> {
    TaskNodeView { id, task, parent, children: Seq::empty(), status: NodeStatus::Pending, input: None }
}

/// `m` with `child` appended to the children of `parent`, when `parent`
/// names a node of `m`; `m` itself otherwise.
pub open spec fn adopt<T>(
    m: Map<NodeId, TaskNodeView<T>>,
    parent: Option<NodeId>,
    child: NodeId,
) -> Map<NodeId, TaskNodeView<T>> {
    match parent {
        Some(p) => if m.contains_key(p) {
            m.insert(p, TaskNodeView { children: m[p].children.push(child), ..m[p] })
        } else {
            m
        },
        None => m,
    }
}

/// `m` with the status of node `id` set to `s`, when `id` is present.
pub open spec fn with_status<T>(
    m: Map<NodeId, TaskNodeView<T>>,
    id: NodeId,
    s: NodeStatus,
) -> Map<NodeId, TaskNodeView<T>> {
    if m.contains_key(id) {
        m.insert(id, TaskNodeView { status: s, ..m[id] })
    } else {
        m
    }
}

/// `n` is a snapshot of `v`: every field equal, the task a clone.
pub open spec fn node_snapshot_of<T: Clone>(n: TaskNode<T>, v: TaskNodeView<T>) -> bool {
    &&& n.id == v.id
    &&& n.parent == v.parent
    &&& n.children@ == v.children
    &&& n.status == v.status
    &&& n.input == v.input
    &&& cloned(v.task, n.task)
}

/// `m` with the task of node `id` replaced by `task`, when `id` is present
/// and still pending.
pub open spec fn with_task<T>(
    m: Map<NodeId, TaskNodeView<T>>,
    id: NodeId,
    task: T,
) -> Map<NodeId, TaskNodeView<T>> {
    if m.contains_key(id) && m[id].status == NodeStatus::Pending {
        m.insert(id, TaskNodeView { task, ..m[id] })
    } else {
        m
    }
}

/// `m` with the input of node `id` set to `input`, when `id` is present.
pub open spec fn with_input<T>(
    m: Map<NodeId, TaskNodeView<T>>,
    id: NodeId,
    input: Value,
) -> Map<NodeId, TaskNodeView<T>> {
    if m.contains_key(id) {
        m.insert(id, TaskNodeView { input: Some(input), ..m[id] })
    } else {
        m
    }
}

/// A copy of a node status.
pub fn copy_status(s: &NodeStatus) -> (r: NodeStatus)
    ensures
        r == *s,
{
    match s {
        NodeStatus::Pending => NodeStatus::Pending,
        NodeStatus::Running => NodeStatus::Running,
        NodeStatus::Completed => NodeStatus::Completed,
        NodeStatus::Failed(m) => NodeStatus::Failed(m.clone()),
        NodeStatus::Cancelled => NodeStatus::Cancelled,
    }
}

/// A copy of an optional JSON value.
pub fn copy_json(v: &Option<Value>) -> (r: Option<Value>)
    ensures
        r == *v,
{
    match v {
        Some(x) => Some(x.clone()),
        None => None,
    }
}

/// The live task tree.
///
/// Nodes are kept in a map keyed by id; `order` lists the ids present in
/// the order they were registered, so that snapshots come out in that order.
pub struct Frontier<T> {
    nodes: HashMap<NodeId, TaskNode<T>>,
    order: Vec<NodeId>,
    next_id: NodeId,
}

impl<T> View for Frontier<T> {
    type V = Map<NodeId, TaskNodeView<T>>;

    closed spec fn view(&self) -> Map<NodeId, TaskNodeView<T>> {
        self.nodes@.map_values(|n: TaskNode<T>| n@)
    }
}

/// Registering a node under a parent that is in the frontier keeps the
/// parent's earlier children and appends the new id after them; the parent
/// is otherwise unchanged, the new node is pending with the given parent and
/// no children (but itself, when it names its own id as parent), and every
/// other node stays as it was. Under a parent that
/// is not in the frontier (or none), only the new node is added.
pub proof fn law_register_appends_child<T>(
    m: Map<NodeId, TaskNodeView<T>>,
    id: NodeId,
    task: T,
    parent: Option<NodeId>,
)
    requires
        !m.contains_key(id),
    ensures
        adopt(m.insert(id, fresh_node(id, task, parent)), parent, id).dom() == m.dom().insert(id),
        adopt(m.insert(id, fresh_node(id, task, parent)), parent, id)[id] == (TaskNodeView {
            id,
            task,
            parent,
            children: if parent == Some(id) { seq![id] } else { Seq::empty() },
            status: NodeStatus::Pending,
            input: None,
        }),
        forall|p: NodeId| #[trigger] m.contains_key(p) && parent == Some(p) ==> adopt(
            m.insert(id, fresh_node(id, task, parent)),
            parent,
            id,
        )[p] == (TaskNodeView { children: m[p].children.push(id), ..m[p] }),
        forall|k: NodeId| #[trigger] m.contains_key(k) && parent != Some(k) ==> adopt(
            m.insert(id, fresh_node(id, task, parent)),
            parent,
            id,
        )[k] == m[k],
{
    assert(adopt(m.insert(id, fresh_node(id, task, parent)), parent, id).dom() =~= m.dom().insert(id));
}

/// Each update of the frontier touches one field of one node: setting a
/// status changes only that node's status, setting an input only its input
/// (to `Some`), and replacing a task only its task, and only while the node
/// is still pending. The set of nodes is unchanged, as is every other node;
/// an update of an id that is not in the frontier changes nothing.
pub proof fn law_frontier_updates_touch_one_node<T>(
    m: Map<NodeId, TaskNodeView<T>>,
    id: NodeId,
    s: NodeStatus,
    input: Value,
    task: T,
)
    ensures
        with_status(m, id, s).dom() == m.dom(),
        with_input(m, id, input).dom() == m.dom(),
        with_task(m, id, task).dom() == m.dom(),
        m.contains_key(id) ==> with_status(m, id, s)[id] == (TaskNodeView { status: s, ..m[id] }),
        m.contains_key(id) ==> with_input(m, id, input)[id] == (TaskNodeView { input: Some(input), ..m[id] }),
        m.contains_key(id) ==> with_task(m, id, task)[id] == (if m[id].status == NodeStatus::Pending {
            TaskNodeView { task, ..m[id] }
        } else {
            m[id]
        }),
        forall|k: NodeId| #[trigger] m.contains_key(k) && k != id ==> with_status(m, id, s)[k] == m[k]
            && with_input(m, id, input)[k] == m[k] && with_task(m, id, task)[k] == m[k],
        !m.contains_key(id) ==> with_status(m, id, s) == m && with_input(m, id, input) == m && with_task(m, id, task)
            == m,
{
    assert(with_status(m, id, s).dom() =~= m.dom());
    assert(with_input(m, id, input).dom() =~= m.dom());
    assert(with_task(m, id, task).dom() =~= m.dom());
}

/// Copy a list of node ids.
pub fn copy_ids(ids: &Vec<NodeId>) -> (r: Vec<NodeId>)
    ensures
        r@ == ids@,
{
    let mut r: Vec<NodeId> = Vec::new();
    let mut i: usize = 0;
    while i < ids.len()
        invariant
            i <= ids.len(),
            r@ == ids@.subrange(0, i as int),
        decreases ids.len() - i,
    {
        r.push(ids[i]);
        i += 1;
        assert(r@ =~= ids@.subrange(0, i as int));
    }
    assert(r@ =~= ids@);
    r
}

/// Position of `id` in `ids`, if it occurs.
pub fn position_of(ids: &Vec<NodeId>, id: NodeId) -> (r: Option<usize>)
    ensures
        match r {
            Some(i) => i < ids@.len() && ids@[i as int] == id,
            None => !ids@.contains(id),
        },
{
    let mut i: usize = 0;
    while i < ids.len()
        invariant
            i <= ids.len(),
            forall|j: int| 0 <= j < i ==> ids@[j] != id,
        decreases ids.len() - i,
    {
        if ids[i] == id {
            return Some(i);
        }
        i += 1;
    }
    None
}

impl<T> Frontier<T> {
    /// Well-formedness: every node is stored under its own id, every id is
    /// below the next id to hand out, and `order` lists each stored id once.
    pub closed spec fn wf(&self) -> bool {
        &&& forall|k: NodeId| #[trigger] self.nodes@.contains_key(k) ==> self.nodes@[k].id == k && k < self.next_id
        &&& self.order@.no_duplicates()
        &&& forall|i: int| 0 <= i < self.order@.len() ==> self.nodes@.contains_key(#[trigger] self.order@[i])
        &&& forall|k: NodeId| #[trigger] self.nodes@.contains_key(k) ==> self.order@.contains(k)
    }

    /// The id that the next `register` hands out.
    pub closed spec fn next_id(&self) -> nat {
        self.next_id as nat
    }

    proof fn lemma_view(&self)
        ensures
            forall|k: NodeId| #[trigger] self@.contains_key(k) <==> self.nodes@.contains_key(k),
            forall|k: NodeId| self.nodes@.contains_key(k) ==> #[trigger] self@[k] == self.nodes@[k]@,
    {
    }

    /// The nodes of the frontier form a finite map.
    pub proof fn lemma_view_finite(&self)
        ensures
            self@.dom().finite(),
    {
        broadcast use vstd::std_specs::hash::group_hash_axioms;
        assert(self.nodes@.dom() =~= self@.dom());
    }

    proof fn lemma_order_len(&self)
        requires
            self.wf(),
        ensures
            self.order@.len() == self@.dom().len(),
    {
        broadcast use vstd::std_specs::hash::group_hash_axioms;
        let s = self.order@.to_set();
        assert(s =~= self@.dom());
        self.order@.unique_seq_to_set();
    }

    /// The id that the next `register` hands out.
    pub fn peek_next_id(&self) -> (n: NodeId)
        ensures
            n == self.next_id(),
    {
        self.next_id
    }

    /// Create an empty frontier.
    pub fn new() -> (f: Self)
        ensures
            f.wf(),
            f@ == Map::<NodeId, TaskNodeView<T>>::empty(),
            f.next_id() == 0,
    {
        let f = Frontier { nodes: HashMap::new(), order: Vec::new(), next_id: 0 };
        assert(f@ =~= Map::<NodeId, TaskNodeView<T>>::empty());
        f
    }

    /// Create an empty frontier whose first registered node gets
    /// `first_id`, so that ids already used elsewhere (a restored execution
    /// graph) are not handed out again.
    pub fn starting_at(first_id: u64) -> (f: Self)
        ensures
            f.wf(),
            f@ == Map::<NodeId, TaskNodeView<T>>::empty(),
            f.next_id() == first_id,
    {
        let f = Frontier { nodes: HashMap::new(), order: Vec::new(), next_id: first_id };
        assert(f@ =~= Map::<NodeId, TaskNodeView<T>>::empty());
        f
    }

    /// Register a new task node and return its id.
    ///
    /// The new node is pending, has no children, and records `parent`; when
    /// `parent` names a node in the frontier, the new id is appended to that
    /// node's `children`.
    pub fn register(&mut self, task: T, parent: Option<NodeId>) -> (id: NodeId)
        requires
            old(self).wf(),
            old(self).next_id() < u64::MAX,
        ensures
            final(self).wf(),
            id == old(self).next_id(),
            !old(self)@.contains_key(id),
            final(self).next_id() == old(self).next_id() + 1,
            final(self)@ == adopt(old(self)@.insert(id, fresh_node(id, task, parent)), parent, id),
    {
        broadcast use vstd::std_specs::hash::group_hash_axioms;
        let ghost old_view = self@;
        let id = self.next_id;
        self.next_id = self.next_id + 1;
        let node = TaskNode {
            id,
            task,
            parent,
            children: Vec::new(),
            status: NodeStatus::Pending,
            input: None,
        };
        proof {
            self.lemma_view();
        }
        self.nodes.insert(id, node);
        self.order.push(id);
        let ghost mid_view = old_view.insert(id, fresh_node(id, task, parent));
        assert(self@ =~= mid_view);
        match parent {
            Some(pid) => {
                match self.nodes.remove(&pid) {
                    Some(mut p) => {
                        p.children.push(id);
                        self.nodes.insert(pid, p);
                        assert(self@ =~= adopt(mid_view, parent, id));
                    },
                    None => {
                        assert(self@ =~= adopt(mid_view, parent, id));
                    },
                }
            },
            None => {},
        }
        assert(!old(self).order@.contains(id)) by {
            if old(self).order@.contains(id) {
                let j = choose|j: int| 0 <= j < old(self).order@.len() && old(self).order@[j] == id;
                assert(old(self).nodes@.contains_key(old(self).order@[j]));
            }
        }
        assert(self.order@ == old(self).order@.push(id));
        assert forall|k: NodeId| #[trigger] self.nodes@.contains_key(k) implies self.nodes@[k].id == k
            && k < self.next_id && self.order@.contains(k) by {
            if k != id {
                assert(old(self).nodes@.contains_key(k));
                assert(old(self).order@.contains(k));
                let j = choose|j: int| 0 <= j < old(self).order@.len() && old(self).order@[j] == k;
                assert(self.order@[j] == k);
            } else {
                assert(self.order@[self.order@.len() - 1] == k);
            }
        }
        assert forall|i: int| 0 <= i < self.order@.len() implies self.nodes@.contains_key(#[trigger] self.order@[i]) by {
            if i < old(self).order@.len() {
                assert(old(self).nodes@.contains_key(old(self).order@[i]));
            }
        }
        id
    }

    /// Put `n` back under its own id after it was taken out; the map is then
    /// the old map with `n` at that id.
    fn reinsert(&mut self, n: TaskNode<T>, Ghost(before): Ghost<Self>)
        requires
            before.wf(),
            before.nodes@.contains_key(n.id),
            old(self).nodes@ == before.nodes@.remove(n.id),
            old(self).order == before.order,
            old(self).next_id == before.next_id,
        ensures
            final(self).wf(),
            final(self)@ == before@.insert(n.id, n@),
            final(self).next_id == before.next_id,
    {
        broadcast use vstd::std_specs::hash::group_hash_axioms;
        let id = n.id;
        self.nodes.insert(id, n);
        assert(self.nodes@ =~= before.nodes@.insert(id, n));
        assert(self@ =~= before@.insert(id, n@));
        assert forall|k: NodeId| #[trigger] self.nodes@.contains_key(k) implies self.nodes@[k].id == k
            && k < self.next_id && self.order@.contains(k) by {
            assert(before.nodes@.contains_key(k));
        }
        assert forall|i: int| 0 <= i < self.order@.len() implies self.nodes@.contains_key(#[trigger] self.order@[i]) by {
            assert(before.nodes@.contains_key(before.order@[i]));
        }
    }

    fn update_status(&mut self, id: NodeId, s: NodeStatus)
        requires
            old(self).wf(),
        ensures
            final(self).wf(),
            final(self)@ == with_status(old(self)@, id, s),
            final(self).next_id() == old(self).next_id(),
    {
        broadcast use vstd::std_specs::hash::group_hash_axioms;
        let ghost before = *self;
        match self.nodes.remove(&id) {
            Some(mut n) => {
                n.status = s;
                self.reinsert(n, Ghost(before));
                assert(self@ =~= with_status(before@, id, s));
            },
            None => {
                assert(self@ =~= with_status(before@, id, s));
            },
        }
    }

    /// Mark a node as running.
    pub fn set_running(&mut self, id: NodeId)
        requires
            old(self).wf(),
        ensures
            final(self).wf(),
            final(self)@ == with_status(old(self)@, id, NodeStatus::Running),
            final(self).next_id() == old(self).next_id(),
    {
        self.update_status(id, NodeStatus::Running)
    }

    /// Mark a node as completed.
    pub fn set_completed(&mut self, id: NodeId)
        requires
            old(self).wf(),
        ensures
            final(self).wf(),
            final(self)@ == with_status(old(self)@, id, NodeStatus::Completed),
            final(self).next_id() == old(self).next_id(),
    {
        self.update_status(id, NodeStatus::Completed)
    }

    /// Mark a node as failed with the given message.
    pub fn set_failed(&mut self, id: NodeId, msg: String)
        requires
            old(self).wf(),
        ensures
            final(self).wf(),
            final(self)@ == with_status(old(self)@, id, NodeStatus::Failed(msg)),
            final(self).next_id() == old(self).next_id(),
    {
        self.update_status(id, NodeStatus::Failed(msg))
    }

    /// Mark a node as cancelled.
    pub fn set_cancelled(&mut self, id: NodeId)
        requires
            old(self).wf(),
        ensures
            final(self).wf(),
            final(self)@ == with_status(old(self)@, id, NodeStatus::Cancelled),
            final(self).next_id() == old(self).next_id(),
    {
        self.update_status(id, NodeStatus::Cancelled)
    }

    /// Record the serialized input of a node.
    pub fn set_input(&mut self, id: NodeId, input: Value)
        requires
            old(self).wf(),
        ensures
            final(self).wf(),
            final(self)@ == with_input(old(self)@, id, input),
            final(self).next_id() == old(self).next_id(),
    {
        broadcast use vstd::std_specs::hash::group_hash_axioms;
        let ghost before = *self;
        match self.nodes.remove(&id) {
            Some(mut n) => {
                n.input = Some(input);
                self.reinsert(n, Ghost(before));
                assert(self@ =~= with_input(before@, id, input));
            },
            None => {
                assert(self@ =~= with_input(before@, id, input));
            },
        }
    }

    /// Replace the task on a pending node (used by scaffolds to transform
    /// tasks before execution). Has no effect unless the node is present
    /// and pending.
    pub fn replace_task(&mut self, id: NodeId, task: T)
        requires
            old(self).wf(),
        ensures
            final(self).wf(),
            final(self)@ == with_task(old(self)@, id, task),
            final(self).next_id() == old(self).next_id(),
    {
        broadcast use vstd::std_specs::hash::group_hash_axioms;
        let ghost before = *self;
        match self.nodes.remove(&id) {
            Some(mut n) => {
                let pending = match n.status {
                    NodeStatus::Pending => true,
                    _ => false,
                };
                if pending {
                    n.task = task;
                }
                self.reinsert(n, Ghost(before));
                assert(self@ =~= with_task(before@, id, task));
            },
            None => {
                assert(self@ =~= with_task(before@, id, task));
            },
        }
    }

    /// Remove a node (after it reached a terminal state, for memory hygiene).
    pub fn remove(&mut self, id: NodeId)
        requires
            old(self).wf(),
        ensures
            final(self).wf(),
            final(self)@ == old(self)@.remove(id),
            final(self).next_id() == old(self).next_id(),
    {
        broadcast use vstd::std_specs::hash::group_hash_axioms;
        let ghost before = *self;
        let _ = self.nodes.remove(&id);
        assert(self@ =~= before@.remove(id));
        match position_of(&self.order, id) {
            Some(i) => {
                self.order.remove(i);
                assert forall|k: NodeId| #[trigger] self.nodes@.contains_key(k) implies self.order@.contains(k) by {
                    assert(before.order@.contains(k));
                    let j = choose|j: int| 0 <= j < before.order@.len() && before.order@[j] == k;
                    if j < i {
                        assert(self.order@[j] == k);
                    } else {
                        assert(j != i);
                        assert(self.order@[j - 1] == k);
                    }
                }
                assert forall|a: int, b: int| 0 <= a < b < self.order@.len() implies self.order@[a] != self.order@[b] by {
                    let a0 = if a < i { a } else { a + 1 };
                    let b0 = if b < i { b } else { b + 1 };
                    assert(self.order@[a] == before.order@[a0]);
                    assert(self.order@[b] == before.order@[b0]);
                }
                assert forall|j: int| 0 <= j < self.order@.len() implies self.nodes@.contains_key(#[trigger] self.order@[j]) by {
                    let j0 = if j < i { j } else { j + 1 };
                    assert(self.order@[j] == before.order@[j0]);
                    assert(before.nodes@.contains_key(before.order@[j0]));
                    assert(before.order@[j0] != id);
                }
            },
            None => {
                assert forall|j: int| 0 <= j < self.order@.len() implies self.nodes@.contains_key(#[trigger] self.order@[j]) by {
                    assert(before.nodes@.contains_key(before.order@[j]));
                }
            },
        }
    }

    /// Number of nodes currently tracked.
    pub fn len(&self) -> (n: usize)
        requires
            self.wf(),
        ensures
            n == self@.len(),
    {
        broadcast use vstd::std_specs::hash::group_hash_axioms;
        proof {
            assert(self.nodes@.dom() =~= self@.dom());
        }
        self.nodes.len()
    }

    /// Returns `true` if the frontier has no nodes.
    pub fn is_empty(&self) -> (b: bool)
        requires
            self.wf(),
        ensures
            b == (self@.len() == 0),
    {
        self.len() == 0
    }
}

impl<T: Clone> Frontier<T> {
    fn copy_node(n: &TaskNode<T>) -> (r: TaskNode<T>)
        ensures
            node_snapshot_of(r, n@),
    {
        TaskNode {
            id: n.id,
            task: n.task.clone(),
            parent: n.parent,
            children: copy_ids(&n.children),
            status: copy_status(&n.status),
            input: copy_json(&n.input),
        }
    }

    /// Get a snapshot of a node.
    pub fn get(&self, id: NodeId) -> (r: Option<TaskNode<T>>)
        requires
            self.wf(),
        ensures
            match r {
                Some(n) => self@.contains_key(id) && node_snapshot_of(n, self@[id]),
                None => !self@.contains_key(id),
            },
    {
        broadcast use vstd::std_specs::hash::group_hash_axioms;
        match self.nodes.get(&id) {
            Some(n) => Some(Self::copy_node(n)),
            None => None,
        }
    }

    /// Get a snapshot of all nodes, in the order they were registered.
    pub fn snapshot(&self) -> (r: Vec<TaskNode<T>>)
        requires
            self.wf(),
        ensures
            r@.len() == self@.len(),
            forall|i: int| 0 <= i < r@.len() ==> self@.contains_key(#[trigger] r@[i].id)
                && node_snapshot_of(r@[i], self@[r@[i].id]),
            forall|i: int, j: int| 0 <= i < j < r@.len() ==> r@[i].id != r@[j].id,
            forall|k: NodeId| #[trigger] self@.contains_key(k) ==> exists|i: int| 0 <= i < r@.len() && r@[i].id == k,
    {
        broadcast use vstd::std_specs::hash::group_hash_axioms;
        proof {
            self.lemma_order_len();
        }
        let mut r: Vec<TaskNode<T>> = Vec::new();
        let mut i: usize = 0;
        while i < self.order.len()
            invariant
                self.wf(),
                i <= self.order@.len(),
                r@.len() == i,
                forall|j: int| 0 <= j < i ==> #[trigger] r@[j].id == self.order@[j],
                forall|j: int| 0 <= j < i ==> self@.contains_key(#[trigger] r@[j].id)
                    && node_snapshot_of(r@[j], self@[r@[j].id]),
            decreases self.order@.len() - i,
        {
            let id = self.order[i];
            assert(self.nodes@.contains_key(self.order@[i as int]));
            match self.nodes.get(&id) {
                Some(n) => {
                    r.push(Self::copy_node(n));
                },
                None => {
                    assert(false);
                },
            }
            i += 1;
        }
        proof {
            assert forall|a: int, b: int| 0 <= a < b < r@.len() implies r@[a].id != r@[b].id by {
                assert(r@[a].id == self.order@[a]);
                assert(r@[b].id == self.order@[b]);
            }
            assert forall|k: NodeId| #[trigger] self@.contains_key(k) implies exists|i: int| 0 <= i < r@.len() && r@[i].id == k by {
                assert(self.nodes@.contains_key(k));
                assert(self.order@.contains(k));
                let p = choose|p: int| 0 <= p < self.order@.len() && self.order@[p] == k;
                assert(r@[p].id == k);
            }
        }
        r
    }
}

impl<T> Default for Frontier<T> {
    fn default() -> (f: Self)
        ensures
            f.wf(),
            f@ == Map::<NodeId, TaskNodeView<T>>::empty(),
            f.next_id() == 0,
    {
        Self::new()
    }
}

} // verus!
