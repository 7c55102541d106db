//! The bookkeeping of one spawned task, step by step.
//!
//! Spawning a task alternates outside work (running the task on an async
//! executor) with decisions about the frontier and the execution graph.
//! The decisions live here; the caller performs the work in between:
//!
//! 1. [`begin_spawn`] registers the task in the frontier and records it in
//!    the execution graph, before anything runs.
//! 2. [`start_node`] is called when the task is about to run: a cancelled
//!    runtime settles the task as cancelled, otherwise it is marked running.
//! 3. [`settle_run`] / [`settle_executor`] turn what the task (or its
//!    executor) returned into the task's outcome.
//! 4. [`finish_node`] records the outcome and takes the node out of the
//!    frontier.

use crate::cache::CacheKey;
use crate::error::{runtime_error_text, RuntimeError};
use crate::exec_graph::{adopt_record, spawn_record, with_record_input, with_record_output, with_terminal, ExecGraph, ExecNodeView, TerminalView};
use crate::frontier::{adopt, fresh_node, with_input, with_status, Frontier, NodeId, NodeStatus, TaskNodeView};
use serde_json::Value;
use vstd::prelude::*;
use vstd::string::*;

verus! {

/// Register a new task: a pending node in the frontier under a fresh id,
/// and a spawn record in the execution graph, both wired to `parent`. The
/// record carries the task's params snapshot, and both carry its serialized
/// input, when the task provides them.
pub fn begin_spawn<T>(
    frontier: &mut Frontier<T>,
    graph: &mut ExecGraph,
    task: T,
    task_kind: &str,
    params_snapshot: Option<Value>,
    input: Option<Value>,
    parent: Option<NodeId>,
) -> (id: NodeId)
    requires
        old(frontier).wf(),
        old(graph).wf(),
        old(frontier).next_id() < u64::MAX,
    ensures
        final(frontier).wf(),
        final(graph).wf(),
        id == old(frontier).next_id(),
        !old(frontier)@.contains_key(id),
        final(frontier).next_id() == old(frontier).next_id() + 1,
        final(frontier)@ == (match input {
            Some(v) => with_input(adopt(old(frontier)@.insert(id, fresh_node(id, task, parent)), parent, id), id, v),
            None => adopt(old(frontier)@.insert(id, fresh_node(id, task, parent)), parent, id),
        }),
        final(graph)@ == (match input {
            Some(v) => with_record_input(
                adopt_record(old(graph)@.insert(id, spawn_record(id, task_kind@, params_snapshot, parent)), parent, id),
                id,
                v,
            ),
            None => adopt_record(old(graph)@.insert(id, spawn_record(id, task_kind@, params_snapshot, parent)), parent, id),
        }),
{
    let id = frontier.register(task, parent);
    graph.record_spawn(id, task_kind, params_snapshot, parent);
    match input {
        Some(v) => {
            frontier.set_input(id, v.clone());
            graph.set_input(id, v);
        },
        None => {},
    }
    id
}

/// Decide what happens when task `id` is about to run.
///
/// When the runtime is cancelled the task is settled as cancelled: it leaves
/// the frontier, the graph records `Cancelled`, and the error to deliver is
/// returned. Otherwise the node is marked running and nothing is returned.
pub fn start_node<T>(
    frontier: &mut Frontier<T>,
    graph: &mut ExecGraph,
    id: NodeId,
    cancelled: bool,
) -> (r: Option<RuntimeError>)
    requires
        old(frontier).wf(),
        old(graph).wf(),
    ensures
        final(frontier).wf(),
        final(graph).wf(),
        final(frontier).next_id() == old(frontier).next_id(),
        cancelled ==> r == Some(RuntimeError::Cancelled)
            && final(frontier)@ == old(frontier)@.remove(id)
            && final(graph)@ == with_terminal(old(graph)@, id, TerminalView::Cancelled),
        !cancelled ==> r is None
            && final(frontier)@ == with_status(old(frontier)@, id, NodeStatus::Running)
            && final(graph)@ == old(graph)@,
{
    if cancelled {
        frontier.set_cancelled(id);
        frontier.remove(id);
        graph.set_cancelled(id);
        assert(final(frontier)@ =~= old(frontier)@.remove(id)) by {
            assert(with_status(old(frontier)@, id, NodeStatus::Cancelled).remove(id) =~= old(frontier)@.remove(id));
        }
        Some(RuntimeError::Cancelled)
    } else {
        frontier.set_running(id);
        None
    }
}

/// The outcome of a task run through its own `run`: the runtime's error
/// when the run could not happen, the task's error (by its message) as a
/// panic report, or the output.
pub fn settle_run<O>(result: Result<Result<O, String>, RuntimeError>) -> (r: Result<O, RuntimeError>)
    ensures
        r == match result {
            Ok(Ok(o)) => Ok(o),
            Ok(Err(msg)) => Err(RuntimeError::TaskPanicked(msg)),
            Err(e) => Err(e),
        },
{
    match result {
        Ok(Ok(o)) => Ok(o),
        Ok(Err(msg)) => Err(RuntimeError::TaskPanicked(msg)),
        Err(e) => Err(e),
    }
}

/// The outcome of a task run by a registered executor: the executor's error
/// (by its message) becomes a panic report.
pub fn settle_executor<O>(result: Result<O, String>) -> (r: Result<O, RuntimeError>)
    ensures
        r == match result {
            Ok(o) => Ok(o),
            Err(msg) => Err(RuntimeError::TaskPanicked(msg)),
        },
{
    match result {
        Ok(o) => Ok(o),
        Err(msg) => Err(RuntimeError::TaskPanicked(msg)),
    }
}

/// The name and params a spawn is recorded under: the task's own
/// description (stable name and params snapshot) when it has one, else
/// `fallback` (its Rust type name) and no params.
pub fn record_identity(info: Option<(&'static str, Value)>, fallback: &'static str) -> (r: (&'static str, Option<Value>))
    ensures
        match info {
            Some((name, params)) => r.0@ == name@ && r.1 == Some(params),
            None => r.0@ == fallback@ && r.1 is None,
        },
{
    match info {
        Some((name, params)) => (name, Some(params)),
        None => (fallback, None),
    }
}

/// The cache key of a spawn: present exactly when the runtime has a cache,
/// the task describes itself, and its input could be hashed; then made of
/// the task's stable name, its params and the input's hash.
pub fn cache_key_for(info: &Option<(&'static str, Value)>, caching: bool, input_hash: Option<u64>) -> (k: Option<CacheKey>)
    ensures
        k is Some <==> (caching && info is Some && input_hash is Some),
        k matches Some(key) ==> (info matches Some((name, params)) && key.task_type@ == name@
            && key.params == params && input_hash == Some(key.input_hash)),
{
    if !caching {
        return None;
    }
    match (info, input_hash) {
        (Some((name, params)), Some(h)) => Some(CacheKey::new(name, params.clone(), h)),
        _ => None,
    }
}

/// How a spawned task is carried out.
pub enum RunPlan<O> {
    /// The cache held the output: the task does not run.
    UseCached(O),
    /// A registered executor performs the task.
    Executor,
    /// The task runs itself.
    OwnRun,
}

/// Choose how a task is carried out: a cache hit wins, then a registered
/// executor, then the task's own `run`.
pub fn plan_run<O>(cached: Option<O>, has_executor: bool) -> (p: RunPlan<O>)
    ensures
        match cached {
            Some(o) => p == RunPlan::UseCached(o),
            None => if has_executor { p == RunPlan::<O>::Executor } else { p == RunPlan::<O>::OwnRun },
        },
{
    match cached {
        Some(o) => RunPlan::UseCached(o),
        None => if has_executor { RunPlan::Executor } else { RunPlan::OwnRun },
    }
}

/// Record the serialized output of task `id`, when there is one.
pub fn record_output(graph: &mut ExecGraph, id: NodeId, output: Option<Value>)
    requires
        old(graph).wf(),
    ensures
        final(graph).wf(),
        final(graph)@ == match output {
            Some(v) => with_record_output(old(graph)@, id, v),
            None => old(graph)@,
        },
{
    match output {
        Some(v) => graph.set_output(id, v),
        None => {},
    }
}

/// The text of the panic report for an output that could not be stored in
/// the cache as the task's output type.
pub open spec fn cache_type_error_text() -> Seq<char> {
    "cached output had an unexpected type"@
}

/// The outcome of a successful run once its output has been offered to the
/// cache: the fresh copy handed back by the stored entry, or, when the
/// output could not be stored as the task's output type, a panic report.
pub fn stored_outcome<O>(fresh: Option<O>) -> (r: Result<O, RuntimeError>)
    ensures
        match fresh {
            Some(o) => r == Ok::<O, RuntimeError>(o),
            None => r matches Err(RuntimeError::TaskPanicked(m)) && m@ == cache_type_error_text(),
        },
{
    match fresh {
        Some(o) => Ok(o),
        None => {
            let m = String::from_str("cached output had an unexpected type");
            proof {
                reveal_strlit("cached output had an unexpected type");
            }
            Err(RuntimeError::TaskPanicked(m))
        },
    }
}

/// The terminal state that the graph records for an outcome.
pub open spec fn outcome_terminal<O>(outcome: Result<O, RuntimeError>, output_type: Seq<char>) -> TerminalView {
    match outcome {
        Ok(_) => TerminalView::Completed { output_type },
        Err(e) => TerminalView::Failed { message: runtime_error_text(e) },
    }
}

/// Record the outcome of task `id`: the node leaves the frontier, the graph
/// records `Completed` (with `output_type`) or `Failed` (with the error's
/// message), and the outcome is handed back to be delivered.
pub fn finish_node<T, O>(
    frontier: &mut Frontier<T>,
    graph: &mut ExecGraph,
    id: NodeId,
    outcome: Result<O, RuntimeError>,
    output_type: &'static str,
) -> (r: Result<O, RuntimeError>)
    requires
        old(frontier).wf(),
        old(graph).wf(),
    ensures
        final(frontier).wf(),
        final(graph).wf(),
        final(frontier).next_id() == old(frontier).next_id(),
        r == outcome,
        final(frontier)@ == old(frontier)@.remove(id),
        final(graph)@ == with_terminal(old(graph)@, id, outcome_terminal(outcome, output_type@)),
{
    match outcome {
        Ok(o) => {
            frontier.set_completed(id);
            frontier.remove(id);
            graph.set_completed(id, output_type);
            assert(final(frontier)@ =~= old(frontier)@.remove(id)) by {
                assert(with_status(old(frontier)@, id, NodeStatus::Completed).remove(id) =~= old(frontier)@.remove(id));
            }
            Ok(o)
        },
        Err(e) => {
            let msg = e.message();
            let msg2 = msg.clone();
            frontier.set_failed(id, msg2);
            frontier.remove(id);
            graph.set_failed(id, msg.as_str());
            assert(final(frontier)@ =~= old(frontier)@.remove(id)) by {
                assert(with_status(old(frontier)@, id, NodeStatus::Failed(msg2)).remove(id) =~= old(frontier)@.remove(id));
            }
            Err(e)
        },
    }
}

/// Finishing a task records exactly its outcome: an `Ok` outcome as
/// `Completed` with the output type, any `Err` outcome (whatever the error)
/// as `Failed` carrying that error's message. The task's other fields and
/// every other record stay as they were.
pub proof fn law_finish_records_outcome<O>(
    g: Map<NodeId, ExecNodeView>,
    id: NodeId,
    outcome: Result<O, RuntimeError>,
    output_type: Seq<char>,
)
    requires
        g.contains_key(id),
    ensures
        with_terminal(g, id, outcome_terminal(outcome, output_type)).dom() == g.dom(),
        match outcome {
            Ok(_) => with_terminal(g, id, outcome_terminal(outcome, output_type))[id].terminal == Some(
                TerminalView::Completed { output_type },
            ),
            Err(e) => with_terminal(g, id, outcome_terminal(outcome, output_type))[id].terminal == Some(
                TerminalView::Failed { message: runtime_error_text(e) },
            ),
        },
        (with_terminal(g, id, outcome_terminal(outcome, output_type))[id].terminal matches Some(
            TerminalView::Completed { .. },
        )) <==> outcome is Ok,
        with_terminal(g, id, outcome_terminal(outcome, output_type))[id] == (ExecNodeView {
            terminal: with_terminal(g, id, outcome_terminal(outcome, output_type))[id].terminal,
            ..g[id]
        }),
        forall|k: NodeId| #[trigger] g.contains_key(k) && k != id ==> with_terminal(
            g,
            id,
            outcome_terminal(outcome, output_type),
        )[k] == g[k],
{
    assert(with_terminal(g, id, outcome_terminal(outcome, output_type)).dom() =~= g.dom());
}

/// A task that is spawned, started on a live runtime and finished leaves
/// the frontier as it found it, except that its parent (when the parent is
/// in the frontier) lists it among its children; the execution graph keeps
/// its spawn record, with its lineage, and the terminal state of its
/// outcome.
pub proof fn law_spawn_run_finish<T, O>(
    m: Map<NodeId, TaskNodeView<T>>,
    g: Map<NodeId, ExecNodeView>,
    id: NodeId,
    task: T,
    task_kind: Seq<char>,
    parent: Option<NodeId>,
    outcome: Result<O, RuntimeError>,
    output_type: Seq<char>,
)
    requires
        !m.contains_key(id),
        parent != Some(id),
    ensures
        with_status(adopt(m.insert(id, fresh_node(id, task, parent)), parent, id), id, NodeStatus::Running).remove(id)
            == adopt(m, parent, id),
        with_terminal(
            adopt_record(g.insert(id, spawn_record(id, task_kind, None, parent)), parent, id),
            id,
            outcome_terminal(outcome, output_type),
        )[id] == (ExecNodeView {
            terminal: Some(outcome_terminal(outcome, output_type)),
            ..spawn_record(id, task_kind, None, parent)
        }),
{
    let m1 = m.insert(id, fresh_node(id, task, parent));
    let m2 = adopt(m1, parent, id);
    assert(with_status(m2, id, NodeStatus::Running).remove(id) =~= adopt(m, parent, id));
}

} // verus!
