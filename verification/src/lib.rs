//! nanites — a verified task-orchestration substrate.
//!
//! The bookkeeping that decides what happens to a task (its place in the
//! live frontier, its record in the execution graph, retry and refinement
//! decisions, checkpoint snapshots, the task registry, chat prompt assembly)
//! lives here with its contracts. Driving tasks on an async executor is left
//! to the caller.

pub mod cancellation;
pub mod json;
pub mod frontier;
pub mod exec_graph;
pub mod text;
pub mod error;
pub mod lifecycle;
pub mod combinators;
pub mod handle;
pub mod dyn_task;
pub mod turn;
pub mod completion;
pub mod chat;
pub mod registry;
pub mod checkpoint;
pub mod cache;
