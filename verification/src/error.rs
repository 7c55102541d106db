//! Error types for the nanites runtime.

use crate::text::{debug_quoted, quoted};
use std::any::TypeId;
use vstd::prelude::*;
use vstd::string::*;

verus! {

/// `std::any::TypeId`, carried as an opaque value.
#[verifier::external_type_specification]
#[verifier::external_body]
pub struct ExTypeId(TypeId);

/// What `format!("{:?}", t)` renders for a type id.
pub uninterp spec fn type_id_text(t: TypeId) -> Seq<char>;

/// Render a type id as its `Debug` form does.
///
/// Trusted: the result is `type_id_text` of the argument; the text itself
/// is std's and not stated here.
#[verifier::external_body]
pub(crate) fn type_id_debug(t: TypeId) -> (r: String)
    ensures
        r@ == type_id_text(t),
{
    format!("{:?}", t)
}

/// Errors that can occur at runtime (distinct from task-level errors).
#[derive(Debug)]
pub enum RuntimeError {
    /// The input value had the wrong concrete type.
    InputTypeMismatch {
        /// TypeId the task expected.
        expected: TypeId,
        /// TypeId that was actually provided.
        got: TypeId,
    },
    /// A task panic or join error.
    TaskPanicked(String),
    /// Execution was cancelled.
    Cancelled,
    /// The task produced output of an unexpected type (internal invariant violation).
    OutputTypeMismatch {
        /// TypeId the caller expected.
        expected: TypeId,
        /// TypeId produced by the task.
        got: TypeId,
    },
    /// An I/O task was spawned but no executor is registered for its type.
    NoExecutor(&'static str),
}

/// The human-readable message of a runtime error.
pub open spec fn runtime_error_text(e: RuntimeError) -> Seq<char> {
    match e {
        RuntimeError::InputTypeMismatch { expected, got } =>
            "input type mismatch: expected "@ + type_id_text(expected) + ", got "@ + type_id_text(got),
        RuntimeError::TaskPanicked(msg) => "task panicked: "@ + msg@,
        RuntimeError::Cancelled => "execution cancelled"@,
        RuntimeError::OutputTypeMismatch { expected, got } =>
            "output type mismatch: expected "@ + type_id_text(expected) + ", got "@ + type_id_text(got),
        RuntimeError::NoExecutor(name) =>
            "no executor registered for I/O task "@ + debug_quoted(name@)
                + "; call Runtime::register_executor before spawning the task"@,
    }
}

fn mismatch_text(prefix: &str, expected: TypeId, got: TypeId) -> (s: String)
    ensures
        s@ == prefix@ + "expected "@ + type_id_text(expected) + ", got "@ + type_id_text(got),
{
    let mut s = String::from_str(prefix);
    s.append("expected ");
    s.append(type_id_debug(expected).as_str());
    s.append(", got ");
    s.append(type_id_debug(got).as_str());
    s
}

impl RuntimeError {
    /// The error's message, as shown to users.
    pub fn message(&self) -> (s: String)
        ensures
            s@ == runtime_error_text(*self),
    {
        match self {
            RuntimeError::InputTypeMismatch { expected, got } => {
                let s = mismatch_text("input type mismatch: ", *expected, *got);
                proof {
                    reveal_strlit("input type mismatch: ");
                    reveal_strlit("input type mismatch: expected ");
                    reveal_strlit("expected ");
                    assert("input type mismatch: "@ + "expected "@ =~= "input type mismatch: expected "@);
                }
                s
            },
            RuntimeError::TaskPanicked(msg) => {
                let mut s = String::from_str("task panicked: ");
                s.append(msg.as_str());
                s
            },
            RuntimeError::Cancelled => String::from_str("execution cancelled"),
            RuntimeError::OutputTypeMismatch { expected, got } => {
                let s = mismatch_text("output type mismatch: ", *expected, *got);
                proof {
                    reveal_strlit("output type mismatch: ");
                    reveal_strlit("output type mismatch: expected ");
                    reveal_strlit("expected ");
                    assert("output type mismatch: "@ + "expected "@ =~= "output type mismatch: expected "@);
                }
                s
            },
            RuntimeError::NoExecutor(name) => {
                let mut s = String::from_str("no executor registered for I/O task ");
                s.append(quoted(name).as_str());
                s.append("; call Runtime::register_executor before spawning the task");
                s
            },
        }
    }
}

} // verus!
