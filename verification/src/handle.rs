//! What awaiting a spawned task's handle yields.
//!
//! A handle receives the task's result over a one-shot channel. The
//! receiving end sees either a delivered result or a closed channel.

use crate::error::RuntimeError;
use vstd::prelude::*;

verus! {

/// Turn what a handle received into what awaiting it yields: a delivered
/// output or runtime error as is (so a cancelled run yields `Cancelled`, a
/// mistyped input `InputTypeMismatch`, a missing executor `NoExecutor`),
/// and a closed channel (the runtime shut down or the task was dropped) as
/// `Cancelled`.
pub fn resolve_delivery<O>(received: Option<Result<O, RuntimeError>>) -> (r: Result<O, RuntimeError>)
    ensures
        r == match received {
            Some(delivered) => delivered,
            None => Err(RuntimeError::Cancelled),
        },
{
    match received {
        Some(delivered) => delivered,
        None => Err(RuntimeError::Cancelled),
    }
}

} // verus!
