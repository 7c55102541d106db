//! Type identity and the wrapper for I/O tasks.
//!
//! I/O tasks carry only configuration and are executed by a registered
//! executor; [`ErasedIoTask`] holds one behind a shared pointer.

use std::any::TypeId;
use std::fmt;
use std::sync::Arc;
use vstd::prelude::*;

verus! {

/// Type identity for a task's input and output.
#[derive(Debug, Clone, Copy, PartialEq, Eq)]
pub struct TaskTypes {
    /// `TypeId` of the task's input type.
    pub input: TypeId,
    /// `TypeId` of the task's output type.
    pub output: TypeId,
}

/// Marker trait for tasks that require an external executor.
///
/// I/O tasks carry only configuration (model name, endpoint URL, etc.); a
/// registered executor performs them.
pub trait IoTask: Send + Sync + fmt::Debug + Clone + 'static {
    /// The input value the task consumes.
    type Input: Send + 'static;
    /// The value produced on success.
    type Output: Send + 'static;
}

/// Wrapper that holds an [`IoTask`] for the runtime.
pub struct ErasedIoTask<T> {
    inner: Arc<T>,
}

impl<T> ErasedIoTask<T> {
    /// The wrapped task.
    pub closed spec fn task(&self) -> T {
        *self.inner
    }

    /// Wrap an I/O task.
    pub fn new(task: T) -> (r: Self)
        ensures
            r.task() == task,
    {
        ErasedIoTask { inner: Arc::new(task) }
    }

    /// The wrapped task's configuration.
    pub fn task_ref(&self) -> (r: &T)
        ensures
            *r == self.task(),
    {
        &*self.inner
    }

    /// Another handle to the same wrapped task.
    pub fn share(&self) -> (r: Self)
        ensures
            r.task() == self.task(),
    {
        ErasedIoTask { inner: Arc::clone(&self.inner) }
    }
}

} // verus!
