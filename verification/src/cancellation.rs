//! Cooperative cancellation token.
//!
//! Clone to share across tasks. Call [`CancellationToken::cancel`] from any
//! holder; check [`CancellationToken::is_cancelled`] in long-running work.

use std::sync::atomic::AtomicBool;
use std::sync::Arc;
use vstd::prelude::*;

verus! {

/// Token for cooperative cancellation.
///
/// Cheap to clone: all clones share the same underlying flag.
#[derive(Clone)]
pub struct CancellationToken {
    cancelled: Arc<AtomicBool>,
}

impl CancellationToken {
    /// Create a new, uncancelled token.
    pub fn new() -> (token: Self) {
        CancellationToken { cancelled: Arc::new(AtomicBool::new(false)) }
    }

    /// Signal cancellation. All clones observe the change.
    pub fn cancel(&self) {
        self.cancelled.store(true, std::sync::atomic::Ordering::SeqCst);
    }

    /// Returns `true` if cancellation has been signalled.
    pub fn is_cancelled(&self) -> (cancelled: bool) {
        self.cancelled.load(std::sync::atomic::Ordering::SeqCst)
    }

    /// Reset to uncancelled (for token reuse).
    pub fn reset(&self) {
        self.cancelled.store(false, std::sync::atomic::Ordering::SeqCst);
    }
}

} // verus!
