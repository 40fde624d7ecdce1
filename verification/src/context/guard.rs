//! The guard: a signal of shutdown that every holder can read and that,
//! once given, stays given.

use vstd::prelude::*;
use std::sync::Arc;
use std::sync::atomic::AtomicBool;
use crate::utils::shared::share;

verus! {

/// A shared signal of shutdown. Every copy of a guard reads and gives the
/// same signal. There is no way to take the signal back.
pub struct Guard {
    cancelled: Arc<AtomicBool>,
}

impl Guard {
    /// The signal that the guard shares with its copies.
    pub closed spec fn signal(&self) -> Arc<AtomicBool> {
        self.cancelled
    }

    /// A guard whose signal has not been given.
    pub fn new() -> Guard {
        Guard { cancelled: Arc::new(AtomicBool::new(false)) }
    }

    /// Gives the signal, for every holder of a copy. Giving it again
    /// changes nothing.
    pub fn cancel(&self) {
        self.cancelled.store(true, std::sync::atomic::Ordering::SeqCst);
    }

    /// Whether the signal has been given. The answer depends on what the
    /// other holders have done, so nothing is promised of it.
    pub fn is_cancelled(&self) -> bool {
        self.cancelled.load(std::sync::atomic::Ordering::SeqCst)
    }
}

impl Clone for Guard {
    /// A copy that shares the signal.
    fn clone(&self) -> (copy: Self)
        ensures
            copy == *self,
    {
        Guard { cancelled: share(&self.cancelled) }
    }
}

} // verus!
