use std::sync::atomic::{AtomicBool, Ordering};
use std::sync::Arc;
use vstd::prelude::*;

verus! {

/// The handle that the owner of a listener keeps: the lifecycle flags that the
/// worker publishes and that any thread may read without taking the store's lock.
/// Other threads write these flags, so nothing is claimed here of the values read.
pub struct CPipeListener {
    /// Set once, when the credentials have been captured.
    pub is_unlocked: AtomicBool,
    /// Cleared once, when the session ends or the owner asks it to stop.
    pub running: Arc<AtomicBool>,
}

impl CPipeListener {
    /// A listener that is running and not yet unlocked.
    pub fn new() -> CPipeListener {
        CPipeListener { is_unlocked: AtomicBool::new(false), running: Arc::new(AtomicBool::new(true)) }
    }

    /// Reads the `running` flag, as the session's `Action::CheckRunning` asks.
    pub fn is_running(&self) -> bool {
        self.running.load(Ordering::SeqCst)
    }

    /// Carries out the session's `Action::Unlock`: clears `running`, then sets
    /// `is_unlocked`, in that order.
    pub fn publish_unlock(&self) {
        self.running.store(false, Ordering::SeqCst);
        self.is_unlocked.store(true, Ordering::SeqCst);
    }

    /// Asks the session to stop at its next check of `running`. A wait that is
    /// already under way (for a client, for a message) is not interrupted.
    pub fn request_stop(&self) {
        self.running.store(false, Ordering::SeqCst);
    }
}

} // verus!
