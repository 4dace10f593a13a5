//! Counts reported by an immediate shutdown.
use vstd::prelude::*;

verus! {

/// What an immediate shutdown found and did.
#[derive(Debug, Clone, Copy, PartialEq, Eq, Structural)]
pub struct ShutdownReport {
    /// Tasks that were waiting in the queue.
    pub queued: usize,
    /// Tasks that workers were running.
    pub running: usize,
    /// Queued tasks that were cancelled.
    pub cancelled: usize,
}

impl ShutdownReport {
    /// Creates a report from its three counts.
    pub fn new(queued: usize, running: usize, cancelled: usize) -> (report: Self)
        ensures
            report == (ShutdownReport { queued, running, cancelled }),
    {
        ShutdownReport { queued, running, cancelled }
    }
}

} // verus!
