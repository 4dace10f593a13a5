//! Why an executor service refused a task.
use vstd::prelude::*;

verus! {

/// Error returned when an executor service refuses to accept a task.
///
/// It concerns acceptance only; an accepted task reports its own outcome
/// elsewhere.
#[derive(Debug, Clone, Copy, PartialEq, Eq, Structural)]
pub enum RejectedExecution {
    /// The service has been shut down and no longer accepts new tasks.
    Shutdown,
    /// The service is saturated and cannot accept more tasks.
    Saturated,
    /// The service needed a new worker thread for the task and could not
    /// start one.
    WorkerSpawnFailed,
}

} // verus!
