//! Type-erased jobs accepted by the thread pool.
use vstd::prelude::*;

verus! {

/// A callback that a pool job runs at most once.
///
/// Any `FnOnce() + Send` closure can be wrapped to implement it; the pool
/// only ever calls it through a `PoolJob`.
pub trait PoolCallback: Send {
    /// Consumes the callback and runs it.
    fn call_once(self: Box<Self>);
}

/// Type-erased pool job with a cancellation path for queued work.
///
/// The pool calls the run callback after a worker takes the job, or the
/// cancel callback if the job is still queued during immediate shutdown.
pub struct PoolJob {
    /// Callback executed once a worker starts the job.
    run: Option<Box<dyn PoolCallback>>,
    /// Callback executed if the job is cancelled before a worker starts it.
    cancel: Option<Box<dyn PoolCallback>>,
}

impl PoolJob {
    /// Whether the run callback is still present.
    pub closed spec fn can_run(&self) -> bool {
        self.run is Some
    }

    /// Whether the cancel callback is still present.
    pub closed spec fn can_cancel(&self) -> bool {
        self.cancel is Some
    }

    /// Creates a pool job from run and cancel callbacks.
    pub fn new(run: Box<dyn PoolCallback>, cancel: Box<dyn PoolCallback>) -> (job: Self)
        ensures
            job.can_run(),
            job.can_cancel(),
    {
        PoolJob { run: Some(run), cancel: Some(cancel) }
    }

    /// Runs this job: consumes it and invokes the run callback at most once.
    pub fn run(self) {
        let mut job = self;
        if let Some(run) = job.run.take() {
            run.call_once();
        }
    }

    /// Cancels this job: consumes it and invokes the cancel callback at most
    /// once.
    pub fn cancel(self) {
        let mut job = self;
        if let Some(cancel) = job.cancel.take() {
            cancel.call_once();
        }
    }
}

} // verus!
