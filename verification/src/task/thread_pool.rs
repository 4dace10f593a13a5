//! Fixed-size OS thread pool.
//!
//! The pool's decisions live in [`ThreadPoolState`], a state machine whose
//! transitions are stated exactly over [`PoolStateView`]. [`ThreadPoolInner`]
//! keeps that state behind a mutex with two condition variables, and
//! [`ThreadPool`] is the handle that submitters share. Spawning worker threads
//! and running the worker loop happen outside this crate: a worker repeatedly
//! calls [`wait_for_job_step`], runs the job it is given and reports back
//! with [`finish_running_job`].
use crate::std_sync::Monitor;
use crate::task::pool_job::PoolJob;
use crate::task::rejected_execution::RejectedExecution;
use crate::task::shutdown_report::ShutdownReport;
use std::collections::VecDeque;
use std::sync::Arc;
use vstd::prelude::*;

verus! {

/// Lifecycle of a thread pool: `Running`, then `Shutdown`, then `Stopping`.
#[derive(Debug, Clone, Copy, PartialEq, Eq, Structural)]
pub enum ThreadPoolLifecycle {
    /// The pool accepts new tasks and workers wait for queue items.
    Running,
    /// The pool rejects new tasks but drains queued work.
    Shutdown,
    /// The pool rejects new tasks, cancels queued work, and stops workers.
    Stopping,
}

impl ThreadPoolLifecycle {
    /// Position of the lifecycle in the order `Running < Shutdown < Stopping`.
    pub open spec fn stage(self) -> nat {
        match self {
            ThreadPoolLifecycle::Running => 0,
            ThreadPoolLifecycle::Shutdown => 1,
            ThreadPoolLifecycle::Stopping => 2,
        }
    }

    /// Returns whether this lifecycle still accepts new work.
    pub fn is_running(self) -> (r: bool)
        ensures
            r == (self is Running),
    {
        match self {
            ThreadPoolLifecycle::Running => true,
            _ => false,
        }
    }

    /// Returns whether this lifecycle represents graceful shutdown.
    pub fn is_shutdown(self) -> (r: bool)
        ensures
            r == (self is Shutdown),
    {
        match self {
            ThreadPoolLifecycle::Shutdown => true,
            _ => false,
        }
    }
}

/// Mathematical model of a pool state.
pub struct PoolStateView {
    /// Current lifecycle.
    pub lifecycle: ThreadPoolLifecycle,
    /// Accepted jobs not yet taken by a worker, oldest first.
    pub queue: Seq<PoolJob>,
    /// Maximum queue length, or `None` for an unbounded queue.
    pub queue_capacity: Option<usize>,
    /// Jobs taken by workers and not yet finished.
    pub running_tasks: nat,
    /// Worker loops that have not exited.
    pub live_workers: nat,
}

impl PoolStateView {
    /// The queue is full.
    pub open spec fn is_saturated(self) -> bool {
        match self.queue_capacity {
            Some(capacity) => self.queue.len() >= capacity,
            None => false,
        }
    }

    /// Shutdown has been requested and nothing is queued, running or alive.
    pub open spec fn is_terminated(self) -> bool {
        &&& !(self.lifecycle is Running)
        &&& self.queue.len() == 0
        &&& self.running_tasks == 0
        &&& self.live_workers == 0
    }

    /// The answer a submission receives in this state.
    pub open spec fn submit_answer(self) -> Result<(), RejectedExecution> {
        if !(self.lifecycle is Running) {
            Err(RejectedExecution::Shutdown)
        } else if self.is_saturated() {
            Err(RejectedExecution::Saturated)
        } else {
            Ok(())
        }
    }

    /// The queue respects its capacity, and a stopping pool queues nothing.
    pub open spec fn well_formed(self) -> bool {
        &&& (self.queue_capacity is Some ==> self.queue.len() <= self.queue_capacity->0)
        &&& (self.lifecycle is Stopping ==> self.queue.len() == 0)
    }

    /// This state with `job` appended to the queue.
    pub open spec fn with_queued(self, job: PoolJob) -> PoolStateView {
        PoolStateView { queue: self.queue.push(job), ..self }
    }

    /// This state after a graceful shutdown request.
    pub open spec fn after_shutdown(self) -> PoolStateView {
        PoolStateView {
            lifecycle: if self.lifecycle is Running {
                ThreadPoolLifecycle::Shutdown
            } else {
                self.lifecycle
            },
            ..self
        }
    }

    /// This state after an immediate shutdown request.
    pub open spec fn after_shutdown_now(self) -> PoolStateView {
        PoolStateView { lifecycle: ThreadPoolLifecycle::Stopping, queue: Seq::empty(), ..self }
    }

    /// The report an immediate shutdown gives in this state.
    pub open spec fn shutdown_report(self) -> ShutdownReport {
        ShutdownReport {
            queued: self.queue.len() as usize,
            running: self.running_tasks as usize,
            cancelled: self.queue.len() as usize,
        }
    }

    /// A worker may take a job: the pool is not stopping and work is queued.
    pub open spec fn has_job_for_worker(self) -> bool {
        !(self.lifecycle is Stopping) && self.queue.len() > 0
    }

    /// A worker asking for work must exit.
    pub open spec fn worker_must_exit(self) -> bool {
        !self.has_job_for_worker() && !(self.lifecycle is Running)
    }

    /// A worker asking for work in this state is sent away: it must exit,
    /// or the state is outside the counts a registered worker keeps (no
    /// live worker, or a running count at its largest value).
    pub open spec fn sends_worker_away(self) -> bool {
        self.worker_must_exit() || self.live_workers == 0 || self.running_tasks == usize::MAX
    }

    /// This state after a worker took the oldest queued job.
    pub open spec fn after_take(self) -> PoolStateView {
        PoolStateView {
            queue: self.queue.drop_first(),
            running_tasks: self.running_tasks + 1,
            ..self
        }
    }

    /// This state with one live worker fewer.
    pub open spec fn after_worker_exit(self) -> PoolStateView {
        PoolStateView { live_workers: (self.live_workers - 1) as nat, ..self }
    }
}

/// After a graceful or an immediate shutdown, every submission is refused
/// with `Shutdown`.
pub proof fn lemma_shutdown_rejects_submissions(state: PoolStateView)
    ensures
        state.after_shutdown().submit_answer() == Err::<(), RejectedExecution>(
            RejectedExecution::Shutdown,
        ),
        state.after_shutdown_now().submit_answer() == Err::<(), RejectedExecution>(
            RejectedExecution::Shutdown,
        ),
{
}

/// Requesting a shutdown twice has the effect of requesting it once, for
/// both kinds of shutdown; an immediate shutdown repeated finds nothing
/// queued.
pub proof fn lemma_shutdown_idempotent(state: PoolStateView)
    ensures
        state.after_shutdown().after_shutdown() == state.after_shutdown(),
        state.after_shutdown_now().after_shutdown_now() == state.after_shutdown_now(),
        state.after_shutdown_now().shutdown_report().queued == 0,
        state.after_shutdown_now().shutdown_report().cancelled == 0,
{
}

/// The lifecycle only moves forward, `Running` to `Shutdown` to `Stopping`:
/// no transition brings a stage back.
pub proof fn lemma_lifecycle_never_regresses(state: PoolStateView, job: PoolJob)
    ensures
        state.after_shutdown().lifecycle.stage() >= state.lifecycle.stage(),
        state.after_shutdown_now().lifecycle.stage() >= state.lifecycle.stage(),
        state.with_queued(job).lifecycle == state.lifecycle,
        state.after_take().lifecycle == state.lifecycle,
        state.after_worker_exit().lifecycle == state.lifecycle,
{
}

/// Jobs leave the queue in the order they entered it: a submission never
/// overtakes a job queued before it, and into an empty queue it is the next
/// job a worker takes.
pub proof fn lemma_queue_is_fifo(state: PoolStateView, job: PoolJob)
    ensures
        state.queue.len() > 0 ==> state.with_queued(job).queue[0] == state.queue[0],
        state.queue.len() > 0 ==> state.with_queued(job).after_take() == state.after_take().with_queued(job),
        state.queue.len() == 0 ==> state.with_queued(job).queue[0] == job,
{
    if state.queue.len() > 0 {
        assert(state.with_queued(job).after_take().queue =~= state.after_take().with_queued(job).queue);
    }
}

/// Every transition keeps a well-formed state well-formed: an accepted
/// submission never overfills a bounded queue, and a stopping pool never
/// holds queued jobs.
pub proof fn lemma_transitions_preserve_well_formed(state: PoolStateView, job: PoolJob)
    requires
        state.well_formed(),
    ensures
        state.submit_answer() is Ok ==> state.with_queued(job).well_formed(),
        state.after_shutdown().well_formed(),
        state.after_shutdown_now().well_formed(),
        state.has_job_for_worker() ==> state.after_take().well_formed(),
        state.after_worker_exit().well_formed(),
{
}

/// A graceful shutdown drains the queue: while jobs are queued a worker is
/// handed one and is not told to exit. An immediate shutdown sends every
/// worker away.
pub proof fn lemma_graceful_shutdown_drains_queue(state: PoolStateView)
    ensures
        state.lifecycle is Shutdown && state.queue.len() > 0 ==> state.has_job_for_worker()
            && !state.worker_must_exit(),
        state.lifecycle is Shutdown && state.queue.len() == 0 ==> state.worker_must_exit(),
        state.lifecycle is Stopping ==> state.worker_must_exit(),
        state.lifecycle is Running ==> !state.worker_must_exit(),
{
}

/// A terminated pool stays terminated under further shutdown requests and
/// refuses every submission.
pub proof fn lemma_terminated_is_final(state: PoolStateView)
    requires
        state.is_terminated(),
    ensures
        state.after_shutdown().is_terminated(),
        state.after_shutdown_now().is_terminated(),
        state.submit_answer() == Err::<(), RejectedExecution>(RejectedExecution::Shutdown),
{
}

/// A pool is terminated exactly when shutdown was requested and nothing is
/// queued, no job is running and no worker is alive; an immediate shutdown
/// leaves nothing queued.
pub proof fn lemma_terminated_iff_drained(state: PoolStateView)
    ensures
        state.is_terminated() <==> (!(state.lifecycle is Running) && state.queue.len() == 0
            && state.running_tasks == 0 && state.live_workers == 0),
        state.after_shutdown_now().queue.len() == 0,
{
}

/// What a worker must do next.
pub enum WorkerStep {
    /// Run this job, already counted as running.
    Run(PoolJob),
    /// Nothing to do yet: wait for a notification.
    Wait,
    /// Exit the worker loop, already counted as exited.
    Exit,
}

/// Mutable pool state, kept behind [`ThreadPoolInner`]'s mutex.
pub struct ThreadPoolState {
    lifecycle: ThreadPoolLifecycle,
    queue: VecDeque<PoolJob>,
    queue_capacity: Option<usize>,
    running_tasks: usize,
    live_workers: usize,
}

impl View for ThreadPoolState {
    type V = PoolStateView;

    closed spec fn view(&self) -> PoolStateView {
        PoolStateView {
            lifecycle: self.lifecycle,
            queue: self.queue@,
            queue_capacity: self.queue_capacity,
            running_tasks: self.running_tasks as nat,
            live_workers: self.live_workers as nat,
        }
    }
}

impl ThreadPoolState {
    /// A running pool state with an empty queue and no workers.
    pub fn new(queue_capacity: Option<usize>) -> (state: Self)
        ensures
            state@ == (PoolStateView {
                lifecycle: ThreadPoolLifecycle::Running,
                queue: Seq::empty(),
                queue_capacity,
                running_tasks: 0,
                live_workers: 0,
            }),
            state@.well_formed(),
    {
        ThreadPoolState {
            lifecycle: ThreadPoolLifecycle::Running,
            queue: VecDeque::new(),
            queue_capacity,
            running_tasks: 0,
            live_workers: 0,
        }
    }

    /// The current lifecycle.
    pub fn lifecycle(&self) -> (lifecycle: ThreadPoolLifecycle)
        ensures
            lifecycle == self@.lifecycle,
    {
        self.lifecycle
    }

    /// Number of queued jobs.
    pub fn queued_count(&self) -> (count: usize)
        ensures
            count == self@.queue.len(),
    {
        self.queue.len()
    }

    /// Number of jobs held by workers.
    pub fn running_tasks(&self) -> (count: usize)
        ensures
            count == self@.running_tasks,
    {
        self.running_tasks
    }

    /// Number of live workers.
    pub fn live_workers(&self) -> (count: usize)
        ensures
            count == self@.live_workers,
    {
        self.live_workers
    }

    /// Returns whether the queue is currently full.
    pub fn is_saturated(&self) -> (saturated: bool)
        ensures
            saturated == self@.is_saturated(),
    {
        match self.queue_capacity {
            Some(capacity) => self.queue.len() >= capacity,
            None => false,
        }
    }

    /// Returns whether the pool lifecycle is fully terminated.
    pub fn is_terminated(&self) -> (terminated: bool)
        ensures
            terminated == self@.is_terminated(),
    {
        !self.lifecycle.is_running() && self.queue.len() == 0 && self.running_tasks == 0
            && self.live_workers == 0
    }

    /// Queues `job` if the pool is running and the queue has room.
    pub fn submit(&mut self, job: PoolJob) -> (r: Result<(), RejectedExecution>)
        ensures
            r == old(self)@.submit_answer(),
            r is Ok ==> final(self)@ == old(self)@.with_queued(job),
            r is Err ==> final(self)@ == old(self)@,
            old(self)@.well_formed() ==> final(self)@.well_formed(),
    {
        if !self.lifecycle.is_running() {
            return Err(RejectedExecution::Shutdown);
        }
        if self.is_saturated() {
            return Err(RejectedExecution::Saturated);
        }
        self.queue.push_back(job);
        Ok(())
    }

    /// Requests graceful shutdown: a running pool starts draining its queue.
    pub fn shutdown(&mut self)
        ensures
            final(self)@ == old(self)@.after_shutdown(),
            old(self)@.well_formed() ==> final(self)@.well_formed(),
    {
        if self.lifecycle.is_running() {
            self.lifecycle = ThreadPoolLifecycle::Shutdown;
        }
    }

    /// Requests abrupt shutdown: stops the pool and hands back every queued
    /// job, oldest first, with a report of what was found.
    pub fn shutdown_now(&mut self) -> (r: (Vec<PoolJob>, ShutdownReport))
        ensures
            r.0@ == old(self)@.queue,
            r.1 == old(self)@.shutdown_report(),
            final(self)@ == old(self)@.after_shutdown_now(),
            final(self)@.well_formed(),
    {
        if self.lifecycle.is_running() || self.lifecycle.is_shutdown() {
            self.lifecycle = ThreadPoolLifecycle::Stopping;
        }
        let queued = self.queue.len();
        let running = self.running_tasks;
        let ghost original = self.queue@;
        let mut jobs: Vec<PoolJob> = Vec::new();
        while self.queue.len() > 0
            invariant
                jobs@ + self.queue@ == original,
                self.lifecycle == ThreadPoolLifecycle::Stopping,
                self.queue_capacity == old(self).queue_capacity,
                self.running_tasks == old(self).running_tasks,
                self.live_workers == old(self).live_workers,
            decreases self.queue@.len(),
        {
            let ghost before = self.queue@;
            if let Some(job) = self.queue.pop_front() {
                jobs.push(job);
                assert(jobs@ + self.queue@ =~= original) by {
                    assert(before =~= seq![job] + self.queue@);
                }
            }
        }
        assert(jobs@ =~= original);
        assert(self.queue@ =~= Seq::<PoolJob>::empty());
        (jobs, ShutdownReport::new(queued, running, queued))
    }

    /// Counts a worker that is about to be spawned.
    pub fn register_worker(&mut self)
        requires
            old(self)@.live_workers < usize::MAX,
        ensures
            final(self)@ == (PoolStateView { live_workers: old(self)@.live_workers + 1, ..old(self)@ }),
    {
        self.live_workers = self.live_workers + 1;
    }

    /// Stops counting a worker that exited or could not be spawned.
    pub fn unregister_worker(&mut self)
        requires
            old(self)@.live_workers > 0,
        ensures
            final(self)@ == old(self)@.after_worker_exit(),
    {
        self.live_workers = self.live_workers - 1;
    }

    /// Marks a worker-held job as finished.
    pub fn finish_running_job(&mut self)
        requires
            old(self)@.running_tasks > 0,
        ensures
            final(self)@ == (PoolStateView {
                running_tasks: (old(self)@.running_tasks - 1) as nat,
                ..old(self)@
            }),
    {
        self.running_tasks = self.running_tasks - 1;
    }

    /// Decides what a live worker asking for work does next: take the
    /// oldest queued job unless the pool is stopping, wait while a running
    /// pool has nothing queued, and exit otherwise.
    pub fn next_worker_step(&mut self) -> (step: WorkerStep)
        requires
            old(self)@.running_tasks < usize::MAX,
            old(self)@.live_workers > 0,
        ensures
            old(self)@.has_job_for_worker() ==> step == WorkerStep::Run(old(self)@.queue[0])
                && final(self)@ == old(self)@.after_take(),
            old(self)@.worker_must_exit() ==> step is Exit && final(self)@
                == old(self)@.after_worker_exit(),
            !old(self)@.has_job_for_worker() && !old(self)@.worker_must_exit() ==> step is Wait
                && final(self)@ == old(self)@,
            old(self)@.well_formed() ==> final(self)@.well_formed(),
    {
        match self.lifecycle {
            ThreadPoolLifecycle::Running => {
                if let Some(job) = self.queue.pop_front() {
                    self.running_tasks = self.running_tasks + 1;
                    return WorkerStep::Run(job);
                }
                WorkerStep::Wait
            },
            ThreadPoolLifecycle::Shutdown => {
                if let Some(job) = self.queue.pop_front() {
                    self.running_tasks = self.running_tasks + 1;
                    return WorkerStep::Run(job);
                }
                self.live_workers = self.live_workers - 1;
                WorkerStep::Exit
            },
            ThreadPoolLifecycle::Stopping => {
                self.live_workers = self.live_workers - 1;
                WorkerStep::Exit
            },
        }
    }
}

/// What [`wait_for_job_step`] tells a worker to do.
pub enum WorkerPoll {
    /// Run this job, then call [`finish_running_job`].
    Job(PoolJob),
    /// The worker was woken up: ask again.
    Retry,
    /// Leave the worker loop.
    Exit,
}

/// Shared state for a thread pool: the pool state in a monitor whose
/// condition variable wakes both workers waiting for work and threads
/// waiting for termination; every notification wakes all of them, and each
/// checks again what it waits for.
pub struct ThreadPoolInner {
    monitor: Monitor<ThreadPoolState>,
}

impl ThreadPoolInner {
    /// `state` is a borrow of this pool's own shared state, taken while its
    /// lock was held.
    pub closed spec fn guards(&self, state: &mut ThreadPoolState) -> bool {
        self.monitor.lends(state)
    }

    /// Creates the shared state of a running pool with no workers.
    pub fn new(queue_capacity: Option<usize>) -> (inner: Self) {
        ThreadPoolInner {
            monitor: Monitor::new(ThreadPoolState::new(queue_capacity)),
        }
    }

    /// Notifies termination waiters when `state` is terminal.
    fn notify_if_terminated(&self, state: &ThreadPoolState) {
        if state.is_terminated() {
            self.monitor.notify_all();
        }
    }

    /// Counts a worker that is about to be spawned.
    ///
    /// The count is bounded by the number of threads that can exist, so it
    /// never reaches `usize::MAX`; should it, the count is left unchanged.
    pub fn register_worker(&self)
        ensures
            exists|shared: &mut ThreadPoolState|
                #![trigger self.guards(shared)]
                self.guards(shared) && ((*shared)@.live_workers < usize::MAX ==> (*final(shared))@
                    == (PoolStateView { live_workers: (*shared)@.live_workers + 1, ..(*shared)@ }))
                    && ((*shared)@.live_workers == usize::MAX ==> (*final(shared))@ == (*shared)@),
    {
        let mut guard = self.monitor.lock();
        let state = guard.data();
        let ghost shared = state;
        assert(self.guards(shared));
        if state.live_workers() < usize::MAX {
            state.register_worker();
        }
    }

    /// Reverts a worker registration after spawn failure.
    pub fn unregister_worker_after_spawn_failure(&self)
        ensures
            exists|shared: &mut ThreadPoolState|
                #![trigger self.guards(shared)]
                self.guards(shared) && ((*shared)@.live_workers > 0 ==> (*final(shared))@
                    == (*shared)@.after_worker_exit()) && ((*shared)@.live_workers == 0
                    ==> (*final(shared))@ == (*shared)@),
    {
        let mut guard = self.monitor.lock();
        let state = guard.data();
        let ghost shared = state;
        assert(self.guards(shared));
        if state.live_workers() > 0 {
            state.unregister_worker();
        }
        self.notify_if_terminated(state);
    }

    /// Submits a job into the queue and wakes one waiting worker.
    pub fn submit(&self, job: PoolJob) -> (r: Result<(), RejectedExecution>)
        ensures
            exists|state: ThreadPoolState| r == state@.submit_answer(),
            exists|shared: &mut ThreadPoolState|
                #![trigger self.guards(shared)]
                self.guards(shared) && r == (*shared)@.submit_answer() && (r is Ok ==> (*final(shared))@
                    == (*shared)@.with_queued(job)) && (r is Err ==> (*final(shared))@ == (*shared)@),
    {
        let mut guard = self.monitor.lock();
        let state = guard.data();
        let ghost shared = state;
        assert(self.guards(shared));
        let result = state.submit(job);
        if result.is_ok() {
            self.monitor.notify_all();
        }
        result
    }

    /// Requests graceful shutdown and wakes every waiting thread.
    pub fn shutdown(&self)
        ensures
            exists|shared: &mut ThreadPoolState|
                #![trigger self.guards(shared)]
                self.guards(shared) && (*final(shared))@ == (*shared)@.after_shutdown(),
    {
        let mut guard = self.monitor.lock();
        let state = guard.data();
        let ghost shared = state;
        assert(self.guards(shared));
        state.shutdown();
        self.monitor.notify_all();
    }

    /// Requests abrupt shutdown; cancels the queued jobs after releasing the
    /// lock.
    pub fn shutdown_now(&self) -> (report: ShutdownReport)
        ensures
            exists|state: ThreadPoolState| report == state@.shutdown_report(),
            report.cancelled == report.queued,
            exists|shared: &mut ThreadPoolState|
                #![trigger self.guards(shared)]
                self.guards(shared) && report == (*shared)@.shutdown_report() && (*final(shared))@
                    == (*shared)@.after_shutdown_now(),
    {
        let (jobs, report) = {
            let mut guard = self.monitor.lock();
            let state = guard.data();
            let ghost shared = state;
            assert(self.guards(shared));
            let taken = state.shutdown_now();
            self.monitor.notify_all();
            taken
        };
        for job in jobs {
            job.cancel();
        }
        report
    }

    /// Returns whether shutdown has been requested.
    pub fn is_shutdown(&self) -> (r: bool)
        ensures
            exists|state: ThreadPoolState| r == !(state@.lifecycle is Running),
            exists|shared: &mut ThreadPoolState|
                #![trigger self.guards(shared)]
                self.guards(shared) && r == !((*shared)@.lifecycle is Running),
    {
        let mut guard = self.monitor.lock();
        let state = guard.data();
        let ghost shared = state;
        assert(self.guards(shared));
        !state.lifecycle().is_running()
    }

    /// Returns whether the pool is fully terminated.
    pub fn is_terminated(&self) -> (r: bool)
        ensures
            exists|state: ThreadPoolState| r == state@.is_terminated(),
            exists|shared: &mut ThreadPoolState|
                #![trigger self.guards(shared)]
                self.guards(shared) && r == (*shared)@.is_terminated(),
    {
        let mut guard = self.monitor.lock();
        let state = guard.data();
        let ghost shared = state;
        assert(self.guards(shared));
        state.is_terminated()
    }

    /// One round of waiting for termination: `true` when the pool is
    /// terminated; otherwise waits once for a notification and returns
    /// `false`, so that the caller asks again.
    pub fn termination_wait_step(&self) -> (terminated: bool)
        ensures
            exists|state: ThreadPoolState| terminated == state@.is_terminated(),
            exists|shared: &mut ThreadPoolState|
                #![trigger self.guards(shared)]
                self.guards(shared) && terminated == (*shared)@.is_terminated(),
    {
        let mut guard = self.monitor.lock();
        let state = guard.data();
        let ghost seen: ThreadPoolState = *state;
        let ghost shared = state;
        assert(self.guards(shared));
        if state.is_terminated() {
            return true;
        }
        assert(false == seen@.is_terminated());
        let _guard = guard.wait();
        false
    }

    /// Number of queued jobs.
    pub fn queued_count(&self) -> (count: usize)
        ensures
            exists|state: ThreadPoolState| count == state@.queue.len(),
            exists|shared: &mut ThreadPoolState|
                #![trigger self.guards(shared)]
                self.guards(shared) && count == (*shared)@.queue.len(),
    {
        let mut guard = self.monitor.lock();
        let state = guard.data();
        let ghost shared = state;
        assert(self.guards(shared));
        state.queued_count()
    }

    /// Number of jobs held by workers.
    pub fn running_count(&self) -> (count: usize)
        ensures
            exists|state: ThreadPoolState| count == state@.running_tasks,
            exists|shared: &mut ThreadPoolState|
                #![trigger self.guards(shared)]
                self.guards(shared) && count == (*shared)@.running_tasks,
    {
        let mut guard = self.monitor.lock();
        let state = guard.data();
        let ghost shared = state;
        assert(self.guards(shared));
        state.running_tasks()
    }

    /// Number of live workers.
    pub fn worker_count(&self) -> (count: usize)
        ensures
            exists|state: ThreadPoolState| count == state@.live_workers,
            exists|shared: &mut ThreadPoolState|
                #![trigger self.guards(shared)]
                self.guards(shared) && count == (*shared)@.live_workers,
    {
        let mut guard = self.monitor.lock();
        let state = guard.data();
        let ghost shared = state;
        assert(self.guards(shared));
        state.live_workers()
    }
}

/// One round of a worker's wait for work: returns the job to run, tells the
/// worker to exit, or waits once for a notification and asks for a retry.
///
/// A registered worker is always counted as live and never makes the running
/// count reach `usize::MAX`; a state outside those bounds sends it away.
pub fn wait_for_job_step(inner: &ThreadPoolInner) -> (poll: WorkerPoll)
    ensures
        poll is Job ==> exists|state: PoolStateView|
            state.has_job_for_worker() && poll->Job_0 == state.queue[0],
        poll is Retry ==> exists|state: PoolStateView|
            !state.has_job_for_worker() && !state.worker_must_exit(),
        poll is Exit ==> exists|state: PoolStateView| state.sends_worker_away(),
        exists|shared: &mut ThreadPoolState|
            #![trigger inner.guards(shared)]
            {
                &&& inner.guards(shared)
                &&& poll is Job ==> (*shared)@.has_job_for_worker() && poll->Job_0
                    == (*shared)@.queue[0] && (*final(shared))@ == (*shared)@.after_take()
                &&& poll is Retry ==> !(*shared)@.has_job_for_worker()
                    && !(*shared)@.worker_must_exit()
                &&& poll is Exit ==> (*shared)@.sends_worker_away()
            },
{
    let mut guard = inner.monitor.lock();
    let state = guard.data();
    let ghost shared = state;
    assert(inner.guards(shared));
    let ghost before = state@;
    if state.running_tasks() == usize::MAX || state.live_workers() == 0 {
        assert(before.sends_worker_away());
        return WorkerPoll::Exit;
    }
    match state.next_worker_step() {
        WorkerStep::Run(job) => {
            assert(before.has_job_for_worker() && job == before.queue[0]);
            WorkerPoll::Job(job)
        },
        WorkerStep::Exit => {
            assert(before.sends_worker_away());
            inner.notify_if_terminated(state);
            WorkerPoll::Exit
        },
        WorkerStep::Wait => {
            assert(!before.has_job_for_worker() && !before.worker_must_exit());
            let _guard = guard.wait();
            WorkerPoll::Retry
        },
    }
}

/// Marks a worker-held job as finished and notifies termination waiters if
/// that made the pool terminal.
pub fn finish_running_job(inner: &ThreadPoolInner)
    ensures
        exists|shared: &mut ThreadPoolState|
            #![trigger inner.guards(shared)]
            inner.guards(shared) && ((*shared)@.running_tasks > 0 ==> (*final(shared))@
                == (PoolStateView {
                running_tasks: ((*shared)@.running_tasks - 1) as nat,
                ..(*shared)@
            })) && ((*shared)@.running_tasks == 0 ==> (*final(shared))@ == (*shared)@),
{
    let mut guard = inner.monitor.lock();
    let state = guard.data();
    let ghost shared = state;
    assert(inner.guards(shared));
    if state.running_tasks() > 0 {
        state.finish_running_job();
    }
    inner.notify_if_terminated(state);
}

/// Fixed-size OS thread pool handle.
///
/// Accepted jobs wait in a FIFO queue until a worker takes them.
/// [`ThreadPool::shutdown`] is graceful: queued jobs still run.
/// [`ThreadPool::shutdown_now`] is abrupt: queued jobs are cancelled.
pub struct ThreadPool {
    inner: Arc<ThreadPoolInner>,
}

impl ThreadPool {
    /// Creates a running pool with no workers yet; workers are registered
    /// with [`ThreadPool::register_worker`] before they are spawned on
    /// [`ThreadPool::worker_context`].
    pub fn with_queue_capacity(queue_capacity: Option<usize>) -> (pool: Self) {
        ThreadPool { inner: Arc::new(ThreadPoolInner::new(queue_capacity)) }
    }

    /// The shared state a worker thread runs against.
    pub fn worker_context(&self) -> (inner: Arc<ThreadPoolInner>)
        ensures
            *inner == self.shared(),
    {
        Arc::clone(&self.inner)
    }

    /// The shared state of this pool.
    pub closed spec fn shared(&self) -> ThreadPoolInner {
        *self.inner
    }

    /// Counts a worker that is about to be spawned.
    pub fn register_worker(&self)
        ensures
            exists|shared: &mut ThreadPoolState|
                #![trigger self.shared().guards(shared)]
                self.shared().guards(shared) && ((*shared)@.live_workers < usize::MAX ==> (*final(shared))@
                    == (PoolStateView { live_workers: (*shared)@.live_workers + 1, ..(*shared)@ }))
                    && ((*shared)@.live_workers == usize::MAX ==> (*final(shared))@ == (*shared)@),
    {
        self.inner.register_worker();
        proof {
            let shared = choose|shared: &mut ThreadPoolState|
                #![trigger self.inner.guards(shared)]
                self.inner.guards(shared) && ((*shared)@.live_workers < usize::MAX ==> (*final(shared))@
                    == (PoolStateView { live_workers: (*shared)@.live_workers + 1, ..(*shared)@ }))
                    && ((*shared)@.live_workers == usize::MAX ==> (*final(shared))@ == (*shared)@);
            assert(self.shared().guards(shared));
        }
    }

    /// Reverts a worker registration after spawn failure.
    pub fn unregister_worker_after_spawn_failure(&self)
        ensures
            exists|shared: &mut ThreadPoolState|
                #![trigger self.shared().guards(shared)]
                self.shared().guards(shared) && ((*shared)@.live_workers > 0 ==> (*final(shared))@
                    == (*shared)@.after_worker_exit()) && ((*shared)@.live_workers == 0
                    ==> (*final(shared))@ == (*shared)@),
    {
        self.inner.unregister_worker_after_spawn_failure();
        proof {
            let shared = choose|shared: &mut ThreadPoolState|
                #![trigger self.inner.guards(shared)]
                self.inner.guards(shared) && ((*shared)@.live_workers > 0 ==> (*final(shared))@
                    == (*shared)@.after_worker_exit()) && ((*shared)@.live_workers == 0
                    ==> (*final(shared))@ == (*shared)@);
            assert(self.shared().guards(shared));
        }
    }

    /// Returns the number of queued tasks waiting for a worker.
    pub fn queued_count(&self) -> (count: usize)
        ensures
            exists|state: ThreadPoolState| count == state@.queue.len(),
            exists|shared: &mut ThreadPoolState|
                #![trigger self.shared().guards(shared)]
                self.shared().guards(shared) && count == (*shared)@.queue.len(),
    {
        let count = self.inner.queued_count();
        proof {
            let shared = choose|shared: &mut ThreadPoolState|
                #![trigger self.inner.guards(shared)]
                self.inner.guards(shared) && count == (*shared)@.queue.len();
            assert(self.shared().guards(shared));
        }
        count
    }

    /// Returns the number of tasks currently held by workers.
    pub fn running_count(&self) -> (count: usize)
        ensures
            exists|state: ThreadPoolState| count == state@.running_tasks,
            exists|shared: &mut ThreadPoolState|
                #![trigger self.shared().guards(shared)]
                self.shared().guards(shared) && count == (*shared)@.running_tasks,
    {
        let count = self.inner.running_count();
        proof {
            let shared = choose|shared: &mut ThreadPoolState|
                #![trigger self.inner.guards(shared)]
                self.inner.guards(shared) && count == (*shared)@.running_tasks;
            assert(self.shared().guards(shared));
        }
        count
    }

    /// Returns the number of worker threads that have not exited.
    pub fn worker_count(&self) -> (count: usize)
        ensures
            exists|state: ThreadPoolState| count == state@.live_workers,
            exists|shared: &mut ThreadPoolState|
                #![trigger self.shared().guards(shared)]
                self.shared().guards(shared) && count == (*shared)@.live_workers,
    {
        let count = self.inner.worker_count();
        proof {
            let shared = choose|shared: &mut ThreadPoolState|
                #![trigger self.inner.guards(shared)]
                self.inner.guards(shared) && count == (*shared)@.live_workers;
            assert(self.shared().guards(shared));
        }
        count
    }

    /// Accepts a job into the queue, or says why it was refused: after
    /// shutdown, or while a bounded queue is full.
    pub fn submit_job(&self, job: PoolJob) -> (r: Result<(), RejectedExecution>)
        ensures
            exists|state: ThreadPoolState| r == state@.submit_answer(),
            exists|shared: &mut ThreadPoolState|
                #![trigger self.shared().guards(shared)]
                self.shared().guards(shared) && r == (*shared)@.submit_answer() && (r is Ok ==> (*final(shared))@
                    == (*shared)@.with_queued(job)) && (r is Err ==> (*final(shared))@ == (*shared)@),
    {
        let r = self.inner.submit(job);
        proof {
            let shared = choose|shared: &mut ThreadPoolState|
                #![trigger self.inner.guards(shared)]
                self.inner.guards(shared) && r == (*shared)@.submit_answer() && (r is Ok ==> (*final(shared))@
                    == (*shared)@.with_queued(job)) && (r is Err ==> (*final(shared))@ == (*shared)@);
            assert(self.shared().guards(shared));
        }
        r
    }

    /// Stops accepting new tasks; already queued work is drained.
    pub fn shutdown(&self)
        ensures
            exists|shared: &mut ThreadPoolState|
                #![trigger self.shared().guards(shared)]
                self.shared().guards(shared) && (*final(shared))@ == (*shared)@.after_shutdown(),
    {
        self.inner.shutdown();
        proof {
            let shared = choose|shared: &mut ThreadPoolState|
                #![trigger self.inner.guards(shared)]
                self.inner.guards(shared) && (*final(shared))@ == (*shared)@.after_shutdown();
            assert(self.shared().guards(shared));
        }
    }

    /// Stops accepting tasks and cancels queued tasks that have not started.
    pub fn shutdown_now(&self) -> (report: ShutdownReport)
        ensures
            exists|state: ThreadPoolState| report == state@.shutdown_report(),
            report.cancelled == report.queued,
            exists|shared: &mut ThreadPoolState|
                #![trigger self.shared().guards(shared)]
                self.shared().guards(shared) && report == (*shared)@.shutdown_report() && (*final(shared))@
                    == (*shared)@.after_shutdown_now(),
    {
        let report = self.inner.shutdown_now();
        proof {
            let shared = choose|shared: &mut ThreadPoolState|
                #![trigger self.inner.guards(shared)]
                self.inner.guards(shared) && report == (*shared)@.shutdown_report() && (*final(shared))@
                    == (*shared)@.after_shutdown_now();
            assert(self.shared().guards(shared));
        }
        report
    }

    /// Returns whether shutdown has been requested.
    pub fn is_shutdown(&self) -> (r: bool)
        ensures
            exists|state: ThreadPoolState| r == !(state@.lifecycle is Running),
            exists|shared: &mut ThreadPoolState|
                #![trigger self.shared().guards(shared)]
                self.shared().guards(shared) && r == !((*shared)@.lifecycle is Running),
    {
        let r = self.inner.is_shutdown();
        proof {
            let shared = choose|shared: &mut ThreadPoolState|
                #![trigger self.inner.guards(shared)]
                self.inner.guards(shared) && r == !((*shared)@.lifecycle is Running);
            assert(self.shared().guards(shared));
        }
        r
    }

    /// Returns whether shutdown was requested and all workers have exited.
    pub fn is_terminated(&self) -> (r: bool)
        ensures
            exists|state: ThreadPoolState| r == state@.is_terminated(),
            exists|shared: &mut ThreadPoolState|
                #![trigger self.shared().guards(shared)]
                self.shared().guards(shared) && r == (*shared)@.is_terminated(),
    {
        let r = self.inner.is_terminated();
        proof {
            let shared = choose|shared: &mut ThreadPoolState|
                #![trigger self.inner.guards(shared)]
                self.inner.guards(shared) && r == (*shared)@.is_terminated();
            assert(self.shared().guards(shared));
        }
        r
    }

    /// One round of waiting for termination (see
    /// [`ThreadPoolInner::termination_wait_step`]).
    pub fn termination_wait_step(&self) -> (terminated: bool)
        ensures
            exists|state: ThreadPoolState| terminated == state@.is_terminated(),
            exists|shared: &mut ThreadPoolState|
                #![trigger self.shared().guards(shared)]
                self.shared().guards(shared) && terminated == (*shared)@.is_terminated(),
    {
        let terminated = self.inner.termination_wait_step();
        proof {
            let shared = choose|shared: &mut ThreadPoolState|
                #![trigger self.inner.guards(shared)]
                self.inner.guards(shared) && terminated == (*shared)@.is_terminated();
            assert(self.shared().guards(shared));
        }
        terminated
    }
}

/// `std::io::Error`, carried as the cause of a failed worker spawn.
#[verifier::external_type_specification]
#[verifier::external_body]
pub struct ExIoError(std::io::Error);

/// Default thread name prefix used by [`ThreadPoolBuilder`].
pub const DEFAULT_THREAD_NAME_PREFIX: &'static str = "qubit-thread-pool";

/// Error returned when a [`ThreadPool`] cannot be built.
#[derive(Debug)]
pub enum ThreadPoolBuildError {
    /// The configured worker count is zero.
    ZeroWorkers,
    /// The configured bounded queue capacity is zero.
    ZeroQueueCapacity,
    /// The configured worker stack size is zero.
    ZeroStackSize,
    /// The configured maximum pool size is zero.
    ZeroMaximumPoolSize,
    /// The core pool size would exceed the maximum pool size.
    CorePoolSizeExceedsMaximum {
        /// The core pool size that was asked for or is in force.
        core_pool_size: usize,
        /// The maximum pool size that was asked for or is in force.
        maximum_pool_size: usize,
    },
    /// The configured worker keep-alive timeout spans no time.
    ZeroKeepAlive,
    /// A worker thread could not be spawned.
    SpawnWorker {
        /// Index of the worker that failed to spawn.
        index: usize,
        /// I/O error reported by the thread builder.
        source: std::io::Error,
    },
}

/// Mathematical model of a [`ThreadPoolBuilder`].
pub struct ThreadPoolBuilderView {
    /// Number of worker threads to spawn.
    pub worker_count: usize,
    /// Maximum number of queued tasks, or `None` for an unbounded queue.
    pub queue_capacity: Option<usize>,
    /// Prefix of the worker thread names.
    pub thread_name_prefix: Seq<char>,
    /// Stack size in bytes of each worker, or `None` for the default.
    pub stack_size: Option<usize>,
}

impl ThreadPoolBuilderView {
    /// The configuration error, checked in this order: no workers, a
    /// zero-capacity queue, a zero stack size.
    pub open spec fn validation(self) -> Result<(), ThreadPoolBuildError> {
        if self.worker_count == 0 {
            Err(ThreadPoolBuildError::ZeroWorkers)
        } else if self.queue_capacity == Some(0usize) {
            Err(ThreadPoolBuildError::ZeroQueueCapacity)
        } else if self.stack_size == Some(0usize) {
            Err(ThreadPoolBuildError::ZeroStackSize)
        } else {
            Ok(())
        }
    }
}

/// Builder for [`ThreadPool`]: worker count, queue bound, thread names and
/// stack size.
#[derive(Debug, Clone)]
pub struct ThreadPoolBuilder {
    worker_count: usize,
    queue_capacity: Option<usize>,
    thread_name_prefix: String,
    stack_size: Option<usize>,
}

impl View for ThreadPoolBuilder {
    type V = ThreadPoolBuilderView;

    closed spec fn view(&self) -> ThreadPoolBuilderView {
        ThreadPoolBuilderView {
            worker_count: self.worker_count,
            queue_capacity: self.queue_capacity,
            thread_name_prefix: self.thread_name_prefix@,
            stack_size: self.stack_size,
        }
    }
}

impl ThreadPoolBuilder {
    /// A builder for `worker_count` workers with an unbounded queue, the
    /// default thread name prefix and the default stack size.
    pub fn with_defaults(worker_count: usize) -> (builder: Self)
        ensures
            builder@ == (ThreadPoolBuilderView {
                worker_count,
                queue_capacity: None,
                thread_name_prefix: DEFAULT_THREAD_NAME_PREFIX@,
                stack_size: None,
            }),
    {
        ThreadPoolBuilder {
            worker_count,
            queue_capacity: None,
            thread_name_prefix: DEFAULT_THREAD_NAME_PREFIX.to_owned(),
            stack_size: None,
        }
    }

    /// Sets the number of worker threads.
    pub fn worker_count(self, worker_count: usize) -> (builder: Self)
        ensures
            builder@ == (ThreadPoolBuilderView { worker_count, ..self@ }),
    {
        ThreadPoolBuilder { worker_count, ..self }
    }

    /// Sets a bounded queue capacity; it counts only waiting tasks.
    pub fn queue_capacity(self, capacity: usize) -> (builder: Self)
        ensures
            builder@ == (ThreadPoolBuilderView { queue_capacity: Some(capacity), ..self@ }),
    {
        ThreadPoolBuilder { queue_capacity: Some(capacity), ..self }
    }

    /// Uses an unbounded queue.
    pub fn unbounded_queue(self) -> (builder: Self)
        ensures
            builder@ == (ThreadPoolBuilderView { queue_capacity: None, ..self@ }),
    {
        ThreadPoolBuilder { queue_capacity: None, ..self }
    }

    /// Sets the worker thread name prefix; a worker is named by appending
    /// its index to it.
    pub fn thread_name_prefix(self, prefix: &str) -> (builder: Self)
        ensures
            builder@ == (ThreadPoolBuilderView { thread_name_prefix: prefix@, ..self@ }),
    {
        ThreadPoolBuilder { thread_name_prefix: prefix.to_owned(), ..self }
    }

    /// Sets the worker thread stack size in bytes.
    pub fn stack_size(self, stack_size: usize) -> (builder: Self)
        ensures
            builder@ == (ThreadPoolBuilderView { stack_size: Some(stack_size), ..self@ }),
    {
        ThreadPoolBuilder { stack_size: Some(stack_size), ..self }
    }

    /// The configured number of workers.
    pub fn configured_worker_count(&self) -> (count: usize)
        ensures
            count == self@.worker_count,
    {
        self.worker_count
    }

    /// The configured queue capacity.
    pub fn configured_queue_capacity(&self) -> (capacity: Option<usize>)
        ensures
            capacity == self@.queue_capacity,
    {
        self.queue_capacity
    }

    /// The configured thread name prefix.
    pub fn configured_thread_name_prefix(&self) -> (prefix: &str)
        ensures
            prefix@ == self@.thread_name_prefix,
    {
        self.thread_name_prefix.as_str()
    }

    /// The configured stack size.
    pub fn configured_stack_size(&self) -> (stack_size: Option<usize>)
        ensures
            stack_size == self@.stack_size,
    {
        self.stack_size
    }

    /// Validates this configuration.
    pub fn validate(&self) -> (r: Result<(), ThreadPoolBuildError>)
        ensures
            r == self@.validation(),
    {
        if self.worker_count == 0 {
            return Err(ThreadPoolBuildError::ZeroWorkers);
        }
        if let Some(capacity) = self.queue_capacity {
            if capacity == 0 {
                return Err(ThreadPoolBuildError::ZeroQueueCapacity);
            }
        }
        if let Some(stack_size) = self.stack_size {
            if stack_size == 0 {
                return Err(ThreadPoolBuildError::ZeroStackSize);
            }
        }
        Ok(())
    }
}

} // verus!
