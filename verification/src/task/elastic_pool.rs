//! Thread pool that grows from a core size up to a maximum size.
//!
//! [`ElasticPoolState`] holds the pool's decisions: where a submission goes
//! (a new worker, the queue, or a refusal), what a worker asking for work
//! does next, when an idle worker retires, and how the pool sizes may be
//! changed. Each is stated exactly over [`ElasticPoolView`].
//! [`ElasticPoolInner`] keeps that state behind a mutex with one condition
//! variable. Starting a worker thread is left to a spawner that the caller
//! supplies; the pool calls it while it holds the lock and undoes its
//! bookkeeping when the spawner fails.
use crate::std_sync::{duration_from_parts, Monitor};
use crate::task::pool_job::PoolJob;
use crate::task::rejected_execution::RejectedExecution;
use crate::task::shutdown_report::ShutdownReport;
use crate::task::thread_pool::{ThreadPoolBuildError, ThreadPoolLifecycle, WorkerPoll};
use std::collections::VecDeque;
use vstd::prelude::*;

verus! {

/// How long an idle worker may wait for work before it may retire: whole
/// seconds and the nanoseconds below one second, as a `Duration` holds them.
#[derive(Debug, Clone, Copy, PartialEq, Eq, Structural)]
pub struct KeepAlive {
    secs: u64,
    nanos: u32,
}

impl KeepAlive {
    #[verifier::type_invariant]
    spec fn nanos_below_one_second(self) -> bool {
        self.nanos < 1_000_000_000
    }

    /// The whole seconds.
    pub closed spec fn seconds(self) -> u64 {
        self.secs
    }

    /// The nanoseconds below one second.
    pub closed spec fn nanoseconds(self) -> u32 {
        self.nanos
    }

    /// The timeout spans no time.
    pub open spec fn spans_no_time(self) -> bool {
        self.seconds() == 0 && self.nanoseconds() == 0
    }

    /// A keep-alive of `secs` seconds and `nanos` nanoseconds.
    pub fn new(secs: u64, nanos: u32) -> (keep_alive: Self)
        requires
            nanos < 1_000_000_000,
        ensures
            keep_alive.seconds() == secs,
            keep_alive.nanoseconds() == nanos,
    {
        KeepAlive { secs, nanos }
    }

    /// The whole seconds.
    pub fn as_secs(&self) -> (secs: u64)
        ensures
            secs == self.seconds(),
    {
        self.secs
    }

    /// The nanoseconds below one second.
    pub fn subsec_nanos(&self) -> (nanos: u32)
        ensures
            nanos == self.nanoseconds(),
            nanos < 1_000_000_000,
    {
        proof {
            use_type_invariant(self);
        }
        self.nanos
    }

    /// Returns whether the timeout spans no time.
    pub fn is_zero(&self) -> (zero: bool)
        ensures
            zero == self.spans_no_time(),
    {
        self.secs == 0 && self.nanos == 0
    }
}

/// Where a submission goes.
pub enum SubmitRoute {
    /// The submission is refused with this reason.
    Refused(RejectedExecution),
    /// A new worker starts with the submitted job as its first task.
    StartWorker,
    /// The job waits in the queue.
    Enqueue,
}

/// The next value of a worker index: one more, wrapping to zero after the
/// largest `usize`.
pub open spec fn following_index(index: usize) -> usize {
    if index < usize::MAX {
        (index + 1) as usize
    } else {
        0
    }
}

/// A statistics counter after `amount` more events; it stops at the largest
/// `usize`.
pub open spec fn counted(count: usize, amount: nat) -> usize {
    if count + amount <= usize::MAX {
        (count + amount) as usize
    } else {
        usize::MAX
    }
}

/// Mathematical model of an elastic pool state.
pub struct ElasticPoolView {
    /// Current lifecycle.
    pub lifecycle: ThreadPoolLifecycle,
    /// Accepted jobs not yet taken by a worker, oldest first.
    pub queue: Seq<PoolJob>,
    /// Maximum queue length, or `None` for an unbounded queue.
    pub queue_capacity: Option<usize>,
    /// Workers the pool keeps even when they are idle.
    pub core_pool_size: usize,
    /// Workers the pool may have at most.
    pub maximum_pool_size: usize,
    /// How long an idle worker waits before it may retire.
    pub keep_alive: KeepAlive,
    /// Whether idle core workers may retire too.
    pub allow_core_thread_timeout: bool,
    /// Workers started and not yet exited.
    pub live_workers: usize,
    /// Workers waiting for work.
    pub idle_workers: usize,
    /// Jobs held by workers and not yet finished.
    pub running_tasks: usize,
    /// Jobs accepted so far.
    pub submitted_tasks: usize,
    /// Jobs finished so far.
    pub completed_tasks: usize,
    /// Queued jobs cancelled so far.
    pub cancelled_tasks: usize,
    /// Index given to the next worker started.
    pub next_worker_index: usize,
}

impl ElasticPoolView {
    /// The queue is full.
    pub open spec fn is_saturated(self) -> bool {
        match self.queue_capacity {
            Some(capacity) => self.queue.len() >= capacity,
            None => false,
        }
    }

    /// Shutdown has been requested and nothing is queued, running or alive.
    pub open spec fn is_terminated(self) -> bool {
        &&& !(self.lifecycle is Running)
        &&& self.queue.len() == 0
        &&& self.running_tasks == 0
        &&& self.live_workers == 0
    }

    /// Sizes are consistent, the queue respects its capacity, and a stopping
    /// pool queues nothing.
    pub open spec fn well_formed(self) -> bool {
        &&& 0 < self.maximum_pool_size
        &&& self.core_pool_size <= self.maximum_pool_size
        &&& (self.queue_capacity is Some ==> self.queue.len() <= self.queue_capacity->0)
        &&& (self.lifecycle is Stopping ==> self.queue.len() == 0)
    }

    /// An idle worker waits at most the keep-alive: core workers may time
    /// out, or there are more workers than the core size.
    pub open spec fn worker_wait_is_timed(self) -> bool {
        self.allow_core_thread_timeout || self.live_workers > self.core_pool_size
    }

    /// An idle worker whose wait timed out may retire: the wait was timed
    /// for the state it wakes up to, and some worker is alive.
    pub open spec fn idle_worker_can_retire(self) -> bool {
        self.live_workers > 0 && self.worker_wait_is_timed()
    }

    /// Where a submission goes: refused after shutdown; to a new worker
    /// below the core size; into the queue while it has room; to a new
    /// worker below the maximum size; refused otherwise.
    pub open spec fn submit_route(self) -> SubmitRoute {
        if !(self.lifecycle is Running) {
            SubmitRoute::Refused(RejectedExecution::Shutdown)
        } else if self.live_workers < self.core_pool_size {
            SubmitRoute::StartWorker
        } else if !self.is_saturated() {
            SubmitRoute::Enqueue
        } else if self.live_workers < self.maximum_pool_size {
            SubmitRoute::StartWorker
        } else {
            SubmitRoute::Refused(RejectedExecution::Saturated)
        }
    }

    /// This state once a worker is counted before its thread is started,
    /// holding a first task or not.
    pub open spec fn with_worker_reserved(self, with_first_task: bool) -> ElasticPoolView {
        ElasticPoolView {
            next_worker_index: following_index(self.next_worker_index),
            live_workers: (self.live_workers + 1) as usize,
            running_tasks: if with_first_task {
                (self.running_tasks + 1) as usize
            } else {
                self.running_tasks
            },
            ..self
        }
    }

    /// This state once a reserved worker's thread failed to start: the
    /// worker is uncounted, and so is one running task if any is counted.
    pub open spec fn after_spawn_failure(self) -> ElasticPoolView {
        ElasticPoolView {
            live_workers: (self.live_workers - 1) as usize,
            running_tasks: if self.running_tasks > 0 {
                (self.running_tasks - 1) as usize
            } else {
                0
            },
            ..self
        }
    }

    /// This state with one more accepted job counted.
    pub open spec fn with_submission_counted(self) -> ElasticPoolView {
        ElasticPoolView { submitted_tasks: counted(self.submitted_tasks, 1), ..self }
    }

    /// This state with `job` appended to the queue and counted.
    pub open spec fn with_queued(self, job: PoolJob) -> ElasticPoolView {
        ElasticPoolView {
            queue: self.queue.push(job),
            submitted_tasks: counted(self.submitted_tasks, 1),
            ..self
        }
    }

    /// This state with the newest queued job taken back and uncounted.
    pub open spec fn without_newest_queued(self) -> ElasticPoolView {
        ElasticPoolView {
            queue: self.queue.drop_last(),
            submitted_tasks: if self.submitted_tasks > 0 {
                (self.submitted_tasks - 1) as usize
            } else {
                0
            },
            ..self
        }
    }

    /// This state after a graceful shutdown request.
    pub open spec fn after_shutdown(self) -> ElasticPoolView {
        ElasticPoolView {
            lifecycle: if self.lifecycle is Running {
                ThreadPoolLifecycle::Shutdown
            } else {
                self.lifecycle
            },
            ..self
        }
    }

    /// This state after an immediate shutdown request: stopping, with the
    /// queued jobs taken out and counted as cancelled.
    pub open spec fn after_shutdown_now(self) -> ElasticPoolView {
        ElasticPoolView {
            lifecycle: ThreadPoolLifecycle::Stopping,
            queue: Seq::empty(),
            cancelled_tasks: counted(self.cancelled_tasks, self.queue.len()),
            ..self
        }
    }

    /// The report an immediate shutdown gives in this state.
    pub open spec fn shutdown_report(self) -> ShutdownReport {
        ShutdownReport {
            queued: self.queue.len() as usize,
            running: self.running_tasks,
            cancelled: self.queue.len() as usize,
        }
    }

    /// A worker may take a job: the pool is not stopping and work is queued.
    pub open spec fn has_job_for_worker(self) -> bool {
        !(self.lifecycle is Stopping) && self.queue.len() > 0
    }

    /// A worker asking for work and finding none it may take must exit:
    /// the pool is shutting down, or it has more workers than its maximum.
    pub open spec fn worker_must_exit(self) -> bool {
        !self.has_job_for_worker() && (!(self.lifecycle is Running)
            || self.live_workers > self.maximum_pool_size)
    }

    /// A worker asking for work in this state is sent away: it must exit,
    /// its timed wait ran out and it may retire, or the state is outside the
    /// counts a live worker keeps (no live worker, or a running count at its
    /// largest value).
    pub open spec fn sends_worker_away(self) -> bool {
        ||| self.worker_must_exit()
        ||| self.retires_after_wait(true)
        ||| self.live_workers == 0
        ||| self.running_tasks == usize::MAX
    }

    /// This state after a worker took the oldest queued job.
    pub open spec fn after_take(self) -> ElasticPoolView {
        ElasticPoolView {
            queue: self.queue.drop_first(),
            running_tasks: (self.running_tasks + 1) as usize,
            ..self
        }
    }

    /// This state with one live worker fewer.
    pub open spec fn after_worker_exit(self) -> ElasticPoolView {
        ElasticPoolView { live_workers: (self.live_workers - 1) as usize, ..self }
    }

    /// This state after a worker finished its job.
    pub open spec fn after_job_finished(self) -> ElasticPoolView {
        ElasticPoolView {
            running_tasks: (self.running_tasks - 1) as usize,
            completed_tasks: counted(self.completed_tasks, 1),
            ..self
        }
    }

    /// This state with one more worker waiting.
    pub open spec fn with_idle_worker(self) -> ElasticPoolView {
        ElasticPoolView { idle_workers: (self.idle_workers + 1) as usize, ..self }
    }

    /// This state with one waiting worker woken up.
    pub open spec fn without_idle_worker(self) -> ElasticPoolView {
        ElasticPoolView { idle_workers: (self.idle_workers - 1) as usize, ..self }
    }

    /// A worker woken up from its wait retires: the wait timed out, nothing
    /// is queued, and idle workers may retire.
    pub open spec fn retires_after_wait(self, timed_out: bool) -> bool {
        timed_out && self.queue.len() == 0 && self.idle_worker_can_retire()
    }

    /// The answer to a new core pool size.
    pub open spec fn core_size_answer(self, core_pool_size: usize) -> Result<(), ThreadPoolBuildError> {
        if core_pool_size > self.maximum_pool_size {
            Err(
                ThreadPoolBuildError::CorePoolSizeExceedsMaximum {
                    core_pool_size,
                    maximum_pool_size: self.maximum_pool_size,
                },
            )
        } else {
            Ok(())
        }
    }

    /// The answer to a new maximum pool size.
    pub open spec fn maximum_size_answer(self, maximum_pool_size: usize) -> Result<
        (),
        ThreadPoolBuildError,
    > {
        if maximum_pool_size == 0 {
            Err(ThreadPoolBuildError::ZeroMaximumPoolSize)
        } else if self.core_pool_size > maximum_pool_size {
            Err(
                ThreadPoolBuildError::CorePoolSizeExceedsMaximum {
                    core_pool_size: self.core_pool_size,
                    maximum_pool_size,
                },
            )
        } else {
            Ok(())
        }
    }

    /// The answer to a new keep-alive timeout.
    pub open spec fn keep_alive_answer(keep_alive: KeepAlive) -> Result<(), ThreadPoolBuildError> {
        if keep_alive.spans_no_time() {
            Err(ThreadPoolBuildError::ZeroKeepAlive)
        } else {
            Ok(())
        }
    }

    /// This state with a new core pool size.
    pub open spec fn with_core_pool_size(self, core_pool_size: usize) -> ElasticPoolView {
        ElasticPoolView { core_pool_size, ..self }
    }

    /// This state with a new maximum pool size.
    pub open spec fn with_maximum_pool_size(self, maximum_pool_size: usize) -> ElasticPoolView {
        ElasticPoolView { maximum_pool_size, ..self }
    }

    /// Whether a submission in this state asks the spawner for a worker.
    pub open spec fn submission_starts_worker(self) -> bool {
        ||| self.submit_route() is StartWorker
        ||| (self.submit_route() is Enqueue && self.live_workers == 0)
    }

    /// The answer to a submission of `job` and the state after it, given
    /// whether the worker thread it asked for, if any, was started.
    pub open spec fn after_submit(self, job: PoolJob, started: bool) -> (
        Result<(), RejectedExecution>,
        ElasticPoolView,
    ) {
        match self.submit_route() {
            SubmitRoute::Refused(reason) => (Err(reason), self),
            SubmitRoute::StartWorker => if started {
                (Ok(()), self.with_worker_reserved(true).with_submission_counted())
            } else {
                (
                    Err(RejectedExecution::WorkerSpawnFailed),
                    self.with_worker_reserved(true).after_spawn_failure(),
                )
            },
            SubmitRoute::Enqueue => if self.live_workers > 0 {
                (Ok(()), self.with_queued(job))
            } else if started {
                (Ok(()), self.with_queued(job).with_worker_reserved(false))
            } else {
                (
                    Err(RejectedExecution::WorkerSpawnFailed),
                    self.with_queued(job).with_worker_reserved(
                        false,
                    ).after_spawn_failure().without_newest_queued(),
                )
            },
        }
    }

    /// The job a submission of `job` hands back for cancelling: the job
    /// itself when it was queued but no worker could be started for it.
    pub open spec fn withdrawn_job(self, job: PoolJob, started: bool) -> Option<PoolJob> {
        if self.submit_route() is Enqueue && self.live_workers == 0 && !started {
            Some(job)
        } else {
            None
        }
    }

    /// The answer to a request to start one missing core worker, and the
    /// state after it, given whether the worker thread was started.
    pub open spec fn after_prestart(self, started: bool) -> (
        Result<bool, RejectedExecution>,
        ElasticPoolView,
    ) {
        if !(self.lifecycle is Running) {
            (Err(RejectedExecution::Shutdown), self)
        } else if self.live_workers >= self.core_pool_size {
            (Ok(false), self)
        } else if started {
            (Ok(true), self.with_worker_reserved(false))
        } else {
            (
                Err(RejectedExecution::WorkerSpawnFailed),
                self.with_worker_reserved(false).after_spawn_failure(),
            )
        }
    }

    /// The submitted jobs are exactly those finished, running, queued or
    /// cancelled.
    pub open spec fn accounts_for_every_job(self) -> bool {
        self.submitted_tasks == self.completed_tasks + self.running_tasks + self.queue.len()
            + self.cancelled_tasks
    }
}


/// A submission starts a worker only below the maximum pool size, and
/// beyond the core size only when the queue is full; a job is queued only
/// once the core workers are started and while the queue has room; a running
/// pool refuses a job only when both its queue and its workers are at their
/// limits.
pub proof fn lemma_submission_respects_pool_sizes(state: ElasticPoolView)
    requires
        state.well_formed(),
    ensures
        state.submit_route() is StartWorker ==> state.live_workers < state.maximum_pool_size,
        state.submit_route() is StartWorker && state.live_workers >= state.core_pool_size
            ==> state.is_saturated(),
        state.submit_route() is Enqueue ==> state.live_workers >= state.core_pool_size
            && !state.is_saturated(),
        state.lifecycle is Running && state.submit_route() is Refused ==> state.submit_route()
            == SubmitRoute::Refused(RejectedExecution::Saturated) && state.is_saturated()
            && state.live_workers >= state.maximum_pool_size,
{
}

/// After a graceful or an immediate shutdown, every submission is refused
/// with `Shutdown` and no worker is started for it.
pub proof fn lemma_shutdown_refuses_submissions(state: ElasticPoolView, job: PoolJob, started: bool)
    ensures
        state.after_shutdown().submit_route() == SubmitRoute::Refused(RejectedExecution::Shutdown),
        state.after_shutdown_now().submit_route() == SubmitRoute::Refused(
            RejectedExecution::Shutdown,
        ),
        state.after_shutdown().after_submit(job, started) == (
            Err::<(), RejectedExecution>(RejectedExecution::Shutdown),
            state.after_shutdown(),
        ),
        state.after_shutdown().after_prestart(started).0 == Err::<bool, RejectedExecution>(
            RejectedExecution::Shutdown,
        ),
{
}

/// The lifecycle only moves forward, `Running` to `Shutdown` to `Stopping`,
/// and nothing but a shutdown request moves it.
pub proof fn lemma_elastic_lifecycle_never_regresses(
    state: ElasticPoolView,
    job: PoolJob,
    started: bool,
)
    ensures
        state.after_shutdown().lifecycle.stage() >= state.lifecycle.stage(),
        state.after_shutdown_now().lifecycle.stage() >= state.lifecycle.stage(),
        state.after_submit(job, started).1.lifecycle == state.lifecycle,
        state.after_prestart(started).1.lifecycle == state.lifecycle,
        state.after_take().lifecycle == state.lifecycle,
        state.after_worker_exit().lifecycle == state.lifecycle,
        state.after_job_finished().lifecycle == state.lifecycle,
{
}

/// Idle workers retire only beyond the core size unless core workers may
/// time out: a pool at or below its core size without core timeouts waits
/// untimed and keeps every idle worker. A worker retires only after its wait
/// timed out with nothing queued.
pub proof fn lemma_idle_workers_retire_only_when_allowed(state: ElasticPoolView, timed_out: bool)
    ensures
        !state.allow_core_thread_timeout && state.live_workers <= state.core_pool_size ==> (
        !state.worker_wait_is_timed() && !state.retires_after_wait(timed_out)),
        state.retires_after_wait(timed_out) ==> timed_out && state.queue.len() == 0,
{
}

/// A worker asking for work takes queued work while the pool is running or
/// draining, leaves when the pool has more workers than its maximum and
/// nothing is queued, and always leaves a stopping pool.
pub proof fn lemma_worker_steps(state: ElasticPoolView)
    ensures
        !(state.lifecycle is Stopping) && state.queue.len() > 0 ==> state.has_job_for_worker()
            && !state.worker_must_exit(),
        state.lifecycle is Running && state.queue.len() == 0 && state.live_workers
            > state.maximum_pool_size ==> state.worker_must_exit(),
        state.lifecycle is Running && state.live_workers <= state.maximum_pool_size
            ==> !state.worker_must_exit(),
        state.lifecycle is Shutdown && state.queue.len() == 0 ==> state.worker_must_exit(),
        state.lifecycle is Stopping ==> state.worker_must_exit(),
{
}

/// An accepted size change keeps the core size within the maximum size; a
/// refused one names the two sizes that conflict and changes nothing.
pub proof fn lemma_size_changes_keep_core_within_maximum(
    state: ElasticPoolView,
    core_pool_size: usize,
    maximum_pool_size: usize,
)
    requires
        state.well_formed(),
    ensures
        state.core_size_answer(core_pool_size) is Ok ==> state.with_core_pool_size(
            core_pool_size,
        ).well_formed(),
        state.maximum_size_answer(maximum_pool_size) is Ok ==> state.with_maximum_pool_size(
            maximum_pool_size,
        ).well_formed(),
        state.core_size_answer(core_pool_size) is Err ==> core_pool_size
            > state.maximum_pool_size,
        state.maximum_size_answer(maximum_pool_size) is Err ==> maximum_pool_size == 0
            || state.core_pool_size > maximum_pool_size,
{
}

/// An accepted core size takes effect: the statistics report it beside the
/// unchanged maximum size, and while the pool runs with fewer live workers
/// than the new core size, the next submission starts a worker.
pub proof fn lemma_core_size_change_takes_effect(state: ElasticPoolView, core_pool_size: usize)
    requires
        state.core_size_answer(core_pool_size) is Ok,
    ensures
        core_pool_size <= state.maximum_pool_size,
        state.with_core_pool_size(core_pool_size).stats().core_pool_size == core_pool_size,
        state.with_core_pool_size(core_pool_size).stats().maximum_pool_size
            == state.maximum_pool_size,
        state.lifecycle is Running && state.live_workers < core_pool_size ==> state.with_core_pool_size(
            core_pool_size,
        ).submit_route() is StartWorker,
{
}

/// Every step keeps the job accounting: the submitted jobs are exactly the
/// finished, running, queued and cancelled ones. The counters are taken
/// below their largest value. A failed worker start without a first task
/// keeps it only while no task is running, since it also uncounts a running
/// task.
pub proof fn lemma_transitions_account_for_every_job(
    state: ElasticPoolView,
    job: PoolJob,
    started: bool,
    timed_out: bool,
)
    requires
        state.accounts_for_every_job(),
        state.submitted_tasks < usize::MAX,
        state.completed_tasks < usize::MAX,
        state.cancelled_tasks + state.queue.len() <= usize::MAX,
        state.live_workers < usize::MAX,
        state.running_tasks < usize::MAX,
    ensures
        state.submit_route() is StartWorker || state.live_workers > 0 || state.running_tasks == 0
            ==> state.after_submit(job, started).1.accounts_for_every_job(),
        state.lifecycle is Running && state.live_workers < state.core_pool_size && (started
            || state.running_tasks == 0) ==> state.after_prestart(started).1.accounts_for_every_job(),
        state.has_job_for_worker() ==> state.after_take().accounts_for_every_job(),
        state.running_tasks > 0 ==> state.after_job_finished().accounts_for_every_job(),
        state.after_shutdown().accounts_for_every_job(),
        state.after_shutdown_now().accounts_for_every_job(),
        state.live_workers > 0 ==> state.after_worker_exit().accounts_for_every_job(),
        state.with_idle_worker().accounts_for_every_job(),
{
    if state.submit_route() is Enqueue && state.live_workers == 0 && !started {
        let queued = state.with_queued(job).with_worker_reserved(false).after_spawn_failure();
        assert(queued.queue.drop_last() =~= state.queue);
    }
}

/// An elastic pool is terminated exactly when shutdown was requested and
/// nothing is queued, no job is running and no worker is alive; an immediate
/// shutdown leaves nothing queued.
pub proof fn lemma_elastic_terminated_iff_drained(state: ElasticPoolView)
    ensures
        state.is_terminated() <==> (!(state.lifecycle is Running) && state.queue.len() == 0
            && state.running_tasks == 0 && state.live_workers == 0),
        state.after_shutdown_now().queue.len() == 0,
{
}

/// Jobs leave the queue in the order they entered it.
pub proof fn lemma_elastic_queue_is_fifo(state: ElasticPoolView, job: PoolJob)
    ensures
        state.queue.len() > 0 ==> state.with_queued(job).queue[0] == state.queue[0],
        state.queue.len() == 0 ==> state.with_queued(job).queue[0] == job,
        state.queue.len() > 0 ==> state.with_queued(job).after_take().queue
            == state.after_take().queue.push(job),
{
    if state.queue.len() > 0 {
        assert(state.with_queued(job).after_take().queue =~= state.after_take().queue.push(job));
    }
}

/// Configuration of an elastic pool.
pub struct ElasticPoolConfig {
    /// Workers the pool keeps even when they are idle.
    pub core_pool_size: usize,
    /// Workers the pool may have at most.
    pub maximum_pool_size: usize,
    /// Maximum queue length, or `None` for an unbounded queue.
    pub queue_capacity: Option<usize>,
    /// How long an idle worker waits before it may retire.
    pub keep_alive: KeepAlive,
    /// Whether idle core workers may retire too.
    pub allow_core_thread_timeout: bool,
    /// Prefix of the worker thread names.
    pub thread_name_prefix: String,
    /// Stack size in bytes of each worker, or `None` for the default.
    pub stack_size: Option<usize>,
}

impl ElasticPoolConfig {
    /// The configuration error, checked in this order: a zero maximum size,
    /// a core size above the maximum, a zero-capacity queue, a keep-alive
    /// that spans no time, a zero stack size.
    pub open spec fn validation(&self) -> Result<(), ThreadPoolBuildError> {
        if self.maximum_pool_size == 0 {
            Err(ThreadPoolBuildError::ZeroMaximumPoolSize)
        } else if self.core_pool_size > self.maximum_pool_size {
            Err(
                ThreadPoolBuildError::CorePoolSizeExceedsMaximum {
                    core_pool_size: self.core_pool_size,
                    maximum_pool_size: self.maximum_pool_size,
                },
            )
        } else if self.queue_capacity == Some(0usize) {
            Err(ThreadPoolBuildError::ZeroQueueCapacity)
        } else if self.keep_alive.spans_no_time() {
            Err(ThreadPoolBuildError::ZeroKeepAlive)
        } else if self.stack_size == Some(0usize) {
            Err(ThreadPoolBuildError::ZeroStackSize)
        } else {
            Ok(())
        }
    }

    /// Validates this configuration.
    pub fn validate(&self) -> (r: Result<(), ThreadPoolBuildError>)
        ensures
            r == self.validation(),
    {
        if self.maximum_pool_size == 0 {
            return Err(ThreadPoolBuildError::ZeroMaximumPoolSize);
        }
        if self.core_pool_size > self.maximum_pool_size {
            return Err(
                ThreadPoolBuildError::CorePoolSizeExceedsMaximum {
                    core_pool_size: self.core_pool_size,
                    maximum_pool_size: self.maximum_pool_size,
                },
            );
        }
        if let Some(capacity) = self.queue_capacity {
            if capacity == 0 {
                return Err(ThreadPoolBuildError::ZeroQueueCapacity);
            }
        }
        if self.keep_alive.is_zero() {
            return Err(ThreadPoolBuildError::ZeroKeepAlive);
        }
        if let Some(stack_size) = self.stack_size {
            if stack_size == 0 {
                return Err(ThreadPoolBuildError::ZeroStackSize);
            }
        }
        Ok(())
    }
}

/// What a worker asking for work must do next.
pub enum ElasticWorkerStep {
    /// Run this job, already counted as running.
    Run(PoolJob),
    /// Exit the worker loop, already counted as exited.
    Exit,
    /// Wait for a notification, at most this long.
    WaitAtMost(KeepAlive),
    /// Wait for a notification without a timeout.
    Wait,
}

/// A point-in-time snapshot of an elastic pool's counters.
#[derive(Debug, Clone, Copy, PartialEq, Eq, Structural)]
pub struct ElasticPoolStats {
    /// Workers the pool keeps even when they are idle.
    pub core_pool_size: usize,
    /// Workers the pool may have at most.
    pub maximum_pool_size: usize,
    /// Workers started and not yet exited.
    pub live_workers: usize,
    /// Workers waiting for work.
    pub idle_workers: usize,
    /// Jobs waiting in the queue.
    pub queued_tasks: usize,
    /// Jobs held by workers.
    pub running_tasks: usize,
    /// Jobs accepted so far.
    pub submitted_tasks: usize,
    /// Jobs finished so far.
    pub completed_tasks: usize,
    /// Queued jobs cancelled so far.
    pub cancelled_tasks: usize,
    /// Whether shutdown has been requested.
    pub shutdown: bool,
    /// Whether the pool is terminated.
    pub terminated: bool,
}

impl ElasticPoolView {
    /// The snapshot of this state's counters.
    pub open spec fn stats(self) -> ElasticPoolStats {
        ElasticPoolStats {
            core_pool_size: self.core_pool_size,
            maximum_pool_size: self.maximum_pool_size,
            live_workers: self.live_workers,
            idle_workers: self.idle_workers,
            queued_tasks: self.queue.len() as usize,
            running_tasks: self.running_tasks,
            submitted_tasks: self.submitted_tasks,
            completed_tasks: self.completed_tasks,
            cancelled_tasks: self.cancelled_tasks,
            shutdown: !(self.lifecycle is Running),
            terminated: self.is_terminated(),
        }
    }
}

/// Mutable state of an elastic pool, kept behind [`ElasticPoolInner`]'s
/// mutex.
pub struct ElasticPoolState {
    lifecycle: ThreadPoolLifecycle,
    queue: VecDeque<PoolJob>,
    queue_capacity: Option<usize>,
    core_pool_size: usize,
    maximum_pool_size: usize,
    keep_alive: KeepAlive,
    allow_core_thread_timeout: bool,
    live_workers: usize,
    idle_workers: usize,
    running_tasks: usize,
    submitted_tasks: usize,
    completed_tasks: usize,
    cancelled_tasks: usize,
    next_worker_index: usize,
}

impl View for ElasticPoolState {
    type V = ElasticPoolView;

    closed spec fn view(&self) -> ElasticPoolView {
        ElasticPoolView {
            lifecycle: self.lifecycle,
            queue: self.queue@,
            queue_capacity: self.queue_capacity,
            core_pool_size: self.core_pool_size,
            maximum_pool_size: self.maximum_pool_size,
            keep_alive: self.keep_alive,
            allow_core_thread_timeout: self.allow_core_thread_timeout,
            live_workers: self.live_workers,
            idle_workers: self.idle_workers,
            running_tasks: self.running_tasks,
            submitted_tasks: self.submitted_tasks,
            completed_tasks: self.completed_tasks,
            cancelled_tasks: self.cancelled_tasks,
            next_worker_index: self.next_worker_index,
        }
    }
}

impl ElasticPoolState {
    /// A running state with the configured sizes, an empty queue, no
    /// workers and zero counters.
    pub fn new(config: &ElasticPoolConfig) -> (state: Self)
        requires
            config.validation() is Ok,
        ensures
            state@ == (ElasticPoolView {
                lifecycle: ThreadPoolLifecycle::Running,
                queue: Seq::empty(),
                queue_capacity: config.queue_capacity,
                core_pool_size: config.core_pool_size,
                maximum_pool_size: config.maximum_pool_size,
                keep_alive: config.keep_alive,
                allow_core_thread_timeout: config.allow_core_thread_timeout,
                live_workers: 0,
                idle_workers: 0,
                running_tasks: 0,
                submitted_tasks: 0,
                completed_tasks: 0,
                cancelled_tasks: 0,
                next_worker_index: 0,
            }),
            state@.well_formed(),
            state@.accounts_for_every_job(),
    {
        ElasticPoolState {
            lifecycle: ThreadPoolLifecycle::Running,
            queue: VecDeque::new(),
            queue_capacity: config.queue_capacity,
            core_pool_size: config.core_pool_size,
            maximum_pool_size: config.maximum_pool_size,
            keep_alive: config.keep_alive,
            allow_core_thread_timeout: config.allow_core_thread_timeout,
            live_workers: 0,
            idle_workers: 0,
            running_tasks: 0,
            submitted_tasks: 0,
            completed_tasks: 0,
            cancelled_tasks: 0,
            next_worker_index: 0,
        }
    }

    /// The current lifecycle.
    pub fn lifecycle(&self) -> (lifecycle: ThreadPoolLifecycle)
        ensures
            lifecycle == self@.lifecycle,
    {
        self.lifecycle
    }

    /// Number of live workers.
    pub fn live_workers(&self) -> (count: usize)
        ensures
            count == self@.live_workers,
    {
        self.live_workers
    }

    /// Number of idle workers.
    pub fn idle_workers(&self) -> (count: usize)
        ensures
            count == self@.idle_workers,
    {
        self.idle_workers
    }

    /// Number of jobs held by workers.
    pub fn running_tasks(&self) -> (count: usize)
        ensures
            count == self@.running_tasks,
    {
        self.running_tasks
    }

    /// Returns whether the queue is currently full.
    pub fn is_saturated(&self) -> (saturated: bool)
        ensures
            saturated == self@.is_saturated(),
    {
        match self.queue_capacity {
            Some(capacity) => self.queue.len() >= capacity,
            None => false,
        }
    }

    /// Returns whether the pool lifecycle is fully terminated.
    pub fn is_terminated(&self) -> (terminated: bool)
        ensures
            terminated == self@.is_terminated(),
    {
        !self.lifecycle.is_running() && self.queue.len() == 0 && self.running_tasks == 0
            && self.live_workers == 0
    }

    /// A snapshot of the counters.
    pub fn stats(&self) -> (stats: ElasticPoolStats)
        ensures
            stats == self@.stats(),
    {
        ElasticPoolStats {
            core_pool_size: self.core_pool_size,
            maximum_pool_size: self.maximum_pool_size,
            live_workers: self.live_workers,
            idle_workers: self.idle_workers,
            queued_tasks: self.queue.len(),
            running_tasks: self.running_tasks,
            submitted_tasks: self.submitted_tasks,
            completed_tasks: self.completed_tasks,
            cancelled_tasks: self.cancelled_tasks,
            shutdown: !self.lifecycle.is_running(),
            terminated: self.is_terminated(),
        }
    }

    /// Counts a new worker, asks `spawn` to start its thread with index
    /// `next_worker_index` and `first_task`, and uncounts it again if the
    /// spawner fails. The index is used up either way.
    pub fn spawn_worker<F>(&mut self, first_task: Option<PoolJob>, spawn: &F) -> (r: Result<
        (),
        RejectedExecution,
    >) where F: Fn(usize, Option<PoolJob>) -> Result<(), std::io::Error>
        requires
            old(self)@.live_workers < usize::MAX,
            first_task is Some ==> old(self)@.running_tasks < usize::MAX,
            forall|index: usize, task: Option<PoolJob>| spawn.requires((index, task)),
        ensures
            r is Ok ==> final(self)@ == old(self)@.with_worker_reserved(first_task is Some),
            r is Err ==> r == Err::<(), RejectedExecution>(RejectedExecution::WorkerSpawnFailed)
                && final(self)@ == old(self)@.with_worker_reserved(
                first_task is Some,
            ).after_spawn_failure(),
            exists|outcome: Result<(), std::io::Error>|
                spawn.ensures((old(self)@.next_worker_index, first_task), outcome) && (outcome is Ok
                    <==> r is Ok),
    {
        let index = self.next_worker_index;
        self.next_worker_index = if index < usize::MAX {
            index + 1
        } else {
            0
        };
        self.live_workers = self.live_workers + 1;
        if first_task.is_some() {
            self.running_tasks = self.running_tasks + 1;
        }
        let outcome = spawn(index, first_task);
        match outcome {
            Ok(()) => Ok(()),
            Err(_) => {
                self.live_workers = self.live_workers - 1;
                if self.running_tasks > 0 {
                    self.running_tasks = self.running_tasks - 1;
                }
                Err(RejectedExecution::WorkerSpawnFailed)
            },
        }
    }

    /// Decides where a submission goes.
    pub fn route_submission(&self) -> (route: SubmitRoute)
        ensures
            route == self@.submit_route(),
    {
        if !self.lifecycle.is_running() {
            SubmitRoute::Refused(RejectedExecution::Shutdown)
        } else if self.live_workers < self.core_pool_size {
            SubmitRoute::StartWorker
        } else if !self.is_saturated() {
            SubmitRoute::Enqueue
        } else if self.live_workers < self.maximum_pool_size {
            SubmitRoute::StartWorker
        } else {
            SubmitRoute::Refused(RejectedExecution::Saturated)
        }
    }

    /// Submits `job`: refuses it after shutdown; starts a worker with it as
    /// first task below the core size; queues it while the queue has room,
    /// starting a worker if none is alive; starts a worker with it below the
    /// maximum size; refuses it otherwise. A queued job for which no worker
    /// could be started is taken back out and handed back for cancelling.
    pub fn submit<F>(&mut self, job: PoolJob, spawn: &F) -> (r: (
        Result<(), RejectedExecution>,
        Option<PoolJob>,
    )) where F: Fn(usize, Option<PoolJob>) -> Result<(), std::io::Error>
        requires
            old(self)@.live_workers < usize::MAX,
            old(self)@.running_tasks < usize::MAX,
            forall|index: usize, task: Option<PoolJob>| spawn.requires((index, task)),
        ensures
            (r.0, final(self)@) == old(self)@.after_submit(job, r.0 is Ok),
            r.1 == old(self)@.withdrawn_job(job, r.0 is Ok),
            old(self)@.submit_route() is StartWorker ==> exists|
                outcome: Result<(), std::io::Error>,
            |
                spawn.ensures((old(self)@.next_worker_index, Some(job)), outcome) && (outcome is Ok
                    <==> r.0 is Ok),
            old(self)@.submit_route() is Enqueue && old(self)@.live_workers == 0 ==> exists|
                outcome: Result<(), std::io::Error>,
            |
                spawn.ensures((old(self)@.next_worker_index, None::<PoolJob>), outcome) && (
                outcome is Ok <==> r.0 is Ok),
            old(self)@.well_formed() ==> final(self)@.well_formed(),
    {
        let ghost start = self@;
        match self.route_submission() {
            SubmitRoute::Refused(reason) => (Err(reason), None),
            SubmitRoute::StartWorker => {
                let started = self.spawn_worker(Some(job), spawn);
                if started.is_ok() {
                    self.submitted_tasks = self.submitted_tasks.saturating_add(1);
                    (Ok(()), None)
                } else {
                    (Err(RejectedExecution::WorkerSpawnFailed), None)
                }
            },
            SubmitRoute::Enqueue => {
                self.queue.push_back(job);
                self.submitted_tasks = self.submitted_tasks.saturating_add(1);
                assert(self@ == start.with_queued(job));
                if self.live_workers == 0 {
                    let started = self.spawn_worker(None, spawn);
                    if started.is_err() {
                        let withdrawn = self.queue.pop_back();
                        self.submitted_tasks = if self.submitted_tasks > 0 {
                            self.submitted_tasks - 1
                        } else {
                            0
                        };
                        assert(withdrawn == Some(job));
                        assert(self@ == start.with_queued(job).with_worker_reserved(
                            false,
                        ).after_spawn_failure().without_newest_queued());
                        return (Err(RejectedExecution::WorkerSpawnFailed), withdrawn);
                    }
                    assert(self@ == start.with_queued(job).with_worker_reserved(false));
                }
                (Ok(()), None)
            },
        }
    }

    /// Starts one missing core worker: `Ok(true)` when one was started,
    /// `Ok(false)` when the core size is already reached.
    pub fn prestart_core_thread<F>(&mut self, spawn: &F) -> (r: Result<bool, RejectedExecution>) where
        F: Fn(usize, Option<PoolJob>) -> Result<(), std::io::Error>
        requires
            old(self)@.live_workers < usize::MAX,
            forall|index: usize, task: Option<PoolJob>| spawn.requires((index, task)),
        ensures
            (r, final(self)@) == old(self)@.after_prestart(r == Ok::<bool, RejectedExecution>(true)),
            old(self)@.lifecycle is Running && old(self)@.live_workers < old(self)@.core_pool_size
                ==> exists|outcome: Result<(), std::io::Error>|
                spawn.ensures((old(self)@.next_worker_index, None::<PoolJob>), outcome) && (
                outcome is Ok <==> r is Ok),
            old(self)@.well_formed() ==> final(self)@.well_formed(),
    {
        if !self.lifecycle.is_running() {
            return Err(RejectedExecution::Shutdown);
        }
        if self.live_workers >= self.core_pool_size {
            return Ok(false);
        }
        match self.spawn_worker(None, spawn) {
            Ok(()) => Ok(true),
            Err(error) => Err(error),
        }
    }

    /// Requests graceful shutdown: a running pool starts draining its queue.
    pub fn shutdown(&mut self)
        ensures
            final(self)@ == old(self)@.after_shutdown(),
            old(self)@.well_formed() ==> final(self)@.well_formed(),
    {
        if self.lifecycle.is_running() {
            self.lifecycle = ThreadPoolLifecycle::Shutdown;
        }
    }

    /// Requests abrupt shutdown: stops the pool and hands back every queued
    /// job, oldest first, counted as cancelled, with a report of what was
    /// found.
    pub fn shutdown_now(&mut self) -> (r: (Vec<PoolJob>, ShutdownReport))
        ensures
            r.0@ == old(self)@.queue,
            r.1 == old(self)@.shutdown_report(),
            final(self)@ == old(self)@.after_shutdown_now(),
            old(self)@.well_formed() ==> final(self)@.well_formed(),
    {
        self.lifecycle = ThreadPoolLifecycle::Stopping;
        let queued = self.queue.len();
        let running = self.running_tasks;
        let ghost original = self.queue@;
        let mut jobs: Vec<PoolJob> = Vec::new();
        while self.queue.len() > 0
            invariant
                jobs@ + self.queue@ == original,
                self@ == (ElasticPoolView {
                    queue: self.queue@,
                    lifecycle: ThreadPoolLifecycle::Stopping,
                    ..old(self)@
                }),
            decreases self.queue@.len(),
        {
            let ghost before = self.queue@;
            if let Some(job) = self.queue.pop_front() {
                jobs.push(job);
                assert(jobs@ + self.queue@ =~= original) by {
                    assert(before =~= seq![job] + self.queue@);
                }
            }
        }
        self.cancelled_tasks = self.cancelled_tasks.saturating_add(queued);
        assert(jobs@ =~= original);
        assert(self.queue@ =~= Seq::<PoolJob>::empty());
        (jobs, ShutdownReport::new(queued, running, queued))
    }

    /// Sets the core pool size, unless it would exceed the maximum size.
    pub fn set_core_pool_size(&mut self, core_pool_size: usize) -> (r: Result<
        (),
        ThreadPoolBuildError,
    >)
        ensures
            r == old(self)@.core_size_answer(core_pool_size),
            r is Ok ==> final(self)@ == old(self)@.with_core_pool_size(core_pool_size),
            r is Err ==> final(self)@ == old(self)@,
    {
        if core_pool_size > self.maximum_pool_size {
            return Err(
                ThreadPoolBuildError::CorePoolSizeExceedsMaximum {
                    core_pool_size,
                    maximum_pool_size: self.maximum_pool_size,
                },
            );
        }
        self.core_pool_size = core_pool_size;
        Ok(())
    }

    /// Sets the maximum pool size, unless it is zero or below the core size.
    pub fn set_maximum_pool_size(&mut self, maximum_pool_size: usize) -> (r: Result<
        (),
        ThreadPoolBuildError,
    >)
        ensures
            r == old(self)@.maximum_size_answer(maximum_pool_size),
            r is Ok ==> final(self)@ == old(self)@.with_maximum_pool_size(maximum_pool_size),
            r is Err ==> final(self)@ == old(self)@,
    {
        if maximum_pool_size == 0 {
            return Err(ThreadPoolBuildError::ZeroMaximumPoolSize);
        }
        if self.core_pool_size > maximum_pool_size {
            return Err(
                ThreadPoolBuildError::CorePoolSizeExceedsMaximum {
                    core_pool_size: self.core_pool_size,
                    maximum_pool_size,
                },
            );
        }
        self.maximum_pool_size = maximum_pool_size;
        Ok(())
    }

    /// Sets the keep-alive timeout, unless it spans no time.
    pub fn set_keep_alive(&mut self, keep_alive: KeepAlive) -> (r: Result<
        (),
        ThreadPoolBuildError,
    >)
        ensures
            r == ElasticPoolView::keep_alive_answer(keep_alive),
            r is Ok ==> final(self)@ == (ElasticPoolView { keep_alive, ..old(self)@ }),
            r is Err ==> final(self)@ == old(self)@,
    {
        if keep_alive.is_zero() {
            return Err(ThreadPoolBuildError::ZeroKeepAlive);
        }
        self.keep_alive = keep_alive;
        Ok(())
    }

    /// Sets whether idle core workers may retire after the keep-alive.
    pub fn set_allow_core_thread_timeout(&mut self, allow: bool)
        ensures
            final(self)@ == (ElasticPoolView { allow_core_thread_timeout: allow, ..old(self)@ }),
    {
        self.allow_core_thread_timeout = allow;
    }

    /// Decides what a live worker asking for work does next: take the
    /// oldest queued job unless the pool is stopping; exit when the pool is
    /// shutting down with nothing queued, or has more workers than its
    /// maximum; otherwise wait, at most the keep-alive when the wait is
    /// timed.
    pub fn next_worker_step(&mut self) -> (step: ElasticWorkerStep)
        requires
            old(self)@.running_tasks < usize::MAX,
            old(self)@.live_workers > 0,
        ensures
            old(self)@.has_job_for_worker() ==> step == ElasticWorkerStep::Run(old(self)@.queue[0])
                && final(self)@ == old(self)@.after_take(),
            old(self)@.worker_must_exit() ==> step is Exit && final(self)@
                == old(self)@.after_worker_exit(),
            !old(self)@.has_job_for_worker() && !old(self)@.worker_must_exit() ==> final(self)@
                == old(self)@ && (old(self)@.worker_wait_is_timed() ==> step
                == ElasticWorkerStep::WaitAtMost(old(self)@.keep_alive)) && (
            !old(self)@.worker_wait_is_timed() ==> step is Wait),
            old(self)@.well_formed() ==> final(self)@.well_formed(),
    {
        match self.lifecycle {
            ThreadPoolLifecycle::Running => {
                if let Some(job) = self.queue.pop_front() {
                    self.running_tasks = self.running_tasks + 1;
                    return ElasticWorkerStep::Run(job);
                }
                if self.live_workers > self.maximum_pool_size {
                    self.live_workers = self.live_workers - 1;
                    return ElasticWorkerStep::Exit;
                }
                if self.allow_core_thread_timeout || self.live_workers > self.core_pool_size {
                    ElasticWorkerStep::WaitAtMost(self.keep_alive)
                } else {
                    ElasticWorkerStep::Wait
                }
            },
            ThreadPoolLifecycle::Shutdown => {
                if let Some(job) = self.queue.pop_front() {
                    self.running_tasks = self.running_tasks + 1;
                    return ElasticWorkerStep::Run(job);
                }
                self.live_workers = self.live_workers - 1;
                ElasticWorkerStep::Exit
            },
            ThreadPoolLifecycle::Stopping => {
                self.live_workers = self.live_workers - 1;
                ElasticWorkerStep::Exit
            },
        }
    }

    /// Counts a worker that starts waiting.
    pub fn begin_idle_wait(&mut self)
        requires
            old(self)@.idle_workers < usize::MAX,
        ensures
            final(self)@ == old(self)@.with_idle_worker(),
    {
        self.idle_workers = self.idle_workers + 1;
    }

    /// Uncounts a worker that woke up, and decides whether it retires: its
    /// wait timed out, nothing is queued and idle workers may retire.
    pub fn end_idle_wait(&mut self, timed_out: bool) -> (retire: bool)
        requires
            old(self)@.idle_workers > 0,
        ensures
            retire == old(self)@.without_idle_worker().retires_after_wait(timed_out),
            retire ==> final(self)@ == old(self)@.without_idle_worker().after_worker_exit(),
            !retire ==> final(self)@ == old(self)@.without_idle_worker(),
    {
        self.idle_workers = self.idle_workers - 1;
        if timed_out && self.queue.len() == 0 && self.live_workers > 0 && (
        self.allow_core_thread_timeout || self.live_workers > self.core_pool_size) {
            self.live_workers = self.live_workers - 1;
            return true;
        }
        false
    }

    /// Marks a worker-held job as finished.
    pub fn finish_running_job(&mut self)
        requires
            old(self)@.running_tasks > 0,
        ensures
            final(self)@ == old(self)@.after_job_finished(),
    {
        self.running_tasks = self.running_tasks - 1;
        self.completed_tasks = self.completed_tasks.saturating_add(1);
    }
}

/// Shared state of an elastic pool: the pool state in a monitor whose
/// condition variable wakes workers and termination waiters, and the
/// settings of the worker threads.
pub struct ElasticPoolInner {
    monitor: Monitor<ElasticPoolState>,
    thread_name_prefix: String,
    stack_size: Option<usize>,
}

impl ElasticPoolInner {
    /// The prefix of the worker thread names.
    pub closed spec fn name_prefix(&self) -> Seq<char> {
        self.thread_name_prefix@
    }

    /// The stack size of the worker threads.
    pub closed spec fn worker_stack_size(&self) -> Option<usize> {
        self.stack_size
    }

    /// `state` is a borrow of this pool's own shared state, taken while its
    /// lock was held.
    pub closed spec fn guards(&self, state: &mut ElasticPoolState) -> bool {
        self.monitor.lends(state)
    }

    /// Creates the shared state of a running pool with no workers.
    pub fn new(config: ElasticPoolConfig) -> (inner: Self)
        requires
            config.validation() is Ok,
        ensures
            inner.name_prefix() == config.thread_name_prefix@,
            inner.worker_stack_size() == config.stack_size,
    {
        let state = ElasticPoolState::new(&config);
        ElasticPoolInner {
            monitor: Monitor::new(state),
            thread_name_prefix: config.thread_name_prefix,
            stack_size: config.stack_size,
        }
    }

    /// The prefix of the worker thread names; a worker is named by appending
    /// a hyphen and its index.
    pub fn thread_name_prefix(&self) -> (prefix: &str)
        ensures
            prefix@ == self.name_prefix(),
    {
        self.thread_name_prefix.as_str()
    }

    /// The stack size in bytes of the worker threads, or `None` for the
    /// default.
    pub fn stack_size(&self) -> (stack_size: Option<usize>)
        ensures
            stack_size == self.worker_stack_size(),
    {
        self.stack_size
    }

    /// Wakes every waiting thread when `state` is terminal.
    fn notify_if_terminated(&self, state: &ElasticPoolState) {
        if state.is_terminated() {
            self.monitor.notify_all();
        }
    }

    /// Submits a job (see [`ElasticPoolState::submit`]); `spawn` starts a
    /// worker thread while the lock is held. A job handed back for
    /// cancelling is cancelled after the lock is released.
    ///
    /// Live workers and running jobs are bounded by the threads that exist,
    /// so their counts never reach `usize::MAX`; should they, the job is
    /// refused as `Saturated`.
    pub fn submit<F>(&self, job: PoolJob, spawn: &F) -> (r: Result<(), RejectedExecution>) where
        F: Fn(usize, Option<PoolJob>) -> Result<(), std::io::Error>
        requires
            forall|index: usize, task: Option<PoolJob>| spawn.requires((index, task)),
        ensures
            exists|state: ElasticPoolView, started: bool| r == state.after_submit(job, started).0,
            r == Err::<(), RejectedExecution>(RejectedExecution::WorkerSpawnFailed) ==> exists|
                index: usize,
                task: Option<PoolJob>,
                outcome: Result<(), std::io::Error>,
            | spawn.ensures((index, task), outcome) && outcome is Err,
            exists|shared: &mut ElasticPoolState|
                #![trigger self.guards(shared)]
                self.guards(shared) && {
                    ||| (r, (*final(shared))@) == (*shared)@.after_submit(job, r is Ok)
                    ||| r == Err::<(), RejectedExecution>(RejectedExecution::Saturated)
                        && (*final(shared))@ == (*shared)@ && ((*shared)@.live_workers
                        == usize::MAX || (*shared)@.running_tasks == usize::MAX)
                },
    {
        let (answer, withdrawn) = {
            let mut guard = self.monitor.lock();
            let state = guard.data();
            let ghost shared = state;
            assert(self.guards(shared));
            if state.live_workers() == usize::MAX || state.running_tasks() == usize::MAX {
                let ghost full = ElasticPoolView {
                    lifecycle: ThreadPoolLifecycle::Running,
                    queue_capacity: Some(0usize),
                    live_workers: usize::MAX,
                    ..state@
                };
                assert(full.after_submit(job, false).0 == Err::<(), RejectedExecution>(
                    RejectedExecution::Saturated,
                ));
                return Err(RejectedExecution::Saturated);
            }
            let ghost before = state@;
            let outcome = state.submit(job, spawn);
            if outcome.0.is_ok() || state.is_terminated() {
                self.monitor.notify_all();
            }
            assert(outcome.0 == before.after_submit(job, outcome.0 is Ok).0);
            outcome
        };
        if let Some(job) = withdrawn {
            job.cancel();
        }
        answer
    }

    /// Starts one missing core worker (see
    /// [`ElasticPoolState::prestart_core_thread`]). A live worker count at
    /// `usize::MAX`, which the threads that exist cannot reach, counts as
    /// the core size reached.
    pub fn prestart_core_thread<F>(&self, spawn: &F) -> (r: Result<bool, RejectedExecution>) where
        F: Fn(usize, Option<PoolJob>) -> Result<(), std::io::Error>
        requires
            forall|index: usize, task: Option<PoolJob>| spawn.requires((index, task)),
        ensures
            exists|state: ElasticPoolView, started: bool| r == state.after_prestart(started).0,
            r == Ok::<bool, RejectedExecution>(true) ==> exists|
                index: usize,
                outcome: Result<(), std::io::Error>,
            | spawn.ensures((index, None::<PoolJob>), outcome) && outcome is Ok,
            r == Err::<bool, RejectedExecution>(RejectedExecution::WorkerSpawnFailed) ==> exists|
                index: usize,
                task: Option<PoolJob>,
                outcome: Result<(), std::io::Error>,
            | spawn.ensures((index, task), outcome) && outcome is Err,
            exists|shared: &mut ElasticPoolState|
                #![trigger self.guards(shared)]
                self.guards(shared) && {
                    ||| (r, (*final(shared))@) == (*shared)@.after_prestart(
                        r == Ok::<bool, RejectedExecution>(true),
                    )
                    ||| r == Ok::<bool, RejectedExecution>(false) && (*final(shared))@
                        == (*shared)@ && (*shared)@.live_workers == usize::MAX
                },
    {
        let mut guard = self.monitor.lock();
        let state = guard.data();
        let ghost shared = state;
        assert(self.guards(shared));
        if state.live_workers() == usize::MAX {
            let ghost full = ElasticPoolView {
                lifecycle: ThreadPoolLifecycle::Running,
                live_workers: usize::MAX,
                ..state@
            };
            assert(full.after_prestart(false).0 == Ok::<bool, RejectedExecution>(false));
            return Ok(false);
        }
        let ghost before = state@;
        let answer = state.prestart_core_thread(spawn);
        self.notify_if_terminated(state);
        assert(answer == before.after_prestart(answer == Ok::<bool, RejectedExecution>(true)).0);
        answer
    }

    /// Starts missing core workers until the core size is reached, and
    /// returns how many were started; stops at the first refusal.
    pub fn prestart_all_core_threads<F>(&self, spawn: &F) -> (r: Result<usize, RejectedExecution>) where
        F: Fn(usize, Option<PoolJob>) -> Result<(), std::io::Error>
        requires
            forall|index: usize, task: Option<PoolJob>| spawn.requires((index, task)),
        ensures
            r is Err ==> r == Err::<usize, RejectedExecution>(RejectedExecution::Shutdown) || r
                == Err::<usize, RejectedExecution>(RejectedExecution::WorkerSpawnFailed),
            r is Ok && r->Ok_0 < usize::MAX ==> exists|state: ElasticPoolView|
                state.lifecycle is Running && state.live_workers >= state.core_pool_size,
            r is Ok && r->Ok_0 > 0 ==> exists|
                index: usize,
                outcome: Result<(), std::io::Error>,
            | spawn.ensures((index, None::<PoolJob>), outcome) && outcome is Ok,
            r is Ok && r->Ok_0 < usize::MAX ==> exists|shared: &mut ElasticPoolState|
                #![trigger self.guards(shared)]
                self.guards(shared) && (*final(shared))@ == (*shared)@ && ((
                (*shared)@.lifecycle is Running && (*shared)@.live_workers
                    >= (*shared)@.core_pool_size) || (*shared)@.live_workers == usize::MAX),
            r == Err::<usize, RejectedExecution>(RejectedExecution::Shutdown) ==> exists|
                shared: &mut ElasticPoolState,
            |
                #![trigger self.guards(shared)]
                self.guards(shared) && !((*shared)@.lifecycle is Running),
    {
        let mut started: usize = 0;
        while started < usize::MAX
            invariant
                forall|index: usize, task: Option<PoolJob>| spawn.requires((index, task)),
                started > 0 ==> exists|index: usize, outcome: Result<(), std::io::Error>|
                    spawn.ensures((index, None::<PoolJob>), outcome) && outcome is Ok,
            decreases usize::MAX - started,
        {
            match self.prestart_core_thread(spawn) {
                Ok(true) => {
                    started = started + 1;
                },
                Ok(false) => {
                    return Ok(started);
                },
                Err(error) => {
                    return Err(error);
                },
            }
        }
        Ok(started)
    }

    /// Requests graceful shutdown and wakes every waiting thread.
    pub fn shutdown(&self)
        ensures
            exists|shared: &mut ElasticPoolState|
                #![trigger self.guards(shared)]
                self.guards(shared) && (*final(shared))@ == (*shared)@.after_shutdown(),
    {
        let mut guard = self.monitor.lock();
        let state = guard.data();
        let ghost shared = state;
        assert(self.guards(shared));
        state.shutdown();
        self.monitor.notify_all();
    }

    /// Requests abrupt shutdown; cancels the queued jobs after releasing the
    /// lock.
    pub fn shutdown_now(&self) -> (report: ShutdownReport)
        ensures
            exists|state: ElasticPoolView| report == state.shutdown_report(),
            report.cancelled == report.queued,
            exists|shared: &mut ElasticPoolState|
                #![trigger self.guards(shared)]
                self.guards(shared) && report == (*shared)@.shutdown_report() && (*final(shared))@
                    == (*shared)@.after_shutdown_now(),
    {
        let (jobs, report) = {
            let mut guard = self.monitor.lock();
            let state = guard.data();
            let ghost shared = state;
            assert(self.guards(shared));
            let taken = state.shutdown_now();
            self.monitor.notify_all();
            taken
        };
        for job in jobs {
            job.cancel();
        }
        report
    }

    /// Returns whether shutdown has been requested.
    pub fn is_shutdown(&self) -> (r: bool)
        ensures
            exists|state: ElasticPoolView| r == !(state.lifecycle is Running),
            exists|shared: &mut ElasticPoolState|
                #![trigger self.guards(shared)]
                self.guards(shared) && r == !((*shared)@.lifecycle is Running),
    {
        let mut guard = self.monitor.lock();
        let state = guard.data();
        let ghost shared = state;
        assert(self.guards(shared));
        !state.lifecycle().is_running()
    }

    /// Returns whether the pool is fully terminated.
    pub fn is_terminated(&self) -> (r: bool)
        ensures
            exists|state: ElasticPoolView| r == state.is_terminated(),
            exists|shared: &mut ElasticPoolState|
                #![trigger self.guards(shared)]
                self.guards(shared) && r == (*shared)@.is_terminated(),
    {
        let mut guard = self.monitor.lock();
        let state = guard.data();
        let ghost shared = state;
        assert(self.guards(shared));
        state.is_terminated()
    }

    /// One round of waiting for termination: `true` when the pool is
    /// terminated; otherwise waits once for a notification and returns
    /// `false`, so that the caller asks again.
    pub fn termination_wait_step(&self) -> (terminated: bool)
        ensures
            exists|state: ElasticPoolView| terminated == state.is_terminated(),
            exists|shared: &mut ElasticPoolState|
                #![trigger self.guards(shared)]
                self.guards(shared) && terminated == (*shared)@.is_terminated(),
    {
        let mut guard = self.monitor.lock();
        let state = guard.data();
        let ghost shared = state;
        assert(self.guards(shared));
        if state.is_terminated() {
            return true;
        }
        assert(false == state@.is_terminated());
        let _guard = guard.wait();
        false
    }

    /// A point-in-time snapshot of the pool's counters.
    pub fn stats(&self) -> (stats: ElasticPoolStats)
        ensures
            exists|state: ElasticPoolView| stats == state.stats(),
            exists|shared: &mut ElasticPoolState|
                #![trigger self.guards(shared)]
                self.guards(shared) && stats == (*shared)@.stats(),
    {
        let mut guard = self.monitor.lock();
        let state = guard.data();
        let ghost shared = state;
        assert(self.guards(shared));
        state.stats()
    }

    /// Sets the core pool size (see
    /// [`ElasticPoolState::set_core_pool_size`]) and wakes every waiting
    /// thread when it was accepted.
    pub fn set_core_pool_size(&self, core_pool_size: usize) -> (r: Result<(), ThreadPoolBuildError>)
        ensures
            exists|state: ElasticPoolView| r == state.core_size_answer(core_pool_size),
            exists|shared: &mut ElasticPoolState|
                #![trigger self.guards(shared)]
                {
                    &&& self.guards(shared)
                    &&& r == (*shared)@.core_size_answer(core_pool_size)
                    &&& r is Ok ==> (*final(shared))@ == (*shared)@.with_core_pool_size(
                        core_pool_size,
                    )
                    &&& r is Err ==> (*final(shared))@ == (*shared)@
                },
    {
        let mut guard = self.monitor.lock();
        let state = guard.data();
        let ghost shared = state;
        let answer = state.set_core_pool_size(core_pool_size);
        if answer.is_ok() {
            self.monitor.notify_all();
        }
        assert(self.guards(shared));
        answer
    }

    /// Sets the maximum pool size (see
    /// [`ElasticPoolState::set_maximum_pool_size`]) and wakes every waiting
    /// thread when it was accepted. Zero is refused without looking at the
    /// pool.
    pub fn set_maximum_pool_size(&self, maximum_pool_size: usize) -> (r: Result<
        (),
        ThreadPoolBuildError,
    >)
        ensures
            exists|state: ElasticPoolView| r == state.maximum_size_answer(maximum_pool_size),
            maximum_pool_size == 0 ==> r == Err::<(), ThreadPoolBuildError>(
                ThreadPoolBuildError::ZeroMaximumPoolSize,
            ),
            maximum_pool_size > 0 ==> exists|shared: &mut ElasticPoolState|
                #![trigger self.guards(shared)]
                {
                    &&& self.guards(shared)
                    &&& r == (*shared)@.maximum_size_answer(maximum_pool_size)
                    &&& r is Ok ==> (*final(shared))@ == (*shared)@.with_maximum_pool_size(
                        maximum_pool_size,
                    )
                    &&& r is Err ==> (*final(shared))@ == (*shared)@
                },
    {
        if maximum_pool_size == 0 {
            let ghost any = ElasticPoolView { maximum_pool_size: 1, ..vstd::pervasive::arbitrary() };
            assert(any.maximum_size_answer(0) == Err::<(), ThreadPoolBuildError>(
                ThreadPoolBuildError::ZeroMaximumPoolSize,
            ));
            return Err(ThreadPoolBuildError::ZeroMaximumPoolSize);
        }
        let mut guard = self.monitor.lock();
        let state = guard.data();
        let ghost shared = state;
        let answer = state.set_maximum_pool_size(maximum_pool_size);
        if answer.is_ok() {
            self.monitor.notify_all();
        }
        assert(self.guards(shared));
        answer
    }

    /// Sets the keep-alive timeout, unless it spans no time, and wakes every
    /// waiting thread when it was accepted.
    pub fn set_keep_alive(&self, keep_alive: KeepAlive) -> (r: Result<(), ThreadPoolBuildError>)
        ensures
            r == ElasticPoolView::keep_alive_answer(keep_alive),
            r is Ok ==> exists|shared: &mut ElasticPoolState|
                #![trigger self.guards(shared)]
                self.guards(shared) && (*final(shared))@ == (ElasticPoolView {
                    keep_alive,
                    ..(*shared)@
                }),
    {
        if keep_alive.is_zero() {
            return Err(ThreadPoolBuildError::ZeroKeepAlive);
        }
        let mut guard = self.monitor.lock();
        let state = guard.data();
        let ghost shared = state;
        assert(self.guards(shared));
        let answer = state.set_keep_alive(keep_alive);
        self.monitor.notify_all();
        answer
    }

    /// Sets whether idle core workers may retire, and wakes every waiting
    /// thread.
    pub fn allow_core_thread_timeout(&self, allow: bool)
        ensures
            exists|shared: &mut ElasticPoolState|
                #![trigger self.guards(shared)]
                self.guards(shared) && (*final(shared))@ == (ElasticPoolView {
                    allow_core_thread_timeout: allow,
                    ..(*shared)@
                }),
    {
        let mut guard = self.monitor.lock();
        let state = guard.data();
        let ghost shared = state;
        assert(self.guards(shared));
        state.set_allow_core_thread_timeout(allow);
        self.monitor.notify_all();
    }

    /// One round of a worker's wait for work: returns the job to run, tells
    /// the worker to exit, or waits once (at most the keep-alive when the
    /// wait is timed) and asks for a retry. A worker whose timed wait ran
    /// out with nothing queued, while idle workers may retire, exits.
    ///
    /// A worker is always counted as live and never makes the running or
    /// idle counts reach `usize::MAX`; a state outside those bounds sends
    /// it away, or lets it wait uncounted.
    pub fn wait_for_job_step(&self) -> (poll: WorkerPoll)
        ensures
            poll is Job ==> exists|state: ElasticPoolView|
                state.has_job_for_worker() && poll->Job_0 == state.queue[0],
            poll is Retry ==> exists|state: ElasticPoolView|
                !state.has_job_for_worker() && !state.worker_must_exit(),
            poll is Exit ==> exists|state: ElasticPoolView| state.sends_worker_away(),
            poll is Job ==> exists|shared: &mut ElasticPoolState|
                #![trigger self.guards(shared)]
                self.guards(shared) && (*shared)@.has_job_for_worker() && poll->Job_0
                    == (*shared)@.queue[0] && (*final(shared))@ == (*shared)@.after_take(),
            poll is Retry ==> exists|shared: &mut ElasticPoolState|
                #![trigger self.guards(shared)]
                self.guards(shared) && !(*shared)@.has_job_for_worker()
                    && !(*shared)@.worker_must_exit(),
            poll is Exit ==> exists|shared: &mut ElasticPoolState|
                #![trigger self.guards(shared)]
                self.guards(shared) && ((*shared)@.sends_worker_away()
                    || (*shared)@.without_idle_worker().sends_worker_away()),
    {
        let mut guard = self.monitor.lock();
        let state = guard.data();
        let ghost shared = state;
        assert(self.guards(shared));
        let ghost before = state@;
        if state.running_tasks() == usize::MAX || state.live_workers() == 0 {
            assert(before.sends_worker_away());
            return WorkerPoll::Exit;
        }
        match state.next_worker_step() {
            ElasticWorkerStep::Run(job) => {
                assert(before.has_job_for_worker() && job == before.queue[0]);
                WorkerPoll::Job(job)
            },
            ElasticWorkerStep::Exit => {
                assert(before.sends_worker_away());
                self.notify_if_terminated(state);
                WorkerPoll::Exit
            },
            ElasticWorkerStep::Wait => {
                assert(!before.has_job_for_worker() && !before.worker_must_exit());
                let counted = state.idle_workers() < usize::MAX;
                if counted {
                    state.begin_idle_wait();
                }
                let mut woken = guard.wait();
                let state = woken.data();
                if counted && state.idle_workers() > 0 {
                    state.end_idle_wait(false);
                }
                WorkerPoll::Retry
            },
            ElasticWorkerStep::WaitAtMost(keep_alive) => {
                assert(!before.has_job_for_worker() && !before.worker_must_exit());
                let timeout = duration_from_parts(keep_alive.as_secs(), keep_alive.subsec_nanos());
                let counted = state.idle_workers() < usize::MAX;
                if counted {
                    state.begin_idle_wait();
                }
                let (mut woken, timed_out) = guard.wait_timeout(timeout);
                let state = woken.data();
                let ghost woken_shared = state;
                assert(self.guards(woken_shared));
                if counted && state.idle_workers() > 0 {
                    let ghost woken_state = state@.without_idle_worker();
                    if state.end_idle_wait(timed_out) {
                        assert(woken_state.sends_worker_away());
                        self.notify_if_terminated(state);
                        return WorkerPoll::Exit;
                    }
                }
                WorkerPoll::Retry
            },
        }
    }

    /// Marks a worker-held job as finished and wakes termination waiters if
    /// that made the pool terminal.
    pub fn finish_running_job(&self)
        ensures
            exists|shared: &mut ElasticPoolState|
                #![trigger self.guards(shared)]
                self.guards(shared) && ((*shared)@.running_tasks > 0 ==> (*final(shared))@
                    == (*shared)@.after_job_finished()) && ((*shared)@.running_tasks == 0
                    ==> (*final(shared))@ == (*shared)@),
    {
        let mut guard = self.monitor.lock();
        let state = guard.data();
        let ghost shared = state;
        assert(self.guards(shared));
        if state.running_tasks() > 0 {
            state.finish_running_job();
        }
        self.notify_if_terminated(state);
    }
}

} // verus!
