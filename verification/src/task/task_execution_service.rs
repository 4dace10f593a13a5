//! Task management service built on [`ThreadPool`]: business task IDs,
//! status tracking, cancellation before start and suspension of new work.
//!
//! The registry of task records is [`TaskRegistry`], whose operations are
//! stated exactly over [`TaskRegistryView`]. [`TaskExecutionServiceState`]
//! keeps it behind a mutex with a condition variable for idle waiters.
use crate::std_sync::Monitor;
use crate::task::pool_job::PoolJob;
use crate::task::rejected_execution::RejectedExecution;
use crate::task::shutdown_report::ShutdownReport;
use crate::task::thread_pool::{
    PoolStateView, ThreadPool, ThreadPoolBuilder, ThreadPoolBuilderView, ThreadPoolState,
};
use std::collections::HashMap;
use std::sync::Arc;
use vstd::prelude::*;
use vstd::std_specs::iter::IteratorSpec;

verus! {

broadcast use vstd::std_specs::hash::group_hash_axioms;

/// Identifier type used by [`TaskExecutionService`].
pub type TaskId = u64;

/// Status of a task managed by [`TaskExecutionService`].
#[derive(Debug, Clone, Copy, PartialEq, Eq, Structural)]
pub enum TaskStatus {
    /// The task was accepted but has not started running.
    Submitted,
    /// A worker has started running the task.
    Running,
    /// The task completed successfully.
    Succeeded,
    /// The task ran and returned its own error value.
    Failed,
    /// The task panicked while running.
    Panicked,
    /// The task was cancelled before it started.
    Cancelled,
}

impl TaskStatus {
    /// In-flight work: submitted or running.
    pub open spec fn active(self) -> bool {
        self is Submitted || self is Running
    }

    /// A task in this status may move to `next`: a submitted task starts
    /// running or is cancelled, a running task ends succeeded, failed or
    /// panicked, and a task in a terminal status stays there.
    pub open spec fn may_become(self, next: TaskStatus) -> bool {
        match self {
            TaskStatus::Submitted => next is Running || next is Cancelled,
            TaskStatus::Running => next is Succeeded || next is Failed || next is Panicked,
            _ => false,
        }
    }

    /// Returns whether this status represents in-flight work.
    pub fn is_active(self) -> (r: bool)
        ensures
            r == self.active(),
    {
        match self {
            TaskStatus::Submitted | TaskStatus::Running => true,
            _ => false,
        }
    }

    /// The status a task ends in once it ran: `Succeeded` when it returned
    /// a value, `Failed` when it returned an error, and `Panicked` when it
    /// did not return (`None`).
    pub fn after_run<R, E>(returned: Option<&Result<R, E>>) -> (status: TaskStatus)
        ensures
            status == match returned {
                Some(Ok(_)) => TaskStatus::Succeeded,
                Some(Err(_)) => TaskStatus::Failed,
                None => TaskStatus::Panicked,
            },
    {
        match returned {
            Some(Ok(_)) => TaskStatus::Succeeded,
            Some(Err(_)) => TaskStatus::Failed,
            None => TaskStatus::Panicked,
        }
    }
}

/// Count snapshot for a [`TaskExecutionService`], derived from the retained
/// task records.
#[derive(Debug, Clone, Copy, PartialEq, Eq, Structural)]
pub struct TaskExecutionStats {
    /// Number of tasks accepted by the service.
    pub total: usize,
    /// Number of accepted tasks not yet started.
    pub submitted: usize,
    /// Number of tasks currently running.
    pub running: usize,
    /// Number of tasks that completed successfully.
    pub succeeded: usize,
    /// Number of tasks that returned an error.
    pub failed: usize,
    /// Number of tasks that panicked.
    pub panicked: usize,
    /// Number of tasks cancelled before start.
    pub cancelled: usize,
}

impl TaskExecutionStats {
    /// The total is the sum of the per-status counters.
    pub open spec fn total_is_sum(self) -> bool {
        self.total == self.submitted + self.running + self.succeeded + self.failed + self.panicked
            + self.cancelled
    }

    /// The counter that `status` selects.
    pub open spec fn count_of(self, status: TaskStatus) -> usize {
        match status {
            TaskStatus::Submitted => self.submitted,
            TaskStatus::Running => self.running,
            TaskStatus::Succeeded => self.succeeded,
            TaskStatus::Failed => self.failed,
            TaskStatus::Panicked => self.panicked,
            TaskStatus::Cancelled => self.cancelled,
        }
    }

    /// Adds one task status to this snapshot: the total and the counter of
    /// `status` grow by one.
    pub fn add_status(&mut self, status: TaskStatus)
        requires
            old(self).total < usize::MAX,
            old(self).count_of(status) < usize::MAX,
        ensures
            final(self).total == old(self).total + 1,
            forall|s: TaskStatus| #[trigger]
                final(self).count_of(s) == old(self).count_of(s) + (if s == status {
                    1int
                } else {
                    0int
                }),
    {
        self.total = self.total + 1;
        match status {
            TaskStatus::Submitted => self.submitted = self.submitted + 1,
            TaskStatus::Running => self.running = self.running + 1,
            TaskStatus::Succeeded => self.succeeded = self.succeeded + 1,
            TaskStatus::Failed => self.failed = self.failed + 1,
            TaskStatus::Panicked => self.panicked = self.panicked + 1,
            TaskStatus::Cancelled => self.cancelled = self.cancelled + 1,
        }
    }
}

impl Default for TaskExecutionStats {
    /// All counters zero.
    fn default() -> (stats: Self)
        ensures
            stats == (TaskExecutionStats {
                total: 0,
                submitted: 0,
                running: 0,
                succeeded: 0,
                failed: 0,
                panicked: 0,
                cancelled: 0,
            }),
    {
        TaskExecutionStats {
            total: 0,
            submitted: 0,
            running: 0,
            succeeded: 0,
            failed: 0,
            panicked: 0,
            cancelled: 0,
        }
    }
}

/// Error returned when [`TaskExecutionService`] cannot accept a task.
#[derive(Debug)]
pub enum TaskExecutionServiceError {
    /// Another retained task record already uses the same task ID.
    DuplicateTask(TaskId),
    /// The service is suspended and temporarily refuses new tasks.
    Suspended,
    /// The underlying thread pool rejected the task.
    Rejected(RejectedExecution),
}

impl From<RejectedExecution> for TaskExecutionServiceError {
    /// Wraps a pool rejection.
    fn from(error: RejectedExecution) -> (e: Self) {
        TaskExecutionServiceError::Rejected(error)
    }
}

impl vstd::std_specs::convert::FromSpecImpl<RejectedExecution> for TaskExecutionServiceError {
    open spec fn obeys_from_spec() -> bool {
        true
    }

    open spec fn from_spec(error: RejectedExecution) -> Self {
        TaskExecutionServiceError::Rejected(error)
    }
}

/// Cancellation hook of a managed task: tells whoever waits for the task's
/// outcome that it was cancelled before it started. The registry decides
/// whether a cancellation succeeds; the hook runs only once it did.
pub trait TaskCancel: Send + Sync {
    /// Reports the cancellation of the task.
    fn notify_cancelled(&self);
}

/// A shareable cancellation hook.
pub struct CancelHook {
    hook: Box<dyn TaskCancel>,
}

impl CancelHook {
    /// Wraps a cancellation hook.
    pub fn new(hook: Box<dyn TaskCancel>) -> (h: Self) {
        CancelHook { hook }
    }

    /// Runs the hook: reports that its task was cancelled.
    pub fn notify_cancelled(&self) {
        self.hook.notify_cancelled()
    }
}

/// Registry record for one managed task.
pub struct TaskRecord {
    /// Service-level status of the task.
    pub status: TaskStatus,
    /// Hook that reports the cancellation of the task.
    pub cancel: Arc<CancelHook>,
}

/// The record of a task with `status` and cancellation hook `cancel`.
pub open spec fn task_record(status: TaskStatus, cancel: Arc<CancelHook>) -> TaskRecord {
    TaskRecord { status, cancel }
}

/// Another handle to the same cancellation hook.
fn share_cancel(cancel: &Arc<CancelHook>) -> (shared: Arc<CancelHook>)
    ensures
        shared == *cancel,
{
    Arc::clone(cancel)
}

/// The IDs in `seen` whose record in `tasks` has `status`.
pub open spec fn ids_with_in(tasks: Map<TaskId, TaskRecord>, seen: Set<TaskId>, status: TaskStatus) -> Set<TaskId> {
    seen.filter(|task_id: TaskId| tasks[task_id].status == status)
}

/// Adding an unseen ID to `seen` adds it to the IDs of its own status only.
proof fn lemma_ids_with_in_insert(tasks: Map<TaskId, TaskRecord>, seen: Set<TaskId>, id: TaskId)
    requires
        seen.finite(),
        !seen.contains(id),
    ensures
        forall|s: TaskStatus| #[trigger] ids_with_in(tasks, seen.insert(id), s).len()
            == ids_with_in(tasks, seen, s).len() + (if tasks[id].status == s { 1int } else { 0int }),
{
    assert forall|s: TaskStatus| #[trigger] ids_with_in(tasks, seen.insert(id), s).len()
        == ids_with_in(tasks, seen, s).len() + (if tasks[id].status == s { 1int } else { 0int }) by {
        seen.lemma_len_filter(|k: TaskId| tasks[k].status == s);
        if tasks[id].status == s {
            assert(ids_with_in(tasks, seen.insert(id), s) =~= ids_with_in(tasks, seen, s).insert(id));
        } else {
            assert(ids_with_in(tasks, seen.insert(id), s) =~= ids_with_in(tasks, seen, s));
        }
    }
}

/// Mathematical model of a [`TaskRegistry`].
pub struct TaskRegistryView {
    /// New submissions are refused.
    pub suspended: bool,
    /// Retained task records by task ID.
    pub tasks: Map<TaskId, TaskRecord>,
}

impl TaskRegistryView {
    /// The status recorded for `task_id`, if a record is retained.
    pub open spec fn status_of(self, task_id: TaskId) -> Option<TaskStatus> {
        if self.tasks.contains_key(task_id) {
            Some(self.tasks[task_id].status)
        } else {
            None
        }
    }

    /// A record for `task_id` is retained and its task is in flight.
    pub open spec fn is_task_active(self, task_id: TaskId) -> bool {
        self.tasks.contains_key(task_id) && self.tasks[task_id].status.active()
    }

    /// None of the tasks `task_ids` is in flight.
    pub open spec fn none_active(self, task_ids: Seq<TaskId>) -> bool {
        forall|i: int| 0 <= i < task_ids.len() ==> !self.is_task_active(#[trigger] task_ids[i])
    }

    /// `ids` lists exactly the tasks in flight.
    pub open spec fn lists_active_tasks(self, ids: Seq<TaskId>) -> bool {
        forall|task_id: TaskId| ids.contains(task_id) <==> #[trigger] self.is_task_active(task_id)
    }

    /// Some retained task is in flight.
    pub open spec fn has_active_task(self) -> bool {
        exists|task_id: TaskId| #[trigger] self.is_task_active(task_id)
    }

    /// The IDs of retained tasks whose status is `status`.
    pub open spec fn ids_with(self, status: TaskStatus) -> Set<TaskId> {
        ids_with_in(self.tasks, self.tasks.dom(), status)
    }

    /// The answer a registration of `task_id` receives.
    pub open spec fn register_answer(self, task_id: TaskId) -> Result<(), TaskExecutionServiceError> {
        if self.suspended {
            Err(TaskExecutionServiceError::Suspended)
        } else if self.tasks.contains_key(task_id) {
            Err(TaskExecutionServiceError::DuplicateTask(task_id))
        } else {
            Ok(())
        }
    }

    /// This registry with `task_id` recorded as submitted, with hook `cancel`.
    pub open spec fn registered(self, task_id: TaskId, cancel: Arc<CancelHook>) -> TaskRegistryView {
        TaskRegistryView {
            tasks: self.tasks.insert(task_id, task_record(TaskStatus::Submitted, cancel)),
            ..self
        }
    }

    /// This registry without a record for `task_id`.
    pub open spec fn without(self, task_id: TaskId) -> TaskRegistryView {
        TaskRegistryView { tasks: self.tasks.remove(task_id), ..self }
    }

    /// This registry once the pool answered `answer` for the job of a
    /// registered `task_id`: a refused job leaves no record.
    pub open spec fn settled(self, task_id: TaskId, answer: Result<(), RejectedExecution>) -> TaskRegistryView {
        if answer is Err {
            self.without(task_id)
        } else {
            self
        }
    }

    /// This registry with the status of a retained `task_id` replaced.
    pub open spec fn with_status(self, task_id: TaskId, status: TaskStatus) -> TaskRegistryView {
        if self.tasks.contains_key(task_id) {
            TaskRegistryView {
                tasks: self.tasks.insert(task_id, task_record(status, self.tasks[task_id].cancel)),
                ..self
            }
        } else {
            self
        }
    }

    /// This registry with the suspension flag set to `suspended`.
    pub open spec fn with_suspended(self, suspended: bool) -> TaskRegistryView {
        TaskRegistryView { suspended, ..self }
    }

    /// This registry once a worker asked to start `task_id`: a submitted
    /// task is running; anything else is left as it is.
    pub open spec fn started(self, task_id: TaskId) -> TaskRegistryView {
        if self.status_of(task_id) == Some(TaskStatus::Submitted) {
            self.with_status(task_id, TaskStatus::Running)
        } else {
            self
        }
    }

    /// This registry once `task_id` was asked to be cancelled: a submitted
    /// task is cancelled; anything else is left as it is.
    pub open spec fn cancelled_task(self, task_id: TaskId) -> TaskRegistryView {
        if self.status_of(task_id) == Some(TaskStatus::Submitted) {
            self.with_status(task_id, TaskStatus::Cancelled)
        } else {
            self
        }
    }

    /// This registry once the task `task_id` ended in `status`: a running
    /// task takes the status of a run's outcome (succeeded, failed or
    /// panicked); anything else is left as it is.
    pub open spec fn finished(self, task_id: TaskId, status: TaskStatus) -> TaskRegistryView {
        if self.status_of(task_id) == Some(TaskStatus::Running) && TaskStatus::Running.may_become(
            status,
        ) {
            self.with_status(task_id, status)
        } else {
            self
        }
    }

    /// `next` changes no status but along [`TaskStatus::may_become`], and
    /// forgets or adds no record.
    pub open spec fn steps_to(self, next: TaskRegistryView) -> bool {
        &&& next.tasks.dom() == self.tasks.dom()
        &&& forall|task_id: TaskId| #[trigger] next.status_of(task_id) == self.status_of(task_id) || (
        self.status_of(task_id) is Some && next.status_of(task_id) is Some && self.status_of(
            task_id,
        )->0.may_become(next.status_of(task_id)->0))
    }

    /// The statistics of the retained records.
    pub open spec fn stats(self) -> TaskExecutionStats {
        TaskExecutionStats {
            total: self.tasks.dom().len() as usize,
            submitted: self.ids_with(TaskStatus::Submitted).len() as usize,
            running: self.ids_with(TaskStatus::Running).len() as usize,
            succeeded: self.ids_with(TaskStatus::Succeeded).len() as usize,
            failed: self.ids_with(TaskStatus::Failed).len() as usize,
            panicked: self.ids_with(TaskStatus::Panicked).len() as usize,
            cancelled: self.ids_with(TaskStatus::Cancelled).len() as usize,
        }
    }
}

/// A registered task is retained as submitted and in flight; registering
/// its ID again is refused as a duplicate.
pub proof fn lemma_registration_records_submitted(
    registry: TaskRegistryView,
    task_id: TaskId,
    cancel: Arc<CancelHook>,
)
    requires
        registry.register_answer(task_id) is Ok,
    ensures
        registry.registered(task_id, cancel).status_of(task_id) == Some(TaskStatus::Submitted),
        registry.registered(task_id, cancel).is_task_active(task_id),
        registry.registered(task_id, cancel).register_answer(task_id)
            == Err::<(), TaskExecutionServiceError>(TaskExecutionServiceError::DuplicateTask(task_id)),
{
}

/// A suspended registry refuses every registration; resuming restores the
/// rule that only IDs not already retained are accepted.
pub proof fn lemma_suspension_gates_registration(registry: TaskRegistryView, task_id: TaskId)
    ensures
        registry.with_suspended(true).register_answer(task_id)
            == Err::<(), TaskExecutionServiceError>(TaskExecutionServiceError::Suspended),
        registry.with_suspended(false).register_answer(task_id) is Ok <==> !registry.tasks.contains_key(
            task_id,
        ),
{
}

/// Removing a record forgets the task: its ID has no status and may be
/// registered again while the registry is not suspended.
pub proof fn lemma_removal_forgets_task(registry: TaskRegistryView, task_id: TaskId)
    ensures
        registry.without(task_id).status_of(task_id) is None,
        !registry.without(task_id).is_task_active(task_id),
        !registry.suspended ==> registry.without(task_id).register_answer(task_id) is Ok,
{
}

/// A submission that the pool refuses leaves the registry as it was before
/// the task was registered: no record for it remains.
pub proof fn lemma_refused_submission_leaves_no_record(
    registry: TaskRegistryView,
    task_id: TaskId,
    cancel: Arc<CancelHook>,
    error: RejectedExecution,
)
    requires
        registry.register_answer(task_id) is Ok,
    ensures
        registry.registered(task_id, cancel).settled(task_id, Err(error)) == registry,
        registry.registered(task_id, cancel).settled(task_id, Err(error)).status_of(task_id) is None,
{
    assert(registry.registered(task_id, cancel).settled(task_id, Err(error)).tasks =~= registry.tasks);
}

/// A status never goes back: starting, cancelling and finishing a task
/// move it only along [`TaskStatus::may_become`], and a task in a terminal
/// status keeps it whatever is asked.
pub proof fn lemma_task_status_order(registry: TaskRegistryView, task_id: TaskId, status: TaskStatus)
    ensures
        registry.steps_to(registry.started(task_id)),
        registry.steps_to(registry.cancelled_task(task_id)),
        registry.steps_to(registry.finished(task_id, status)),
        registry.status_of(task_id) is Some && !registry.status_of(task_id)->0.active() ==> (
        registry.started(task_id) == registry && registry.cancelled_task(task_id) == registry
            && registry.finished(task_id, status) == registry),
        forall|next: TaskStatus| !status.active() ==> !status.may_become(next),
{
    assert(registry.started(task_id).tasks.dom() =~= registry.tasks.dom());
    assert(registry.cancelled_task(task_id).tasks.dom() =~= registry.tasks.dom());
    assert(registry.finished(task_id, status).tasks.dom() =~= registry.tasks.dom());
}

/// Cancellation wins only before the start, and the start only before the
/// cancellation: a cancelled task can no longer start, and a started task can
/// no longer be cancelled.
pub proof fn lemma_cancel_or_start(registry: TaskRegistryView, task_id: TaskId)
    requires
        registry.status_of(task_id) == Some(TaskStatus::Submitted),
    ensures
        registry.cancelled_task(task_id).status_of(task_id) == Some(TaskStatus::Cancelled),
        registry.cancelled_task(task_id).started(task_id) == registry.cancelled_task(task_id),
        registry.started(task_id).status_of(task_id) == Some(TaskStatus::Running),
        registry.started(task_id).cancelled_task(task_id) == registry.started(task_id),
{
}

/// Suspending refuses every registration and resuming lifts that: suspend
/// then resume gives the registry back, and a refused registration leaves it
/// unchanged.
pub proof fn lemma_suspend_then_resume(registry: TaskRegistryView, task_id: TaskId)
    requires
        !registry.suspended,
    ensures
        registry.with_suspended(true).with_suspended(false) == registry,
        registry.with_suspended(true).register_answer(task_id)
            == Err::<(), TaskExecutionServiceError>(TaskExecutionServiceError::Suspended),
        registry.with_suspended(true).with_suspended(false).register_answer(task_id)
            == registry.register_answer(task_id),
{
}

/// An accepted registration adds one submitted record to the statistics;
/// a refused submission leaves them as they were.
pub proof fn lemma_submission_statistics(
    registry: TaskRegistryView,
    task_id: TaskId,
    cancel: Arc<CancelHook>,
    error: RejectedExecution,
)
    requires
        registry.register_answer(task_id) is Ok,
        registry.tasks.dom().finite(),
    ensures
        registry.registered(task_id, cancel).stats().total == registry.stats().total + 1
            || registry.tasks.dom().len() + 1 > usize::MAX,
        registry.registered(task_id, cancel).ids_with(TaskStatus::Submitted)
            == registry.ids_with(TaskStatus::Submitted).insert(task_id),
        forall|status: TaskStatus| status != TaskStatus::Submitted ==> #[trigger] registry.registered(
            task_id,
            cancel,
        ).ids_with(status) == registry.ids_with(status),
        registry.registered(task_id, cancel).settled(task_id, Err(error)).stats()
            == registry.stats(),
{
    let next = registry.registered(task_id, cancel);
    assert(next.tasks.dom() =~= registry.tasks.dom().insert(task_id));
    assert(next.ids_with(TaskStatus::Submitted) =~= registry.ids_with(TaskStatus::Submitted).insert(
        task_id,
    ));
    assert forall|status: TaskStatus| status != TaskStatus::Submitted implies #[trigger] next.ids_with(
        status,
    ) == registry.ids_with(status) by {
        assert(next.ids_with(status) =~= registry.ids_with(status));
    }
    assert(next.settled(task_id, Err(error)).tasks =~= registry.tasks);
}

/// After the pool was shut down, a registered submission is refused with
/// `Shutdown` and its record is removed again: the registry is as before.
pub proof fn lemma_refusal_after_shutdown(
    pool: PoolStateView,
    registry: TaskRegistryView,
    task_id: TaskId,
    cancel: Arc<CancelHook>,
)
    requires
        registry.register_answer(task_id) is Ok,
    ensures
        pool_answer(pool.after_shutdown().submit_answer()) == Err::<(), TaskExecutionServiceError>(
            TaskExecutionServiceError::Rejected(RejectedExecution::Shutdown),
        ),
        registry.registered(task_id, cancel).settled(task_id, pool.after_shutdown().submit_answer())
            == registry,
{
    assert(registry.registered(task_id, cancel).settled(
        task_id,
        pool.after_shutdown().submit_answer(),
    ).tasks =~= registry.tasks);
}

/// A status update changes the status of that task only, and a task moved
/// to a terminal status is no longer in flight, so it can no longer be
/// cancelled.
pub proof fn lemma_status_update_is_local(
    registry: TaskRegistryView,
    task_id: TaskId,
    other: TaskId,
    status: TaskStatus,
)
    ensures
        registry.tasks.contains_key(task_id) ==> registry.with_status(task_id, status).status_of(task_id)
            == Some(status),
        other != task_id ==> registry.with_status(task_id, status).status_of(other)
            == registry.status_of(other),
        !status.active() ==> !registry.with_status(task_id, status).is_task_active(task_id),
{
}

/// A running task that ends takes exactly the outcome it is finished with:
/// its record moves from the running tasks to the tasks with that outcome,
/// no other record changes, and it is no longer in flight. A task that is
/// not running, or a status that is no outcome of a run, changes nothing.
pub proof fn lemma_finish_records_outcome(
    registry: TaskRegistryView,
    task_id: TaskId,
    other: TaskId,
    status: TaskStatus,
)
    ensures
        registry.status_of(task_id) == Some(TaskStatus::Running) && TaskStatus::Running.may_become(
            status,
        ) ==> {
            &&& registry.finished(task_id, status).status_of(task_id) == Some(status)
            &&& !registry.finished(task_id, status).is_task_active(task_id)
            &&& registry.finished(task_id, status).ids_with(status) == registry.ids_with(
                status,
            ).insert(task_id)
            &&& registry.finished(task_id, status).ids_with(TaskStatus::Running)
                == registry.ids_with(TaskStatus::Running).remove(task_id)
        },
        other != task_id ==> registry.finished(task_id, status).status_of(other)
            == registry.status_of(other),
        !(registry.status_of(task_id) == Some(TaskStatus::Running)
            && TaskStatus::Running.may_become(status)) ==> registry.finished(task_id, status)
            == registry,
{
    if registry.status_of(task_id) == Some(TaskStatus::Running) && TaskStatus::Running.may_become(
        status,
    ) {
        let next = registry.finished(task_id, status);
        assert(next.tasks.dom() =~= registry.tasks.dom());
        assert(next.ids_with(status) =~= registry.ids_with(status).insert(task_id));
        assert(next.ids_with(TaskStatus::Running) =~= registry.ids_with(TaskStatus::Running).remove(
            task_id,
        ));
    }
}

/// Waiting for the tasks active at one moment ends exactly when none of
/// them is in flight any more: against the registry of that moment, that is
/// when no task at all is in flight. Once none of them is in flight, no
/// later registry that the status order allows brings one back.
pub proof fn lemma_in_flight_wait_ends(
    registry: TaskRegistryView,
    next: TaskRegistryView,
    task_ids: Seq<TaskId>,
)
    ensures
        registry.lists_active_tasks(task_ids) ==> (registry.none_active(task_ids)
            <==> !registry.has_active_task()),
        registry.steps_to(next) && registry.none_active(task_ids) ==> next.none_active(task_ids),
{
    if registry.lists_active_tasks(task_ids) {
        if registry.none_active(task_ids) && registry.has_active_task() {
            let id = choose|id: TaskId| #[trigger] registry.is_task_active(id);
            assert(task_ids.contains(id));
            let i = choose|i: int| 0 <= i < task_ids.len() && task_ids[i] == id;
            assert(!registry.is_task_active(task_ids[i]));
        }
    }
    if registry.steps_to(next) && registry.none_active(task_ids) {
        assert forall|i: int| 0 <= i < task_ids.len() implies !next.is_task_active(
            #[trigger] task_ids[i],
        ) by {
            assert(!registry.is_task_active(task_ids[i]));
            assert(next.status_of(task_ids[i]) == registry.status_of(task_ids[i]) || (
            registry.status_of(task_ids[i]) is Some && next.status_of(task_ids[i]) is Some
                && registry.status_of(task_ids[i])->0.may_become(next.status_of(task_ids[i])->0)));
        }
    }
}

/// Every retained record is counted under exactly one status: the
/// per-status counts add up to the number of records.
pub proof fn lemma_status_counts_partition_records(registry: TaskRegistryView)
    requires
        registry.tasks.dom().finite(),
    ensures
        registry.ids_with(TaskStatus::Submitted).len() + registry.ids_with(TaskStatus::Running).len()
            + registry.ids_with(TaskStatus::Succeeded).len() + registry.ids_with(
            TaskStatus::Failed,
        ).len() + registry.ids_with(TaskStatus::Panicked).len() + registry.ids_with(
            TaskStatus::Cancelled,
        ).len() == registry.tasks.dom().len(),
{
    let dom = registry.tasks.dom();
    let a = registry.ids_with(TaskStatus::Submitted);
    let b = registry.ids_with(TaskStatus::Running);
    let c = registry.ids_with(TaskStatus::Succeeded);
    let d = registry.ids_with(TaskStatus::Failed);
    let e = registry.ids_with(TaskStatus::Panicked);
    let f = registry.ids_with(TaskStatus::Cancelled);
    dom.lemma_len_filter(|k: TaskId| registry.tasks[k].status == TaskStatus::Submitted);
    dom.lemma_len_filter(|k: TaskId| registry.tasks[k].status == TaskStatus::Running);
    dom.lemma_len_filter(|k: TaskId| registry.tasks[k].status == TaskStatus::Succeeded);
    dom.lemma_len_filter(|k: TaskId| registry.tasks[k].status == TaskStatus::Failed);
    dom.lemma_len_filter(|k: TaskId| registry.tasks[k].status == TaskStatus::Panicked);
    dom.lemma_len_filter(|k: TaskId| registry.tasks[k].status == TaskStatus::Cancelled);
    vstd::set_lib::lemma_set_disjoint_lens(a, b);
    vstd::set_lib::lemma_set_disjoint_lens(a + b, c);
    vstd::set_lib::lemma_set_disjoint_lens(a + b + c, d);
    vstd::set_lib::lemma_set_disjoint_lens(a + b + c + d, e);
    vstd::set_lib::lemma_set_disjoint_lens(a + b + c + d + e, f);
    assert(a + b + c + d + e + f =~= dom);
}

/// In the statistics of a registry, the total is the sum of the
/// per-status counters.
pub proof fn lemma_stats_total_is_sum(registry: TaskRegistryView)
    requires
        registry.tasks.dom().finite(),
        registry.tasks.dom().len() <= usize::MAX,
    ensures
        registry.stats().total == registry.stats().submitted + registry.stats().running
            + registry.stats().succeeded + registry.stats().failed + registry.stats().panicked
            + registry.stats().cancelled,
{
    lemma_status_counts_partition_records(registry);
}

/// The task records of a service and its suspension flag.
pub struct TaskRegistry {
    suspended: bool,
    tasks: HashMap<TaskId, TaskRecord>,
}

impl View for TaskRegistry {
    type V = TaskRegistryView;

    closed spec fn view(&self) -> TaskRegistryView {
        TaskRegistryView { suspended: self.suspended, tasks: self.tasks@ }
    }
}

impl TaskRegistry {
    /// An empty registry that accepts submissions.
    pub fn new() -> (registry: Self)
        ensures
            registry@.suspended == false,
            registry@.tasks == Map::<TaskId, TaskRecord>::empty(),
    {
        TaskRegistry { suspended: false, tasks: HashMap::new() }
    }

    /// Registers a submitted task, unless the registry is suspended or the
    /// ID is already retained.
    pub fn register(&mut self, task_id: TaskId, cancel: Arc<CancelHook>) -> (r: Result<
        (),
        TaskExecutionServiceError,
    >)
        ensures
            r == old(self)@.register_answer(task_id),
            r is Ok ==> final(self)@ == old(self)@.registered(task_id, cancel),
            r is Err ==> final(self)@ == old(self)@,
    {
        if self.suspended {
            return Err(TaskExecutionServiceError::Suspended);
        }
        if self.tasks.contains_key(&task_id) {
            return Err(TaskExecutionServiceError::DuplicateTask(task_id));
        }
        self.tasks.insert(task_id, TaskRecord { status: TaskStatus::Submitted, cancel });
        Ok(())
    }

    /// Removes a task record.
    pub fn remove(&mut self, task_id: TaskId)
        ensures
            final(self)@ == old(self)@.without(task_id),
    {
        self.tasks.remove(&task_id);
    }

    /// Settles the record of a registered task once the pool answered
    /// `answer` for its job: a refused job's record is removed; an accepted
    /// one's is kept.
    pub fn settle(&mut self, task_id: TaskId, answer: &Result<(), RejectedExecution>)
        ensures
            final(self)@ == old(self)@.settled(task_id, *answer),
    {
        if answer.is_err() {
            self.tasks.remove(&task_id);
        }
    }

    /// The status recorded for `task_id`.
    pub fn status(&self, task_id: TaskId) -> (r: Option<TaskStatus>)
        ensures
            r == self@.status_of(task_id),
    {
        match self.tasks.get(&task_id) {
            Some(record) => Some(record.status),
            None => None,
        }
    }

    /// The cancellation hook of `task_id`, if its task is still in flight.
    pub fn cancel_callback(&self, task_id: TaskId) -> (r: Option<Arc<CancelHook>>)
        ensures
            r is Some <==> self@.is_task_active(task_id),
            r is Some ==> r->0 == self@.tasks[task_id].cancel,
    {
        match self.tasks.get(&task_id) {
            Some(record) => {
                if record.status.is_active() {
                    let cancel = share_cancel(&record.cancel);
                    Some(cancel)
                } else {
                    None
                }
            },
            None => None,
        }
    }

    /// Updates the status of a retained task; unknown IDs are ignored.
    pub fn set_status(&mut self, task_id: TaskId, status: TaskStatus)
        ensures
            final(self)@ == old(self)@.with_status(task_id, status),
    {
        let ghost before = self.tasks@;
        if let Some(record) = self.tasks.remove(&task_id) {
            self.tasks.insert(task_id, TaskRecord { status, cancel: record.cancel });
            assert(self.tasks@ =~= before.insert(task_id, task_record(status, before[task_id].cancel)));
        } else {
            assert(self.tasks@ =~= before);
        }
    }

    /// Starts a submitted task: `true`, and the task is running, when it was
    /// submitted; `false`, with nothing changed, otherwise (it was cancelled,
    /// or is unknown).
    pub fn try_start(&mut self, task_id: TaskId) -> (started: bool)
        ensures
            started == (old(self)@.status_of(task_id) == Some(TaskStatus::Submitted)),
            final(self)@ == old(self)@.started(task_id),
    {
        if self.status(task_id) == Some(TaskStatus::Submitted) {
            self.set_status(task_id, TaskStatus::Running);
            true
        } else {
            false
        }
    }

    /// Cancels a submitted task: its hook, and the task is cancelled, when
    /// it was submitted; `None`, with nothing changed, otherwise (it started,
    /// ended, or is unknown).
    pub fn try_cancel(&mut self, task_id: TaskId) -> (hook: Option<Arc<CancelHook>>)
        ensures
            hook is Some <==> old(self)@.status_of(task_id) == Some(TaskStatus::Submitted),
            hook is Some ==> hook->0 == old(self)@.tasks[task_id].cancel,
            final(self)@ == old(self)@.cancelled_task(task_id),
    {
        if self.status(task_id) == Some(TaskStatus::Submitted) {
            let hook = self.cancel_callback(task_id);
            self.set_status(task_id, TaskStatus::Cancelled);
            hook
        } else {
            None
        }
    }

    /// Records that a running task ended in `status`; a task that is not
    /// running, or a status that is not a run's outcome, changes nothing.
    pub fn finish(&mut self, task_id: TaskId, status: TaskStatus)
        ensures
            final(self)@ == old(self)@.finished(task_id, status),
    {
        let outcome = match status {
            TaskStatus::Succeeded | TaskStatus::Failed | TaskStatus::Panicked => true,
            _ => false,
        };
        if self.status(task_id) == Some(TaskStatus::Running) && outcome {
            self.set_status(task_id, status);
        }
    }

    /// Sets the suspension flag.
    pub fn set_suspended(&mut self, suspended: bool)
        ensures
            final(self)@ == old(self)@.with_suspended(suspended),
    {
        self.suspended = suspended;
    }

    /// Whether new submissions are refused.
    pub fn is_suspended(&self) -> (r: bool)
        ensures
            r == self@.suspended,
    {
        self.suspended
    }

    /// Returns task statistics: the number of retained records and, for
    /// each status, the number of records with it.
    pub fn stats(&self) -> (stats: TaskExecutionStats)
        ensures
            stats == self@.stats(),
            stats.total_is_sum(),
    {
        let mut stats = TaskExecutionStats::default();
        let ghost tasks = self.tasks@;
        let count = self.tasks.len();
        let ghost mut seen: Set<TaskId> = Set::empty();
        proof {
            let keys = vstd::std_specs::hash::spec_keys_iter(&self.tasks).remaining();
            assert forall|j: int| 0 <= j < keys.len() implies tasks.dom().contains(*keys[j]) by {
                assert(keys.unref()[j] == *keys[j]);
                assert(keys.unref().to_set().contains(*keys[j]));
            }
            assert forall|s: TaskStatus| #[trigger] ids_with_in(tasks, seen, s).len() == 0 by {
                assert(ids_with_in(tasks, seen, s) =~= Set::<TaskId>::empty());
            }
        }
        for task_id in iter: self.tasks.keys()
            invariant
                tasks == self.tasks@,
                count == tasks.dom().len(),
                iter.seq().len() == tasks.dom().len(),
                iter.seq().no_duplicates(),
                forall|j: int| 0 <= j < iter.seq().len() ==> tasks.dom().contains(*iter.seq()[j]),
                seen.finite(),
                seen.len() == iter.index(),
                seen.subset_of(tasks.dom()),
                forall|j: int|
                    iter.index() <= j < iter.seq().len() ==> !seen.contains(*iter.seq()[j]),
                stats.total == iter.index(),
                forall|s: TaskStatus| #[trigger]
                    stats.count_of(s) == ids_with_in(tasks, seen, s).len(),
        {
            let ghost id = *task_id;
            assert(id == *iter.seq()[iter.index() as int]);
            if let Some(record) = self.tasks.get(task_id) {
                proof {
                    seen.lemma_len_filter(|k: TaskId| tasks[k].status == record.status);
                }
                stats.add_status(record.status);
                proof {
                    lemma_ids_with_in_insert(tasks, seen, id);
                    seen = seen.insert(id);
                }
            }
        }
        proof {
            vstd::set_lib::lemma_subset_equality(seen, tasks.dom());
            assert forall|s: TaskStatus| ids_with_in(tasks, tasks.dom(), s).len() <= usize::MAX by {
                tasks.dom().lemma_len_filter(|k: TaskId| tasks[k].status == s);
            }
            assert(stats.count_of(TaskStatus::Submitted) == ids_with_in(tasks, seen, TaskStatus::Submitted).len());
            assert(stats.count_of(TaskStatus::Running) == ids_with_in(tasks, seen, TaskStatus::Running).len());
            assert(stats.count_of(TaskStatus::Succeeded) == ids_with_in(tasks, seen, TaskStatus::Succeeded).len());
            assert(stats.count_of(TaskStatus::Failed) == ids_with_in(tasks, seen, TaskStatus::Failed).len());
            assert(stats.count_of(TaskStatus::Panicked) == ids_with_in(tasks, seen, TaskStatus::Panicked).len());
            assert(stats.count_of(TaskStatus::Cancelled) == ids_with_in(tasks, seen, TaskStatus::Cancelled).len());
            lemma_stats_total_is_sum(self@);
        }
        stats
    }

    /// Returns whether any retained task is still active.
    pub fn has_active_tasks(&self) -> (r: bool)
        ensures
            r == self@.has_active_task(),
    {
        let ghost tasks = self.tasks@;
        let ghost keys = vstd::std_specs::hash::spec_keys_iter(&self.tasks).remaining();
        for task_id in iter: self.tasks.keys()
            invariant
                tasks == self.tasks@,
                iter.seq() == keys,
                keys.unref().to_set() == tasks.dom(),
                forall|j: int| 0 <= j < iter.index() ==> !self@.is_task_active(*keys[j]),
        {
            if self.task_is_active(*task_id) {
                return true;
            }
        }
        assert forall|task_id: TaskId| !#[trigger] self@.is_task_active(task_id) by {
            if tasks.dom().contains(task_id) {
                assert(keys.unref().to_set().contains(task_id));
                let j = choose|j: int| 0 <= j < keys.unref().len() && keys.unref()[j] == task_id;
                assert(*keys[j] == task_id);
            }
        }
        false
    }

    /// The IDs of the retained tasks that are still active, each once.
    pub fn active_task_ids(&self) -> (ids: Vec<TaskId>)
        ensures
            ids@.no_duplicates(),
            forall|task_id: TaskId| ids@.contains(task_id) <==> #[trigger] self@.is_task_active(task_id),
    {
        let ghost tasks = self.tasks@;
        let ghost keys = vstd::std_specs::hash::spec_keys_iter(&self.tasks).remaining();
        let mut ids: Vec<TaskId> = Vec::new();
        for task_id in iter: self.tasks.keys()
            invariant
                tasks == self.tasks@,
                iter.seq() == keys,
                keys.unref().to_set() == tasks.dom(),
                keys.no_duplicates(),
                ids@.no_duplicates(),
                forall|task_id: TaskId| #[trigger] ids@.contains(task_id) <==> exists|j: int|
                    0 <= j < iter.index() && *keys[j] == task_id && self@.is_task_active(task_id),
        {
            let ghost index = iter.index();
            let ghost old_ids = ids@;
            let active = self.task_is_active(*task_id);
            if active {
                proof {
                    assert forall|k: int| 0 <= k < ids@.len() implies ids@[k] != *task_id by {
                        assert(old_ids.contains(old_ids[k]));
                    }
                }
                ids.push(*task_id);
            }
            assert forall|t: TaskId| #[trigger] ids@.contains(t) <==> exists|j: int|
                0 <= j < index + 1 && *keys[j] == t && self@.is_task_active(t) by {
                if ids@.contains(t) {
                    if old_ids.contains(t) {
                        let j = choose|j: int| 0 <= j < index && *keys[j] == t && self@.is_task_active(t);
                        assert(0 <= j < index + 1 && *keys[j] == t && self@.is_task_active(t));
                    } else {
                        let k = choose|k: int| 0 <= k < ids@.len() && ids@[k] == t;
                        assert(active && k == old_ids.len());
                        assert(0 <= index < index + 1 && *keys[index] == t && self@.is_task_active(t));
                    }
                }
                if exists|j: int| 0 <= j < index + 1 && *keys[j] == t && self@.is_task_active(t) {
                    let j = choose|j: int| 0 <= j < index + 1 && *keys[j] == t && self@.is_task_active(t);
                    if j < index {
                        assert(old_ids.contains(t));
                        let k = choose|k: int| 0 <= k < old_ids.len() && old_ids[k] == t;
                        assert(ids@[k] == t);
                    } else {
                        assert(ids@[ids@.len() - 1] == t);
                    }
                }
            }
        }
        assert forall|task_id: TaskId| ids@.contains(task_id) <==> #[trigger] self@.is_task_active(task_id) by {
            if self@.is_task_active(task_id) {
                assert(keys.unref().to_set().contains(task_id));
                let j = choose|j: int| 0 <= j < keys.unref().len() && keys.unref()[j] == task_id;
                assert(*keys[j] == task_id);
            }
        }
        ids
    }

    /// Returns whether a retained task ID is still active.
    pub fn task_is_active(&self, task_id: TaskId) -> (r: bool)
        ensures
            r == self@.is_task_active(task_id),
    {
        match self.tasks.get(&task_id) {
            Some(record) => record.status.is_active(),
            None => false,
        }
    }
}

/// Shared state of a [`TaskExecutionService`]: the registry in a monitor
/// whose condition variable wakes threads waiting for idleness.
pub struct TaskExecutionServiceState {
    monitor: Monitor<TaskRegistry>,
}

impl TaskExecutionServiceState {
    /// `registry` is a borrow of this service's own registry, taken while
    /// its lock was held.
    pub closed spec fn guards(&self, registry: &mut TaskRegistry) -> bool {
        self.monitor.lends(registry)
    }

    /// An empty registry that accepts submissions.
    pub fn new() -> (state: Self) {
        TaskExecutionServiceState { monitor: Monitor::new(TaskRegistry::new()) }
    }

    /// Registers a submitted task.
    pub fn register(&self, task_id: TaskId, cancel: Arc<CancelHook>) -> (r: Result<
        (),
        TaskExecutionServiceError,
    >)
        ensures
            exists|registry: TaskRegistry| r == registry@.register_answer(task_id),
            exists|shared: &mut TaskRegistry|
                #![trigger self.guards(shared)]
                self.guards(shared) && r == (*shared)@.register_answer(task_id) && (r is Ok
                    ==> (*final(shared))@ == (*shared)@.registered(task_id, cancel)) && (r is Err
                    ==> (*final(shared))@ == (*shared)@),
    {
        let mut guard = self.monitor.lock();
        let registry = guard.data();
        let ghost shared = registry;
        assert(self.guards(shared));
        registry.register(task_id, cancel)
    }

    /// Settles a registered task's record once the pool answered (see
    /// [`TaskRegistry::settle`]) and wakes idle waiters when it was removed.
    pub fn settle(&self, task_id: TaskId, answer: &Result<(), RejectedExecution>)
        ensures
            exists|shared: &mut TaskRegistry|
                #![trigger self.guards(shared)]
                self.guards(shared) && (*final(shared))@ == (*shared)@.settled(task_id, *answer),
    {
        let mut guard = self.monitor.lock();
        let registry = guard.data();
        let ghost shared = registry;
        assert(self.guards(shared));
        registry.settle(task_id, answer);
        if answer.is_err() {
            self.monitor.notify_all();
        }
    }

    /// Removes a task record and wakes idle waiters.
    pub fn remove(&self, task_id: TaskId)
        ensures
            exists|shared: &mut TaskRegistry|
                #![trigger self.guards(shared)]
                self.guards(shared) && (*final(shared))@ == (*shared)@.without(task_id),
    {
        let mut guard = self.monitor.lock();
        let registry = guard.data();
        let ghost shared = registry;
        assert(self.guards(shared));
        registry.remove(task_id);
        self.monitor.notify_all();
    }

    /// Gets a task status.
    pub fn status(&self, task_id: TaskId) -> (r: Option<TaskStatus>)
        ensures
            exists|registry: TaskRegistry| r == registry@.status_of(task_id),
            exists|shared: &mut TaskRegistry|
                #![trigger self.guards(shared)]
                self.guards(shared) && r == (*shared)@.status_of(task_id),
    {
        let mut guard = self.monitor.lock();
        let registry = guard.data();
        let ghost shared = registry;
        assert(self.guards(shared));
        registry.status(task_id)
    }

    /// Gets a task's cancellation hook if the task is active.
    pub fn cancel_callback(&self, task_id: TaskId) -> (r: Option<Arc<CancelHook>>)
        ensures
            exists|registry: TaskRegistry|
                (r is Some <==> registry@.is_task_active(task_id)) && (r is Some ==> r->0
                    == registry@.tasks[task_id].cancel),
            exists|shared: &mut TaskRegistry|
                #![trigger self.guards(shared)]
                self.guards(shared) && (r is Some <==> (*shared)@.is_task_active(task_id)) && (
                r is Some ==> r->0 == (*shared)@.tasks[task_id].cancel),
    {
        let mut guard = self.monitor.lock();
        let registry = guard.data();
        let ghost shared = registry;
        assert(self.guards(shared));
        let hook = registry.cancel_callback(task_id);
        assert((hook is Some <==> registry@.is_task_active(task_id)) && (hook is Some ==> hook->0
            == registry@.tasks[task_id].cancel));
        hook
    }

    /// Starts a submitted task (see [`TaskRegistry::try_start`]).
    pub fn try_start(&self, task_id: TaskId) -> (started: bool)
        ensures
            exists|registry: TaskRegistry|
                started == (registry@.status_of(task_id) == Some(TaskStatus::Submitted)),
            exists|shared: &mut TaskRegistry|
                #![trigger self.guards(shared)]
                self.guards(shared) && started == ((*shared)@.status_of(task_id) == Some(
                    TaskStatus::Submitted,
                )) && (*final(shared))@ == (*shared)@.started(task_id),
    {
        let mut guard = self.monitor.lock();
        let registry = guard.data();
        let ghost shared = registry;
        assert(self.guards(shared));
        let ghost before: TaskRegistry = *registry;
        let started = registry.try_start(task_id);
        assert(started == (before@.status_of(task_id) == Some(TaskStatus::Submitted)));
        started
    }

    /// Cancels a submitted task (see [`TaskRegistry::try_cancel`]), wakes
    /// idle waiters and, once the lock is released, runs the task's hook.
    /// `true` when the task was cancelled.
    pub fn cancel_task(&self, task_id: TaskId) -> (cancelled: bool)
        ensures
            exists|registry: TaskRegistry|
                cancelled == (registry@.status_of(task_id) == Some(TaskStatus::Submitted)),
            exists|shared: &mut TaskRegistry|
                #![trigger self.guards(shared)]
                self.guards(shared) && cancelled == ((*shared)@.status_of(task_id) == Some(
                    TaskStatus::Submitted,
                )) && (*final(shared))@ == (*shared)@.cancelled_task(task_id),
    {
        let hook = {
            let mut guard = self.monitor.lock();
            let registry = guard.data();
            let ghost shared = registry;
            assert(self.guards(shared));
            let ghost before: TaskRegistry = *registry;
            let hook = registry.try_cancel(task_id);
            if hook.is_some() {
                self.monitor.notify_all();
            }
            assert((hook is Some) == (before@.status_of(task_id) == Some(TaskStatus::Submitted)));
            hook
        };
        match hook {
            Some(hook) => {
                hook.notify_cancelled();
                true
            },
            None => false,
        }
    }

    /// Records that a running task ended in `status` (see
    /// [`TaskRegistry::finish`]) and wakes idle waiters.
    pub fn finish(&self, task_id: TaskId, status: TaskStatus)
        ensures
            exists|shared: &mut TaskRegistry|
                #![trigger self.guards(shared)]
                self.guards(shared) && (*final(shared))@ == (*shared)@.finished(task_id, status),
    {
        let mut guard = self.monitor.lock();
        let registry = guard.data();
        let ghost shared = registry;
        registry.finish(task_id, status);
        self.monitor.notify_all();
        assert(self.guards(shared));
    }

    /// Updates the suspension flag.
    pub fn set_suspended(&self, suspended: bool)
        ensures
            exists|shared: &mut TaskRegistry|
                #![trigger self.guards(shared)]
                self.guards(shared) && (*final(shared))@ == (*shared)@.with_suspended(suspended),
    {
        let mut guard = self.monitor.lock();
        let registry = guard.data();
        let ghost shared = registry;
        assert(self.guards(shared));
        registry.set_suspended(suspended);
    }

    /// Returns whether new submissions are suspended.
    pub fn is_suspended(&self) -> (r: bool)
        ensures
            exists|registry: TaskRegistry| r == registry@.suspended,
            exists|shared: &mut TaskRegistry|
                #![trigger self.guards(shared)]
                self.guards(shared) && r == (*shared)@.suspended,
    {
        let mut guard = self.monitor.lock();
        let registry = guard.data();
        let ghost shared = registry;
        assert(self.guards(shared));
        registry.is_suspended()
    }

    /// Returns task statistics.
    pub fn stats(&self) -> (stats: TaskExecutionStats)
        ensures
            exists|registry: TaskRegistry| stats == registry@.stats(),
            stats.total_is_sum(),
            exists|shared: &mut TaskRegistry|
                #![trigger self.guards(shared)]
                self.guards(shared) && stats == (*shared)@.stats(),
    {
        let mut guard = self.monitor.lock();
        let registry = guard.data();
        let ghost shared = registry;
        assert(self.guards(shared));
        registry.stats()
    }

    /// The IDs of the tasks active now, each once.
    pub fn active_task_ids(&self) -> (ids: Vec<TaskId>)
        ensures
            ids@.no_duplicates(),
            exists|registry: TaskRegistry| registry@.lists_active_tasks(ids@),
            exists|shared: &mut TaskRegistry|
                #![trigger self.guards(shared)]
                self.guards(shared) && (*shared)@.lists_active_tasks(ids@),
    {
        let mut guard = self.monitor.lock();
        let registry = guard.data();
        let ghost shared = registry;
        assert(self.guards(shared));
        let ids = registry.active_task_ids();
        assert(registry@.lists_active_tasks(ids@));
        ids
    }

    /// One round of waiting for idleness: `true` when no retained task is
    /// active; otherwise waits once for a status change and returns `false`.
    pub fn idle_wait_step(&self) -> (idle: bool)
        ensures
            exists|registry: TaskRegistry| idle == !registry@.has_active_task(),
            exists|shared: &mut TaskRegistry|
                #![trigger self.guards(shared)]
                self.guards(shared) && idle == !(*shared)@.has_active_task(),
    {
        let mut guard = self.monitor.lock();
        let registry = guard.data();
        let ghost shared = registry;
        assert(self.guards(shared));
        let ghost seen: TaskRegistry = *registry;
        if !registry.has_active_tasks() {
            assert(true == !seen@.has_active_task());
            return true;
        }
        assert(false == !seen@.has_active_task());
        let _guard = guard.wait();
        false
    }

    /// One round of waiting for the tasks `task_ids`: `true` when none of
    /// them is active; otherwise waits once for a status change and returns
    /// `false`.
    pub fn in_flight_wait_step(&self, task_ids: &Vec<TaskId>) -> (done: bool)
        ensures
            exists|registry: TaskRegistry| done == registry@.none_active(task_ids@),
            exists|shared: &mut TaskRegistry|
                #![trigger self.guards(shared)]
                self.guards(shared) && done == (*shared)@.none_active(task_ids@),
    {
        let mut guard = self.monitor.lock();
        let registry = guard.data();
        let ghost seen: TaskRegistry = *registry;
        let ghost shared = registry;
        assert(self.guards(shared));
        let mut i: usize = 0;
        while i < task_ids.len()
            invariant
                i <= task_ids@.len(),
                seen == *registry,
                seen == *shared,
                self.guards(shared),
                forall|k: int| 0 <= k < i ==> !registry@.is_task_active(#[trigger] task_ids@[k]),
            decreases task_ids@.len() - i,
        {
            if registry.task_is_active(task_ids[i]) {
                assert(seen@.is_task_active(task_ids@[i as int]));
                assert(false == seen@.none_active(task_ids@));
                let _guard = guard.wait();
                return false;
            }
            i = i + 1;
        }
        assert(registry@.none_active(task_ids@));
        true
    }
}

/// The service's answer when the pool answered a submission with `answer`.
pub open spec fn pool_answer(answer: Result<(), RejectedExecution>) -> Result<(), TaskExecutionServiceError> {
    match answer {
        Ok(()) => Ok(()),
        Err(e) => Err(TaskExecutionServiceError::Rejected(e)),
    }
}

/// Higher-level task management service built on [`ThreadPool`].
///
/// The service owns business task IDs and status tracking; task results are
/// reported by whatever the submitted job does.
pub struct TaskExecutionService {
    pool: ThreadPool,
    state: Arc<TaskExecutionServiceState>,
}

impl TaskExecutionService {
    /// A service with an empty registry on top of `pool`.
    pub fn with_pool(pool: ThreadPool) -> (service: Self)
        ensures
            service.thread_pool_spec() == pool,
    {
        TaskExecutionService { pool, state: Arc::new(TaskExecutionServiceState::new()) }
    }

    /// The pool that runs this service's tasks.
    pub closed spec fn thread_pool_spec(&self) -> ThreadPool {
        self.pool
    }

    /// The shared registry of this service.
    pub closed spec fn registry_spec(&self) -> TaskExecutionServiceState {
        *self.state
    }

    /// The registry shared with the jobs of this service, which report their
    /// progress through [`TaskExecutionServiceState::set_status`]: another
    /// handle to this service's own registry.
    pub fn tracker(&self) -> (state: Arc<TaskExecutionServiceState>)
        ensures
            *state == self.registry_spec(),
    {
        Arc::clone(&self.state)
    }

    /// Registers `task_id` and hands `job` to the pool; a job the pool
    /// refuses is unregistered again.
    ///
    /// `Ok` means acceptance only: the job reports its own outcome.
    pub fn submit_job(&self, task_id: TaskId, job: PoolJob, cancel: Arc<CancelHook>) -> (r: Result<
        (),
        TaskExecutionServiceError,
    >)
        ensures
            r matches Err(TaskExecutionServiceError::DuplicateTask(id)) ==> id == task_id,
            (exists|registry: TaskRegistry| r == registry@.register_answer(task_id)) || (exists|
                state: ThreadPoolState,
            | r == pool_answer(state@.submit_answer())),
            exists|shared: &mut TaskRegistry|
                #![trigger self.registry_spec().guards(shared)]
                {
                    &&& self.registry_spec().guards(shared)
                    &&& (*shared)@.register_answer(task_id) is Err ==> r == (*shared)@.register_answer(
                        task_id,
                    ) && (*final(shared))@ == (*shared)@
                    &&& (*shared)@.register_answer(task_id) is Ok ==> (*final(shared))@
                        == (*shared)@.registered(task_id, cancel) && exists|pool: &mut ThreadPoolState|
                        #![trigger self.thread_pool_spec().shared().guards(pool)]
                        self.thread_pool_spec().shared().guards(pool) && r == pool_answer(
                            (*pool)@.submit_answer(),
                        )
                },
    {
        let ghost hook = cancel;
        let registered = self.state.register(task_id, cancel);
        let ghost shared = choose|shared: &mut TaskRegistry|
            #![trigger self.state.guards(shared)]
            self.state.guards(shared) && registered == (*shared)@.register_answer(task_id) && (
            registered is Ok ==> (*final(shared))@ == (*shared)@.registered(task_id, hook)) && (
            registered is Err ==> (*final(shared))@ == (*shared)@);
        assert(self.registry_spec().guards(shared));
        if registered.is_err() {
            return registered;
        }
        let answer = self.pool.submit_job(job);
        proof {
            let pool = choose|pool: &mut ThreadPoolState|
                #![trigger self.pool.shared().guards(pool)]
                self.pool.shared().guards(pool) && answer == (*pool)@.submit_answer() && (answer is Ok
                    ==> (*final(pool))@ == (*pool)@.with_queued(job)) && (answer is Err ==> (*final(
                    pool))@ == (*pool)@);
            assert(self.thread_pool_spec().shared().guards(pool));
        }
        self.settle_submission(task_id, answer)
    }

    /// The rest of [`TaskExecutionService::submit_job`] once the pool
    /// answered `answer` for the job of the registered `task_id`: the record
    /// is settled (see [`TaskRegistry::settle`]: a refused job leaves no
    /// record) and the answer is given as the service's.
    pub fn settle_submission(&self, task_id: TaskId, answer: Result<(), RejectedExecution>) -> (r: Result<
        (),
        TaskExecutionServiceError,
    >)
        ensures
            r == pool_answer(answer),
            exists|shared: &mut TaskRegistry|
                #![trigger self.registry_spec().guards(shared)]
                self.registry_spec().guards(shared) && (*final(shared))@ == (*shared)@.settled(
                    task_id,
                    answer,
                ),
    {
        self.state.settle(task_id, &answer);
        proof {
            let shared = choose|shared: &mut TaskRegistry|
                #![trigger self.state.guards(shared)]
                self.state.guards(shared) && (*final(shared))@ == (*shared)@.settled(task_id, answer);
            assert(self.registry_spec().guards(shared));
        }
        match answer {
            Ok(()) => Ok(()),
            Err(error) => Err(TaskExecutionServiceError::Rejected(error)),
        }
    }

    /// Attempts to cancel a task by ID: it succeeds only while the task is
    /// submitted and has not started; then the task is recorded as cancelled,
    /// its hook reports the cancellation and the task never runs. For an
    /// unknown, started or ended task it answers `false` and changes nothing
    /// (see [`TaskRegistry::try_cancel`]).
    pub fn cancel(&self, task_id: TaskId) -> (cancelled: bool)
        ensures
            exists|registry: TaskRegistry|
                cancelled == (registry@.status_of(task_id) == Some(TaskStatus::Submitted)),
            exists|shared: &mut TaskRegistry|
                #![trigger self.registry_spec().guards(shared)]
                self.registry_spec().guards(shared) && cancelled == ((*shared)@.status_of(task_id) == Some(
                    TaskStatus::Submitted,
                )) && (*final(shared))@ == (*shared)@.cancelled_task(task_id),
    {
        let cancelled = self.state.cancel_task(task_id);
        proof {
            let shared = choose|shared: &mut TaskRegistry|
                #![trigger self.state.guards(shared)]
                self.state.guards(shared) && cancelled == ((*shared)@.status_of(task_id) == Some(
                    TaskStatus::Submitted,
                )) && (*final(shared))@ == (*shared)@.cancelled_task(task_id);
            assert(self.registry_spec().guards(shared));
        }
        cancelled
    }

    /// Returns the current status of a task, if its record is retained.
    pub fn status(&self, task_id: TaskId) -> (r: Option<TaskStatus>)
        ensures
            exists|registry: TaskRegistry| r == registry@.status_of(task_id),
            exists|shared: &mut TaskRegistry|
                #![trigger self.registry_spec().guards(shared)]
                self.registry_spec().guards(shared) && r == (*shared)@.status_of(task_id),
    {
        let r = self.state.status(task_id);
        proof {
            let shared = choose|shared: &mut TaskRegistry|
                #![trigger self.state.guards(shared)]
                self.state.guards(shared) && r == (*shared)@.status_of(task_id);
            assert(self.registry_spec().guards(shared));
        }
        r
    }

    /// Returns registry-derived task statistics.
    pub fn stats(&self) -> (stats: TaskExecutionStats)
        ensures
            exists|registry: TaskRegistry| stats == registry@.stats(),
            stats.total_is_sum(),
            exists|shared: &mut TaskRegistry|
                #![trigger self.registry_spec().guards(shared)]
                self.registry_spec().guards(shared) && stats == (*shared)@.stats(),
    {
        let stats = self.state.stats();
        proof {
            let shared = choose|shared: &mut TaskRegistry|
                #![trigger self.state.guards(shared)]
                self.state.guards(shared) && stats == (*shared)@.stats();
            assert(self.registry_spec().guards(shared));
        }
        stats
    }

    /// Suspends new submissions; submitted and running tasks continue.
    pub fn suspend(&self)
        ensures
            exists|shared: &mut TaskRegistry|
                #![trigger self.registry_spec().guards(shared)]
                self.registry_spec().guards(shared) && (*final(shared))@ == (*shared)@.with_suspended(true),
    {
        self.state.set_suspended(true);
        proof {
            let shared = choose|shared: &mut TaskRegistry|
                #![trigger self.state.guards(shared)]
                self.state.guards(shared) && (*final(shared))@ == (*shared)@.with_suspended(true);
            assert(self.registry_spec().guards(shared));
        }
    }

    /// Resumes accepting new submissions.
    pub fn resume(&self)
        ensures
            exists|shared: &mut TaskRegistry|
                #![trigger self.registry_spec().guards(shared)]
                self.registry_spec().guards(shared) && (*final(shared))@ == (*shared)@.with_suspended(false),
    {
        self.state.set_suspended(false);
        proof {
            let shared = choose|shared: &mut TaskRegistry|
                #![trigger self.state.guards(shared)]
                self.state.guards(shared) && (*final(shared))@ == (*shared)@.with_suspended(false);
            assert(self.registry_spec().guards(shared));
        }
    }

    /// Returns whether the service is suspended.
    pub fn is_suspended(&self) -> (r: bool)
        ensures
            exists|registry: TaskRegistry| r == registry@.suspended,
            exists|shared: &mut TaskRegistry|
                #![trigger self.registry_spec().guards(shared)]
                self.registry_spec().guards(shared) && r == (*shared)@.suspended,
    {
        let r = self.state.is_suspended();
        proof {
            let shared = choose|shared: &mut TaskRegistry|
                #![trigger self.state.guards(shared)]
                self.state.guards(shared) && r == (*shared)@.suspended;
            assert(self.registry_spec().guards(shared));
        }
        r
    }

    /// The IDs of the tasks active now, for a later
    /// [`TaskExecutionService::in_flight_wait_step`].
    pub fn active_task_ids(&self) -> (ids: Vec<TaskId>)
        ensures
            ids@.no_duplicates(),
            exists|registry: TaskRegistry| registry@.lists_active_tasks(ids@),
            exists|shared: &mut TaskRegistry|
                #![trigger self.registry_spec().guards(shared)]
                self.registry_spec().guards(shared) && (*shared)@.lists_active_tasks(ids@),
    {
        let ids = self.state.active_task_ids();
        proof {
            let shared = choose|shared: &mut TaskRegistry|
                #![trigger self.state.guards(shared)]
                self.state.guards(shared) && (*shared)@.lists_active_tasks(ids@);
            assert(self.registry_spec().guards(shared));
        }
        ids
    }

    /// One round of waiting for the tasks `task_ids` to leave the active
    /// statuses.
    pub fn in_flight_wait_step(&self, task_ids: &Vec<TaskId>) -> (done: bool)
        ensures
            exists|registry: TaskRegistry| done == registry@.none_active(task_ids@),
            exists|shared: &mut TaskRegistry|
                #![trigger self.registry_spec().guards(shared)]
                self.registry_spec().guards(shared) && done == (*shared)@.none_active(task_ids@),
    {
        let done = self.state.in_flight_wait_step(task_ids);
        proof {
            let shared = choose|shared: &mut TaskRegistry|
                #![trigger self.state.guards(shared)]
                self.state.guards(shared) && done == (*shared)@.none_active(task_ids@);
            assert(self.registry_spec().guards(shared));
        }
        done
    }

    /// One round of waiting until no retained task is active.
    pub fn idle_wait_step(&self) -> (idle: bool)
        ensures
            exists|registry: TaskRegistry| idle == !registry@.has_active_task(),
            exists|shared: &mut TaskRegistry|
                #![trigger self.registry_spec().guards(shared)]
                self.registry_spec().guards(shared) && idle == !(*shared)@.has_active_task(),
    {
        let idle = self.state.idle_wait_step();
        proof {
            let shared = choose|shared: &mut TaskRegistry|
                #![trigger self.state.guards(shared)]
                self.state.guards(shared) && idle == !(*shared)@.has_active_task();
            assert(self.registry_spec().guards(shared));
        }
        idle
    }

    /// Initiates graceful shutdown of the backing pool.
    pub fn shutdown(&self)
        ensures
            exists|shared: &mut ThreadPoolState|
                #![trigger self.thread_pool_spec().shared().guards(shared)]
                self.thread_pool_spec().shared().guards(shared) && (*final(shared))@ == (*shared)@.after_shutdown(),
    {
        self.pool.shutdown();
        proof {
            let shared = choose|shared: &mut ThreadPoolState|
                #![trigger self.pool.shared().guards(shared)]
                self.pool.shared().guards(shared) && (*final(shared))@ == (*shared)@.after_shutdown();
            assert(self.thread_pool_spec().shared().guards(shared));
        }
    }

    /// Initiates immediate shutdown of the backing pool.
    pub fn shutdown_now(&self) -> (report: ShutdownReport)
        ensures
            exists|state: ThreadPoolState| report == state@.shutdown_report(),
            report.cancelled == report.queued,
            exists|shared: &mut ThreadPoolState|
                #![trigger self.thread_pool_spec().shared().guards(shared)]
                self.thread_pool_spec().shared().guards(shared) && report == (*shared)@.shutdown_report() && (*final(shared))@
                    == (*shared)@.after_shutdown_now(),
    {
        let report = self.pool.shutdown_now();
        proof {
            let shared = choose|shared: &mut ThreadPoolState|
                #![trigger self.pool.shared().guards(shared)]
                self.pool.shared().guards(shared) && report == (*shared)@.shutdown_report() && (*final(shared))@
                    == (*shared)@.after_shutdown_now();
            assert(self.thread_pool_spec().shared().guards(shared));
        }
        report
    }

    /// Returns whether the backing pool has begun shutdown.
    pub fn is_shutdown(&self) -> (r: bool)
        ensures
            exists|state: ThreadPoolState| r == !(state@.lifecycle is Running),
            exists|shared: &mut ThreadPoolState|
                #![trigger self.thread_pool_spec().shared().guards(shared)]
                self.thread_pool_spec().shared().guards(shared) && r == !((*shared)@.lifecycle is Running),
    {
        let r = self.pool.is_shutdown();
        proof {
            let shared = choose|shared: &mut ThreadPoolState|
                #![trigger self.pool.shared().guards(shared)]
                self.pool.shared().guards(shared) && r == !((*shared)@.lifecycle is Running);
            assert(self.thread_pool_spec().shared().guards(shared));
        }
        r
    }

    /// Returns whether the backing pool has terminated.
    pub fn is_terminated(&self) -> (r: bool)
        ensures
            exists|state: ThreadPoolState| r == state@.is_terminated(),
            exists|shared: &mut ThreadPoolState|
                #![trigger self.thread_pool_spec().shared().guards(shared)]
                self.thread_pool_spec().shared().guards(shared) && r == (*shared)@.is_terminated(),
    {
        let r = self.pool.is_terminated();
        proof {
            let shared = choose|shared: &mut ThreadPoolState|
                #![trigger self.pool.shared().guards(shared)]
                self.pool.shared().guards(shared) && r == (*shared)@.is_terminated();
            assert(self.thread_pool_spec().shared().guards(shared));
        }
        r
    }

    /// One round of waiting for the backing pool to terminate.
    pub fn termination_wait_step(&self) -> (terminated: bool)
        ensures
            exists|state: ThreadPoolState| terminated == state@.is_terminated(),
            exists|shared: &mut ThreadPoolState|
                #![trigger self.thread_pool_spec().shared().guards(shared)]
                self.thread_pool_spec().shared().guards(shared) && terminated
                    == (*shared)@.is_terminated(),
    {
        let terminated = self.pool.termination_wait_step();
        proof {
            let shared = choose|shared: &mut ThreadPoolState|
                #![trigger self.pool.shared().guards(shared)]
                self.pool.shared().guards(shared) && terminated == (*shared)@.is_terminated();
            assert(self.thread_pool_spec().shared().guards(shared));
        }
        terminated
    }

    /// Returns the backing thread pool.
    pub fn thread_pool(&self) -> (pool: &ThreadPool)
        ensures
            *pool == self.thread_pool_spec(),
    {
        &self.pool
    }
}

/// Builder for [`TaskExecutionService`]: the configuration of its pool.
#[derive(Debug, Clone)]
pub struct TaskExecutionServiceBuilder {
    pool_builder: ThreadPoolBuilder,
}

impl TaskExecutionServiceBuilder {
    /// A builder whose pool is configured by `pool_builder`.
    pub fn new(pool_builder: ThreadPoolBuilder) -> (builder: Self)
        ensures
            builder.pool_config() == pool_builder@,
    {
        TaskExecutionServiceBuilder { pool_builder }
    }

    /// The configuration of the backing pool.
    pub closed spec fn pool_config(&self) -> ThreadPoolBuilderView {
        self.pool_builder@
    }

    /// Sets the backing pool builder.
    pub fn thread_pool(self, pool_builder: ThreadPoolBuilder) -> (builder: Self)
        ensures
            builder.pool_config() == pool_builder@,
    {
        TaskExecutionServiceBuilder { pool_builder }
    }

    /// The backing pool builder, for building the pool.
    pub fn into_pool_builder(self) -> (pool_builder: ThreadPoolBuilder)
        ensures
            pool_builder@ == self.pool_config(),
    {
        self.pool_builder
    }
}

} // verus!
