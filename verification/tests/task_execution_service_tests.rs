//! Tests for the task registry and the task execution service.

use qubit_concurrent::task::task_execution_service::TaskRegistry;
use qubit_concurrent::task::thread_pool::{finish_running_job, wait_for_job_step};
use qubit_concurrent::task::{
    CancelHook, PoolCallback, PoolJob, RejectedExecution, TaskCancel, TaskExecutionService,
    TaskExecutionServiceBuilder, TaskExecutionServiceError, TaskExecutionStats, TaskStatus,
    ThreadPool, ThreadPoolBuilder, WorkerPoll,
};
use std::sync::atomic::{AtomicBool, Ordering};
use std::sync::{Arc, Mutex};

/// A cancellation hook that remembers whether it was told of a
/// cancellation.
struct FlagCancel(Arc<AtomicBool>);

impl TaskCancel for FlagCancel {
    fn notify_cancelled(&self) {
        self.0.store(true, Ordering::SeqCst);
    }
}

fn hook() -> Arc<CancelHook> {
    Arc::new(CancelHook::new(Box::new(FlagCancel(Arc::new(AtomicBool::new(false))))))
}

fn flagged_hook(flag: &Arc<AtomicBool>) -> Arc<CancelHook> {
    Arc::new(CancelHook::new(Box::new(FlagCancel(Arc::clone(flag)))))
}

/// A pool callback made of a closure.
struct Callback(Box<dyn FnOnce() + Send>);

impl PoolCallback for Callback {
    fn call_once(self: Box<Self>) {
        (self.0)()
    }
}

fn noop_job() -> PoolJob {
    PoolJob::new(Box::new(Callback(Box::new(|| {}))), Box::new(Callback(Box::new(|| {}))))
}

#[test]
fn test_task_status_is_active() {
    assert!(TaskStatus::Submitted.is_active());
    assert!(TaskStatus::Running.is_active());
    assert!(!TaskStatus::Succeeded.is_active());
    assert!(!TaskStatus::Failed.is_active());
    assert!(!TaskStatus::Panicked.is_active());
    assert!(!TaskStatus::Cancelled.is_active());
}

#[test]
fn test_stats_add_status() {
    let mut stats = TaskExecutionStats::default();
    assert_eq!(stats.total, 0);
    stats.add_status(TaskStatus::Running);
    stats.add_status(TaskStatus::Running);
    stats.add_status(TaskStatus::Cancelled);
    assert_eq!(stats.total, 3);
    assert_eq!(stats.running, 2);
    assert_eq!(stats.cancelled, 1);
    assert_eq!(stats.submitted + stats.succeeded + stats.failed + stats.panicked, 0);
}

#[test]
fn test_registry_register_rules() {
    let mut registry = TaskRegistry::new();
    assert!(registry.register(1, hook()).is_ok());
    assert_eq!(registry.status(1), Some(TaskStatus::Submitted));
    assert!(matches!(
        registry.register(1, hook()),
        Err(TaskExecutionServiceError::DuplicateTask(1))
    ));
    registry.set_suspended(true);
    assert!(registry.is_suspended());
    assert!(matches!(registry.register(2, hook()), Err(TaskExecutionServiceError::Suspended)));
    assert_eq!(registry.status(2), None);
    registry.set_suspended(false);
    assert!(registry.register(2, hook()).is_ok());
    registry.remove(1);
    assert_eq!(registry.status(1), None);
    assert!(registry.register(1, hook()).is_ok());
}

#[test]
fn test_registry_status_and_cancel_callback() {
    let mut registry = TaskRegistry::new();
    assert!(registry.register(5, hook()).is_ok());
    assert!(registry.task_is_active(5));
    assert!(registry.cancel_callback(5).is_some());
    registry.set_status(5, TaskStatus::Running);
    assert_eq!(registry.status(5), Some(TaskStatus::Running));
    assert!(registry.cancel_callback(5).is_some());
    registry.set_status(5, TaskStatus::Succeeded);
    assert!(!registry.task_is_active(5));
    assert!(registry.cancel_callback(5).is_none());
    registry.set_status(6, TaskStatus::Failed);
    assert_eq!(registry.status(6), None);
    assert!(registry.cancel_callback(6).is_none());
}

#[test]
fn test_registry_stats_and_activity() {
    let mut registry = TaskRegistry::new();
    assert!(!registry.has_active_tasks());
    assert_eq!(registry.stats(), TaskExecutionStats::default());
    let statuses = [
        TaskStatus::Submitted,
        TaskStatus::Running,
        TaskStatus::Succeeded,
        TaskStatus::Succeeded,
        TaskStatus::Failed,
        TaskStatus::Panicked,
        TaskStatus::Cancelled,
    ];
    for (index, status) in statuses.iter().enumerate() {
        let id = index as u64 + 10;
        assert!(registry.register(id, hook()).is_ok());
        registry.set_status(id, *status);
    }
    let stats = registry.stats();
    assert_eq!(
        stats,
        TaskExecutionStats {
            total: 7,
            submitted: 1,
            running: 1,
            succeeded: 2,
            failed: 1,
            panicked: 1,
            cancelled: 1,
        }
    );
    assert!(registry.has_active_tasks());
    let mut active = registry.active_task_ids();
    active.sort();
    assert_eq!(active, vec![10, 11]);
    registry.set_status(10, TaskStatus::Cancelled);
    registry.set_status(11, TaskStatus::Succeeded);
    assert!(!registry.has_active_tasks());
    assert!(registry.active_task_ids().is_empty());
}

#[test]
fn test_service_submit_cancel_and_complete() {
    let pool = ThreadPool::with_queue_capacity(None);
    pool.register_worker();
    let service = TaskExecutionService::with_pool(pool);
    let log = Arc::new(Mutex::new(Vec::new()));

    let tracker = service.tracker();
    let run_log = Arc::clone(&log);
    let job = PoolJob::new(
        Box::new(Callback(Box::new(move || {
            assert!(tracker.try_start(1));
            run_log.lock().unwrap().push(1);
            tracker.finish(1, TaskStatus::Succeeded);
        }))),
        Box::new(Callback(Box::new(|| {}))),
    );
    assert!(service.submit_job(1, job, hook()).is_ok());
    assert_eq!(service.status(1), Some(TaskStatus::Submitted));
    assert!(matches!(
        service.submit_job(1, noop_job(), hook()),
        Err(TaskExecutionServiceError::DuplicateTask(1))
    ));

    let notified = Arc::new(AtomicBool::new(false));
    assert!(service.submit_job(2, noop_job(), flagged_hook(&notified)).is_ok());
    assert!(service.cancel(2));
    assert!(notified.load(Ordering::SeqCst));
    assert_eq!(service.status(2), Some(TaskStatus::Cancelled));
    assert!(!service.cancel(2));
    assert!(!service.cancel(99));
    assert!(!service.tracker().try_start(2));

    let ids = service.active_task_ids();
    assert_eq!(ids, vec![1]);
    assert!(service.in_flight_wait_step(&vec![]));

    let inner = service.thread_pool().worker_context();
    match wait_for_job_step(&inner) {
        WorkerPoll::Job(job) => {
            job.run();
            finish_running_job(&inner);
        }
        _ => panic!("the first job should be taken"),
    }
    assert_eq!(service.status(1), Some(TaskStatus::Succeeded));
    assert_eq!(*log.lock().unwrap(), vec![1]);
    assert!(service.in_flight_wait_step(&vec![1]));

    let stats = service.stats();
    assert_eq!(stats.total, 2);
    assert_eq!(stats.succeeded, 1);
    assert_eq!(stats.cancelled, 1);

    service.suspend();
    assert!(service.is_suspended());
    assert!(matches!(
        service.submit_job(3, noop_job(), hook()),
        Err(TaskExecutionServiceError::Suspended)
    ));
    service.resume();
    assert!(!service.is_suspended());

    service.shutdown();
    assert!(service.is_shutdown());
    assert!(matches!(
        service.submit_job(3, noop_job(), hook()),
        Err(TaskExecutionServiceError::Rejected(RejectedExecution::Shutdown))
    ));
    assert_eq!(service.status(3), None);
    let report = service.shutdown_now();
    assert_eq!(report.queued, 1);
    assert_eq!(report.cancelled, 1);
    assert!(matches!(wait_for_job_step(&inner), WorkerPoll::Exit));
    assert!(service.is_terminated());
    assert!(service.termination_wait_step());
}

#[test]
fn test_service_idle_step() {
    let pool = ThreadPool::with_queue_capacity(None);
    let service = TaskExecutionService::with_pool(pool);
    assert!(service.idle_wait_step());
    assert!(service.active_task_ids().is_empty());
}

#[test]
fn test_service_builder_keeps_pool_configuration() {
    let builder = TaskExecutionServiceBuilder::new(ThreadPoolBuilder::with_defaults(2))
        .thread_pool(ThreadPoolBuilder::with_defaults(6).queue_capacity(3));
    let pool_builder = builder.into_pool_builder();
    assert_eq!(pool_builder.configured_worker_count(), 6);
    assert_eq!(pool_builder.configured_queue_capacity(), Some(3));
}

#[test]
fn test_rejected_execution_converts_into_service_error() {
    let error: TaskExecutionServiceError = RejectedExecution::Saturated.into();
    assert!(matches!(
        error,
        TaskExecutionServiceError::Rejected(RejectedExecution::Saturated)
    ));
}

#[test]
fn test_task_status_after_run() {
    let returned: Result<u32, String> = Ok(3);
    assert_eq!(TaskStatus::after_run(Some(&returned)), TaskStatus::Succeeded);
    let failed: Result<u32, String> = Err("boom".to_owned());
    assert_eq!(TaskStatus::after_run(Some(&failed)), TaskStatus::Failed);
    assert_eq!(TaskStatus::after_run::<u32, String>(None), TaskStatus::Panicked);
}

#[test]
fn test_registry_settle_removes_refused_task_only() {
    let mut registry = TaskRegistry::new();
    assert!(registry.register(1, hook()).is_ok());
    assert!(registry.register(2, hook()).is_ok());
    registry.settle(1, &Ok(()));
    assert_eq!(registry.status(1), Some(TaskStatus::Submitted));
    registry.settle(2, &Err(RejectedExecution::Saturated));
    assert_eq!(registry.status(2), None);
    assert!(registry.register(2, hook()).is_ok());
    let stats = registry.stats();
    assert_eq!(stats.total, 2);
}

#[test]
fn test_service_settle_submission() {
    let pool = ThreadPool::with_queue_capacity(None);
    let service = TaskExecutionService::with_pool(pool);
    let tracker = service.tracker();
    assert!(tracker.register(7, hook()).is_ok());
    assert!(matches!(
        service.settle_submission(7, Err(RejectedExecution::Shutdown)),
        Err(TaskExecutionServiceError::Rejected(RejectedExecution::Shutdown))
    ));
    assert_eq!(service.status(7), None);
    assert!(tracker.register(8, hook()).is_ok());
    assert!(service.settle_submission(8, Ok(())).is_ok());
    assert_eq!(service.status(8), Some(TaskStatus::Submitted));
}

#[test]
fn test_registry_status_order() {
    let mut registry = TaskRegistry::new();
    assert!(registry.register(1, hook()).is_ok());
    assert!(registry.register(2, hook()).is_ok());
    // A started task cannot be cancelled; a cancelled one cannot start.
    assert!(registry.try_start(1));
    assert!(registry.try_cancel(1).is_none());
    assert!(registry.try_cancel(2).is_some());
    assert!(!registry.try_start(2));
    assert_eq!(registry.status(2), Some(TaskStatus::Cancelled));
    // Only a running task ends, and only in a run's outcome.
    registry.finish(2, TaskStatus::Succeeded);
    assert_eq!(registry.status(2), Some(TaskStatus::Cancelled));
    registry.finish(1, TaskStatus::Cancelled);
    assert_eq!(registry.status(1), Some(TaskStatus::Running));
    registry.finish(1, TaskStatus::Failed);
    assert_eq!(registry.status(1), Some(TaskStatus::Failed));
    registry.finish(1, TaskStatus::Succeeded);
    assert_eq!(registry.status(1), Some(TaskStatus::Failed));
    assert!(!registry.try_start(1));
    assert!(!registry.try_start(9));
    assert!(registry.try_cancel(9).is_none());
}
