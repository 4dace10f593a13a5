//! Tests for the thread pool: its state machine, its builder, and the shared
//! pool driven by a worker run on the test thread.

use qubit_concurrent::task::thread_pool::{
    finish_running_job, wait_for_job_step, ThreadPoolLifecycle, ThreadPoolState, WorkerStep,
    DEFAULT_THREAD_NAME_PREFIX,
};
use qubit_concurrent::task::{
    PoolCallback, PoolJob, RejectedExecution, ShutdownReport, ThreadPool, ThreadPoolBuildError,
    ThreadPoolBuilder, WorkerPoll,
};
use std::sync::atomic::{AtomicUsize, Ordering};
use std::sync::{Arc, Mutex};

/// A pool callback made of a closure.
struct Callback(Box<dyn FnOnce() + Send>);

impl PoolCallback for Callback {
    fn call_once(self: Box<Self>) {
        (self.0)()
    }
}

/// A job that appends `id` to `log` when run and `-id` when cancelled.
fn logged_job(log: &Arc<Mutex<Vec<i64>>>, id: i64) -> PoolJob {
    let run_log = Arc::clone(log);
    let cancel_log = Arc::clone(log);
    PoolJob::new(
        Box::new(Callback(Box::new(move || run_log.lock().unwrap().push(id)))),
        Box::new(Callback(Box::new(move || cancel_log.lock().unwrap().push(-id)))),
    )
}

fn new_log() -> Arc<Mutex<Vec<i64>>> {
    Arc::new(Mutex::new(Vec::new()))
}

fn entries(log: &Arc<Mutex<Vec<i64>>>) -> Vec<i64> {
    log.lock().unwrap().clone()
}

/// Runs the worker role once on the test thread: takes one job and runs it.
fn run_one_job(pool: &ThreadPool) {
    let inner = pool.worker_context();
    match wait_for_job_step(&inner) {
        WorkerPoll::Job(job) => {
            job.run();
            finish_running_job(&inner);
        }
        _ => panic!("a job should have been queued"),
    }
}

#[test]
fn test_pool_job_runs_or_cancels_once() {
    let log = new_log();
    logged_job(&log, 1).run();
    logged_job(&log, 2).cancel();
    assert_eq!(entries(&log), vec![1, -2]);
}

#[test]
fn test_state_submit_and_take_in_fifo_order() {
    let log = new_log();
    let mut state = ThreadPoolState::new(None);
    assert_eq!(state.lifecycle(), ThreadPoolLifecycle::Running);
    state.register_worker();
    assert!(state.submit(logged_job(&log, 1)).is_ok());
    assert!(state.submit(logged_job(&log, 2)).is_ok());
    assert_eq!(state.queued_count(), 2);

    for expected in 1..=2 {
        match state.next_worker_step() {
            WorkerStep::Run(job) => job.run(),
            _ => panic!("worker should get a job"),
        }
        assert_eq!(state.running_tasks(), 1);
        state.finish_running_job();
        assert_eq!(entries(&log).last(), Some(&expected));
    }
    assert_eq!(entries(&log), vec![1, 2]);
    assert!(matches!(state.next_worker_step(), WorkerStep::Wait));
    assert_eq!(state.live_workers(), 1);
}

#[test]
fn test_state_bounded_queue_saturates() {
    let log = new_log();
    let mut state = ThreadPoolState::new(Some(1));
    assert!(!state.is_saturated());
    assert_eq!(state.submit(logged_job(&log, 1)), Ok(()));
    assert!(state.is_saturated());
    assert_eq!(state.submit(logged_job(&log, 2)), Err(RejectedExecution::Saturated));
    assert_eq!(state.queued_count(), 1);
}

#[test]
fn test_state_shutdown_rejects_and_drains() {
    let log = new_log();
    let mut state = ThreadPoolState::new(None);
    state.register_worker();
    assert!(state.submit(logged_job(&log, 7)).is_ok());
    state.shutdown();
    assert_eq!(state.lifecycle(), ThreadPoolLifecycle::Shutdown);
    assert_eq!(state.submit(logged_job(&log, 8)), Err(RejectedExecution::Shutdown));
    state.shutdown();
    assert_eq!(state.lifecycle(), ThreadPoolLifecycle::Shutdown);

    match state.next_worker_step() {
        WorkerStep::Run(job) => job.run(),
        _ => panic!("queued work must still run after a graceful shutdown"),
    }
    state.finish_running_job();
    assert!(!state.is_terminated());
    assert!(matches!(state.next_worker_step(), WorkerStep::Exit));
    assert_eq!(state.live_workers(), 0);
    assert!(state.is_terminated());
    assert_eq!(entries(&log), vec![7]);
}

#[test]
fn test_state_shutdown_now_reports_and_hands_back_queue() {
    let log = new_log();
    let mut state = ThreadPoolState::new(None);
    state.register_worker();
    state.register_worker();
    for id in 1..=3 {
        assert!(state.submit(logged_job(&log, id)).is_ok());
    }
    match state.next_worker_step() {
        WorkerStep::Run(job) => job.run(),
        _ => panic!("worker should get a job"),
    }
    let (jobs, report) = state.shutdown_now();
    assert_eq!(report, ShutdownReport::new(2, 1, 2));
    assert_eq!(report.queued, 2);
    assert_eq!(report.running, 1);
    assert_eq!(report.cancelled, 2);
    assert_eq!(state.lifecycle(), ThreadPoolLifecycle::Stopping);
    assert_eq!(state.queued_count(), 0);
    for job in jobs {
        job.cancel();
    }
    assert_eq!(entries(&log), vec![1, -2, -3]);
    assert!(matches!(state.next_worker_step(), WorkerStep::Exit));
    state.finish_running_job();
    assert!(!state.is_terminated());
    assert!(matches!(state.next_worker_step(), WorkerStep::Exit));
    assert!(state.is_terminated());
    let (again, second) = state.shutdown_now();
    assert!(again.is_empty());
    assert_eq!(second, ShutdownReport::new(0, 0, 0));
}

#[test]
fn test_state_unregister_worker() {
    let mut state = ThreadPoolState::new(None);
    state.register_worker();
    state.unregister_worker();
    assert_eq!(state.live_workers(), 0);
    assert!(!state.is_terminated());
    state.shutdown();
    assert!(state.is_terminated());
}

#[test]
fn test_lifecycle_predicates() {
    assert!(ThreadPoolLifecycle::Running.is_running());
    assert!(!ThreadPoolLifecycle::Shutdown.is_running());
    assert!(ThreadPoolLifecycle::Shutdown.is_shutdown());
    assert!(!ThreadPoolLifecycle::Stopping.is_shutdown());
    assert!(!ThreadPoolLifecycle::Stopping.is_running());
}

#[test]
fn test_thread_pool_builder_rejects_invalid_configuration() {
    assert!(matches!(
        ThreadPoolBuilder::with_defaults(4).worker_count(0).validate(),
        Err(ThreadPoolBuildError::ZeroWorkers),
    ));
    assert!(matches!(
        ThreadPoolBuilder::with_defaults(4).queue_capacity(0).validate(),
        Err(ThreadPoolBuildError::ZeroQueueCapacity),
    ));
    assert!(matches!(
        ThreadPoolBuilder::with_defaults(4).stack_size(0).validate(),
        Err(ThreadPoolBuildError::ZeroStackSize),
    ));
}

#[test]
fn test_builder_settings() {
    let builder = ThreadPoolBuilder::with_defaults(3);
    assert_eq!(builder.configured_worker_count(), 3);
    assert_eq!(builder.configured_queue_capacity(), None);
    assert_eq!(builder.configured_thread_name_prefix(), DEFAULT_THREAD_NAME_PREFIX);
    assert_eq!(builder.configured_thread_name_prefix(), "qubit-thread-pool");
    assert_eq!(builder.configured_stack_size(), None);
    assert!(builder.validate().is_ok());

    let builder = builder
        .worker_count(5)
        .queue_capacity(8)
        .thread_name_prefix("io")
        .stack_size(65536);
    assert_eq!(builder.configured_worker_count(), 5);
    assert_eq!(builder.configured_queue_capacity(), Some(8));
    assert_eq!(builder.configured_thread_name_prefix(), "io");
    assert_eq!(builder.configured_stack_size(), Some(65536));
    let builder = builder.unbounded_queue();
    assert_eq!(builder.configured_queue_capacity(), None);
    assert!(builder.validate().is_ok());
}

#[test]
fn test_thread_pool_shutdown_rejects_new_tasks() {
    let pool = ThreadPool::with_queue_capacity(None);
    pool.register_worker();

    pool.shutdown();
    let log = new_log();
    let result = pool.submit_job(logged_job(&log, 1));

    assert!(matches!(result, Err(RejectedExecution::Shutdown)));
    let inner = pool.worker_context();
    assert!(matches!(wait_for_job_step(&inner), WorkerPoll::Exit));
    assert!(pool.termination_wait_step());
    assert!(pool.is_shutdown());
    assert!(pool.is_terminated());
    assert!(entries(&log).is_empty());
}

#[test]
fn test_thread_pool_bounded_queue_rejects_when_saturated() {
    let pool = ThreadPool::with_queue_capacity(Some(1));
    pool.register_worker();
    let log = new_log();

    assert!(pool.submit_job(logged_job(&log, 1)).is_ok());
    let third = pool.submit_job(logged_job(&log, 3));
    assert!(matches!(third, Err(RejectedExecution::Saturated)));
    assert_eq!(pool.queued_count(), 1);

    run_one_job(&pool);
    assert!(pool.submit_job(logged_job(&log, 2)).is_ok());
    run_one_job(&pool);
    assert_eq!(entries(&log), vec![1, 2]);
    pool.shutdown();
}

#[test]
fn test_thread_pool_shutdown_drains_queued_tasks() {
    let pool = ThreadPool::with_queue_capacity(None);
    pool.register_worker();
    let log = new_log();
    assert!(pool.submit_job(logged_job(&log, 1)).is_ok());
    assert!(pool.submit_job(logged_job(&log, 42)).is_ok());

    pool.shutdown();
    let rejected = pool.submit_job(logged_job(&log, 3));
    assert!(matches!(rejected, Err(RejectedExecution::Shutdown)));
    run_one_job(&pool);
    run_one_job(&pool);
    assert_eq!(entries(&log), vec![1, 42]);
    assert!(!pool.is_terminated());
    let inner = pool.worker_context();
    assert!(matches!(wait_for_job_step(&inner), WorkerPoll::Exit));
    assert!(pool.is_terminated());
    assert_eq!(pool.worker_count(), 0);
}

#[test]
fn test_thread_pool_shutdown_now_cancels_queued_tasks() {
    let pool = ThreadPool::with_queue_capacity(None);
    pool.register_worker();
    let log = new_log();
    assert!(pool.submit_job(logged_job(&log, 1)).is_ok());
    assert!(pool.submit_job(logged_job(&log, 42)).is_ok());

    let inner = pool.worker_context();
    let running = match wait_for_job_step(&inner) {
        WorkerPoll::Job(job) => job,
        _ => panic!("the first job should be taken"),
    };
    assert_eq!(pool.running_count(), 1);

    let report = pool.shutdown_now();

    assert_eq!(report.queued, 1);
    assert_eq!(report.running, 1);
    assert_eq!(report.cancelled, 1);
    assert_eq!(entries(&log), vec![-42]);
    running.run();
    finish_running_job(&inner);
    assert!(matches!(wait_for_job_step(&inner), WorkerPoll::Exit));
    assert!(pool.termination_wait_step());
    assert!(pool.is_terminated());
    assert_eq!(entries(&log), vec![-42, 1]);
}

#[test]
fn test_spawn_failure_unregisters_worker() {
    let pool = ThreadPool::with_queue_capacity(None);
    pool.register_worker();
    assert_eq!(pool.worker_count(), 1);
    pool.unregister_worker_after_spawn_failure();
    assert_eq!(pool.worker_count(), 0);
    let report = pool.shutdown_now();
    assert_eq!(report, ShutdownReport::new(0, 0, 0));
    assert!(pool.is_terminated());
}

#[test]
fn test_jobs_count_their_runs() {
    let pool = ThreadPool::with_queue_capacity(None);
    pool.register_worker();
    let counter = Arc::new(AtomicUsize::new(0));
    for _ in 0..3 {
        let run_counter = Arc::clone(&counter);
        let job = PoolJob::new(
            Box::new(Callback(Box::new(move || {
                run_counter.fetch_add(1, Ordering::SeqCst);
            }))),
            Box::new(Callback(Box::new(|| {}))),
        );
        assert!(pool.submit_job(job).is_ok());
    }
    for _ in 0..3 {
        run_one_job(&pool);
    }
    assert_eq!(counter.load(Ordering::SeqCst), 3);
    assert_eq!(pool.running_count(), 0);
    assert_eq!(pool.queued_count(), 0);
}
