//! Tests for the elastic pool: its configuration, its state machine and the
//! shared pool, with spawners that record what they were asked to start.

use qubit_concurrent::task::elastic_pool::{
    ElasticPoolConfig, ElasticPoolInner, ElasticPoolState, ElasticWorkerStep, KeepAlive,
};
use qubit_concurrent::task::thread_pool::ThreadPoolLifecycle;
use qubit_concurrent::task::{
    PoolCallback, PoolJob, RejectedExecution, ShutdownReport, ThreadPoolBuildError, WorkerPoll,
};
use std::sync::{Arc, Mutex};

/// A pool callback made of a closure.
struct Callback(Box<dyn FnOnce() + Send>);

impl PoolCallback for Callback {
    fn call_once(self: Box<Self>) {
        (self.0)()
    }
}

/// A job that appends `id` to `log` when run and `-id` when cancelled.
fn logged_job(log: &Arc<Mutex<Vec<i64>>>, id: i64) -> PoolJob {
    let run_log = Arc::clone(log);
    let cancel_log = Arc::clone(log);
    PoolJob::new(
        Box::new(Callback(Box::new(move || run_log.lock().unwrap().push(id)))),
        Box::new(Callback(Box::new(move || cancel_log.lock().unwrap().push(-id)))),
    )
}

fn new_log() -> Arc<Mutex<Vec<i64>>> {
    Arc::new(Mutex::new(Vec::new()))
}

fn entries(log: &Arc<Mutex<Vec<i64>>>) -> Vec<i64> {
    log.lock().unwrap().clone()
}

fn config(core: usize, maximum: usize, capacity: Option<usize>) -> ElasticPoolConfig {
    ElasticPoolConfig {
        core_pool_size: core,
        maximum_pool_size: maximum,
        queue_capacity: capacity,
        keep_alive: KeepAlive::new(60, 0),
        allow_core_thread_timeout: false,
        thread_name_prefix: "elastic".to_owned(),
        stack_size: None,
    }
}

/// Worker starts asked of a spawner: the index and whether a first task came
/// with it. First tasks are kept so that a test can run them.
type Starts = Arc<Mutex<Vec<(usize, bool)>>>;

fn recording_spawner(
    starts: &Starts,
    first_tasks: &Arc<Mutex<Vec<PoolJob>>>,
    succeed: bool,
) -> impl Fn(usize, Option<PoolJob>) -> Result<(), std::io::Error> {
    let starts = Arc::clone(starts);
    let first_tasks = Arc::clone(first_tasks);
    move |index, task| {
        starts.lock().unwrap().push((index, task.is_some()));
        if !succeed {
            return Err(std::io::Error::new(std::io::ErrorKind::Other, "no thread"));
        }
        if let Some(job) = task {
            first_tasks.lock().unwrap().push(job);
        }
        Ok(())
    }
}

fn new_starts() -> (Starts, Arc<Mutex<Vec<PoolJob>>>) {
    (Arc::new(Mutex::new(Vec::new())), Arc::new(Mutex::new(Vec::new())))
}

#[test]
fn test_elastic_config_validation() {
    assert!(config(1, 2, None).validate().is_ok());
    assert!(matches!(
        config(1, 0, None).validate(),
        Err(ThreadPoolBuildError::ZeroMaximumPoolSize)
    ));
    assert!(matches!(
        config(3, 2, None).validate(),
        Err(ThreadPoolBuildError::CorePoolSizeExceedsMaximum { core_pool_size: 3, maximum_pool_size: 2 })
    ));
    assert!(matches!(
        config(1, 2, Some(0)).validate(),
        Err(ThreadPoolBuildError::ZeroQueueCapacity)
    ));
    let mut zero_keep_alive = config(1, 2, None);
    zero_keep_alive.keep_alive = KeepAlive::new(0, 0);
    assert!(matches!(zero_keep_alive.validate(), Err(ThreadPoolBuildError::ZeroKeepAlive)));
    let mut zero_stack = config(1, 2, None);
    zero_stack.stack_size = Some(0);
    assert!(matches!(zero_stack.validate(), Err(ThreadPoolBuildError::ZeroStackSize)));
}

#[test]
fn test_keep_alive_parts() {
    let keep_alive = KeepAlive::new(2, 500);
    assert_eq!(keep_alive.as_secs(), 2);
    assert_eq!(keep_alive.subsec_nanos(), 500);
    assert!(!keep_alive.is_zero());
    assert!(!KeepAlive::new(0, 1).is_zero());
    assert!(KeepAlive::new(0, 0).is_zero());
}

#[test]
fn test_elastic_submission_routes() {
    let log = new_log();
    let (starts, first_tasks) = new_starts();
    let spawn = recording_spawner(&starts, &first_tasks, true);
    let mut state = ElasticPoolState::new(&config(1, 2, Some(1)));

    // Below the core size: a worker starts with the job.
    assert_eq!(state.submit(logged_job(&log, 1), &spawn).0, Ok(()));
    // Core size reached, queue has room: the job is queued.
    assert_eq!(state.submit(logged_job(&log, 2), &spawn).0, Ok(()));
    // Queue full, below the maximum: a second worker starts with the job.
    assert_eq!(state.submit(logged_job(&log, 3), &spawn).0, Ok(()));
    // Queue full and maximum reached: refused.
    let (refused, withdrawn) = state.submit(logged_job(&log, 4), &spawn);
    assert_eq!(refused, Err(RejectedExecution::Saturated));
    assert!(withdrawn.is_none());

    assert_eq!(*starts.lock().unwrap(), vec![(0, true), (1, true)]);
    let stats = state.stats();
    assert_eq!(stats.live_workers, 2);
    assert_eq!(stats.running_tasks, 2);
    assert_eq!(stats.queued_tasks, 1);
    assert_eq!(stats.submitted_tasks, 3);
    for job in first_tasks.lock().unwrap().drain(..) {
        job.run();
    }
    assert_eq!(entries(&log), vec![1, 3]);
}

#[test]
fn test_elastic_spawn_failure_with_first_task_is_undone() {
    let log = new_log();
    let (starts, first_tasks) = new_starts();
    let failing = recording_spawner(&starts, &first_tasks, false);
    let mut state = ElasticPoolState::new(&config(1, 1, None));
    let (answer, withdrawn) = state.submit(logged_job(&log, 1), &failing);
    assert_eq!(answer, Err(RejectedExecution::WorkerSpawnFailed));
    assert!(withdrawn.is_none());
    let stats = state.stats();
    assert_eq!(stats.live_workers, 0);
    assert_eq!(stats.running_tasks, 0);
    assert_eq!(stats.submitted_tasks, 0);
    // The worker index was used up: the next start gets index 1.
    let spawn = recording_spawner(&starts, &first_tasks, true);
    assert_eq!(state.submit(logged_job(&log, 2), &spawn).0, Ok(()));
    assert_eq!(*starts.lock().unwrap(), vec![(0, true), (1, true)]);
}

#[test]
fn test_elastic_queued_job_without_worker_is_handed_back() {
    let log = new_log();
    let (starts, first_tasks) = new_starts();
    let failing = recording_spawner(&starts, &first_tasks, false);
    let mut state = ElasticPoolState::new(&config(0, 1, None));
    let (answer, withdrawn) = state.submit(logged_job(&log, 7), &failing);
    assert_eq!(answer, Err(RejectedExecution::WorkerSpawnFailed));
    assert_eq!(*starts.lock().unwrap(), vec![(0, false)]);
    withdrawn.expect("the queued job comes back").cancel();
    assert_eq!(entries(&log), vec![-7]);
    let stats = state.stats();
    assert_eq!(stats.queued_tasks, 0);
    assert_eq!(stats.submitted_tasks, 0);
    assert_eq!(stats.live_workers, 0);
}

#[test]
fn test_elastic_zero_core_queues_and_starts_one_worker() {
    let log = new_log();
    let (starts, first_tasks) = new_starts();
    let spawn = recording_spawner(&starts, &first_tasks, true);
    let mut state = ElasticPoolState::new(&config(0, 1, None));
    assert_eq!(state.submit(logged_job(&log, 1), &spawn).0, Ok(()));
    assert_eq!(state.submit(logged_job(&log, 2), &spawn).0, Ok(()));
    // Only the first submission found no live worker.
    assert_eq!(*starts.lock().unwrap(), vec![(0, false)]);
    assert_eq!(state.stats().queued_tasks, 2);
}

#[test]
fn test_elastic_shutdown_refuses_and_shutdown_now_cancels() {
    let log = new_log();
    let (starts, first_tasks) = new_starts();
    let spawn = recording_spawner(&starts, &first_tasks, true);
    let mut state = ElasticPoolState::new(&config(1, 1, None));
    assert_eq!(state.submit(logged_job(&log, 1), &spawn).0, Ok(()));
    assert_eq!(state.submit(logged_job(&log, 2), &spawn).0, Ok(()));
    assert_eq!(state.submit(logged_job(&log, 3), &spawn).0, Ok(()));
    state.shutdown();
    assert_eq!(state.lifecycle(), ThreadPoolLifecycle::Shutdown);
    assert_eq!(
        state.submit(logged_job(&log, 4), &spawn).0,
        Err(RejectedExecution::Shutdown)
    );
    let (jobs, report) = state.shutdown_now();
    assert_eq!(report, ShutdownReport::new(2, 1, 2));
    for job in jobs {
        job.cancel();
    }
    assert_eq!(entries(&log), vec![-2, -3]);
    let stats = state.stats();
    assert_eq!(stats.cancelled_tasks, 2);
    assert_eq!(stats.submitted_tasks, 3);
    assert!(stats.shutdown);
    assert!(!stats.terminated);
    assert_eq!(state.lifecycle(), ThreadPoolLifecycle::Stopping);
}

#[test]
fn test_elastic_worker_steps() {
    let log = new_log();
    let (starts, first_tasks) = new_starts();
    let spawn = recording_spawner(&starts, &first_tasks, true);
    let mut state = ElasticPoolState::new(&config(1, 2, Some(1)));
    assert_eq!(state.submit(logged_job(&log, 1), &spawn).0, Ok(()));
    assert_eq!(state.submit(logged_job(&log, 2), &spawn).0, Ok(()));
    assert_eq!(state.submit(logged_job(&log, 3), &spawn).0, Ok(()));
    // Two workers, each with a first task, and one job queued.
    state.finish_running_job();
    match state.next_worker_step() {
        ElasticWorkerStep::Run(job) => job.run(),
        _ => panic!("the queued job should be handed out"),
    }
    assert_eq!(entries(&log), vec![2]);
    state.finish_running_job();
    state.finish_running_job();
    // Nothing queued, two workers above a core size of one: a timed wait.
    match state.next_worker_step() {
        ElasticWorkerStep::WaitAtMost(keep_alive) => assert_eq!(keep_alive.as_secs(), 60),
        _ => panic!("a worker beyond the core size waits with a timeout"),
    }
    // Its wait timed out with nothing queued: it retires.
    state.begin_idle_wait();
    assert!(state.end_idle_wait(true));
    assert_eq!(state.live_workers(), 1);
    // The last worker is a core worker: it waits without a timeout and
    // does not retire.
    assert!(matches!(state.next_worker_step(), ElasticWorkerStep::Wait));
    state.begin_idle_wait();
    assert!(!state.end_idle_wait(true));
    assert_eq!(state.live_workers(), 1);
    assert_eq!(state.stats().completed_tasks, 3);
}

#[test]
fn test_elastic_core_timeout_lets_core_workers_retire() {
    let log = new_log();
    let (starts, first_tasks) = new_starts();
    let spawn = recording_spawner(&starts, &first_tasks, true);
    let mut state = ElasticPoolState::new(&config(1, 1, None));
    assert_eq!(state.submit(logged_job(&log, 1), &spawn).0, Ok(()));
    state.finish_running_job();
    state.set_allow_core_thread_timeout(true);
    assert!(matches!(state.next_worker_step(), ElasticWorkerStep::WaitAtMost(_)));
    state.begin_idle_wait();
    // Woken up without a timeout: it stays.
    assert!(!state.end_idle_wait(false));
    state.begin_idle_wait();
    assert!(state.end_idle_wait(true));
    assert_eq!(state.live_workers(), 0);
}

#[test]
fn test_elastic_excess_worker_exits_after_maximum_lowered() {
    let log = new_log();
    let (starts, first_tasks) = new_starts();
    let spawn = recording_spawner(&starts, &first_tasks, true);
    let mut state = ElasticPoolState::new(&config(1, 2, Some(1)));
    assert_eq!(state.submit(logged_job(&log, 1), &spawn).0, Ok(()));
    assert_eq!(state.submit(logged_job(&log, 2), &spawn).0, Ok(()));
    assert_eq!(state.submit(logged_job(&log, 3), &spawn).0, Ok(()));
    assert!(state.set_maximum_pool_size(1).is_ok());
    state.finish_running_job();
    // The queued job is still handed out first.
    assert!(matches!(state.next_worker_step(), ElasticWorkerStep::Run(_)));
    state.finish_running_job();
    state.finish_running_job();
    // Nothing queued and two workers above the new maximum: one exits.
    assert!(matches!(state.next_worker_step(), ElasticWorkerStep::Exit));
    assert_eq!(state.live_workers(), 1);
}

#[test]
fn test_elastic_size_setters() {
    let mut state = ElasticPoolState::new(&config(2, 4, None));
    assert!(matches!(
        state.set_core_pool_size(5),
        Err(ThreadPoolBuildError::CorePoolSizeExceedsMaximum { core_pool_size: 5, maximum_pool_size: 4 })
    ));
    assert!(matches!(
        state.set_maximum_pool_size(0),
        Err(ThreadPoolBuildError::ZeroMaximumPoolSize)
    ));
    assert!(matches!(
        state.set_maximum_pool_size(1),
        Err(ThreadPoolBuildError::CorePoolSizeExceedsMaximum { core_pool_size: 2, maximum_pool_size: 1 })
    ));
    assert!(state.set_core_pool_size(4).is_ok());
    assert!(state.set_maximum_pool_size(6).is_ok());
    let stats = state.stats();
    assert_eq!((stats.core_pool_size, stats.maximum_pool_size), (4, 6));
    assert!(matches!(
        state.set_keep_alive(KeepAlive::new(0, 0)),
        Err(ThreadPoolBuildError::ZeroKeepAlive)
    ));
    assert!(state.set_keep_alive(KeepAlive::new(0, 10)).is_ok());
}

#[test]
fn test_elastic_prestart_core_threads() {
    let (starts, first_tasks) = new_starts();
    let spawn = recording_spawner(&starts, &first_tasks, true);
    let mut state = ElasticPoolState::new(&config(2, 3, None));
    assert_eq!(state.prestart_core_thread(&spawn), Ok(true));
    assert_eq!(state.prestart_core_thread(&spawn), Ok(true));
    assert_eq!(state.prestart_core_thread(&spawn), Ok(false));
    assert_eq!(*starts.lock().unwrap(), vec![(0, false), (1, false)]);
    let failing = recording_spawner(&starts, &first_tasks, false);
    assert!(state.set_core_pool_size(3).is_ok());
    assert_eq!(
        state.prestart_core_thread(&failing),
        Err(RejectedExecution::WorkerSpawnFailed)
    );
    assert_eq!(state.live_workers(), 2);
    state.shutdown();
    assert_eq!(state.prestart_core_thread(&spawn), Err(RejectedExecution::Shutdown));
}

#[test]
fn test_elastic_inner_runs_jobs_and_terminates() {
    let log = new_log();
    let (starts, first_tasks) = new_starts();
    let spawn = recording_spawner(&starts, &first_tasks, true);
    let inner = ElasticPoolInner::new(config(1, 1, None));
    assert_eq!(inner.thread_name_prefix(), "elastic");
    assert_eq!(inner.stack_size(), None);
    assert_eq!(inner.prestart_all_core_threads(&spawn), Ok(1));
    assert_eq!(inner.submit(logged_job(&log, 1), &spawn), Ok(()));
    assert_eq!(inner.submit(logged_job(&log, 2), &spawn), Ok(()));
    // The worker role, played on the test thread.
    for _ in 0..2 {
        match inner.wait_for_job_step() {
            WorkerPoll::Job(job) => {
                job.run();
                inner.finish_running_job();
            }
            _ => panic!("a job should have been queued"),
        }
    }
    assert_eq!(entries(&log), vec![1, 2]);
    assert_eq!(inner.stats().completed_tasks, 2);
    inner.shutdown();
    assert!(inner.is_shutdown());
    assert!(!inner.is_terminated());
    assert!(matches!(inner.wait_for_job_step(), WorkerPoll::Exit));
    assert!(inner.is_terminated());
    assert!(inner.termination_wait_step());
    assert_eq!(
        inner.submit(logged_job(&log, 3), &spawn),
        Err(RejectedExecution::Shutdown)
    );
}

#[test]
fn test_elastic_inner_cancels_job_it_cannot_serve() {
    let log = new_log();
    let (starts, first_tasks) = new_starts();
    let failing = recording_spawner(&starts, &first_tasks, false);
    let inner = ElasticPoolInner::new(config(0, 1, None));
    assert_eq!(
        inner.submit(logged_job(&log, 5), &failing),
        Err(RejectedExecution::WorkerSpawnFailed)
    );
    assert_eq!(entries(&log), vec![-5]);
    assert_eq!(inner.prestart_all_core_threads(&failing), Ok(0));
}

#[test]
fn test_elastic_inner_shutdown_now_and_setters() {
    let log = new_log();
    let (starts, first_tasks) = new_starts();
    let spawn = recording_spawner(&starts, &first_tasks, true);
    let inner = ElasticPoolInner::new(config(1, 2, None));
    assert_eq!(inner.submit(logged_job(&log, 1), &spawn), Ok(()));
    assert_eq!(inner.submit(logged_job(&log, 2), &spawn), Ok(()));
    assert!(matches!(
        inner.set_maximum_pool_size(0),
        Err(ThreadPoolBuildError::ZeroMaximumPoolSize)
    ));
    assert!(matches!(
        inner.set_core_pool_size(3),
        Err(ThreadPoolBuildError::CorePoolSizeExceedsMaximum { core_pool_size: 3, maximum_pool_size: 2 })
    ));
    assert!(matches!(
        inner.set_keep_alive(KeepAlive::new(0, 0)),
        Err(ThreadPoolBuildError::ZeroKeepAlive)
    ));
    assert!(inner.set_keep_alive(KeepAlive::new(1, 0)).is_ok());
    inner.allow_core_thread_timeout(true);
    let report = inner.shutdown_now();
    assert_eq!(report, ShutdownReport::new(1, 1, 1));
    assert_eq!(entries(&log), vec![-2]);
    assert_eq!(inner.stats().cancelled_tasks, 1);
    // The first task is still held; it runs and finishes.
    for job in first_tasks.lock().unwrap().drain(..) {
        job.run();
        inner.finish_running_job();
    }
    assert_eq!(entries(&log), vec![-2, 1]);
    assert!(matches!(inner.wait_for_job_step(), WorkerPoll::Exit));
    assert!(inner.is_terminated());
}
