//! Tests for the steps of the double-checked runs that take the answers of
//! the condition, the preparation and the rollback, and for the log records
//! the executor and the builder send to a sink.

use prism3_function::ArcTester;
use qubit_concurrent::double_checked::builder::{read_step, write_step};
use qubit_concurrent::double_checked::executor::{locked_step, locked_step_mut};
use qubit_concurrent::double_checked::result::settle_rollback;
use qubit_concurrent::double_checked::{
    DoubleCheckedLockExecutor, ExecutionBuilder, ExecutionResult, ExecutorError, LogSink,
    SharedLogSink,
};
use qubit_concurrent::{ArcMutex, Lock};
use qubit_function::{BoxSupplierOnce, BoxTester};
use std::sync::atomic::{AtomicUsize, Ordering};
use std::sync::{Arc, Mutex};

/// A sink that keeps every record as "LEVEL message".
struct Recorder(Arc<Mutex<Vec<String>>>);

impl LogSink for Recorder {
    fn record(&self, level: log::Level, message: &str) {
        self.0.lock().unwrap().push(format!("{level} {message}"));
    }

    fn record_error(&self, message: &str) {
        self.0.lock().unwrap().push(format!("ERROR {message}"));
    }

    fn record_warning(&self, message: &str) {
        self.0.lock().unwrap().push(format!("WARN {message}"));
    }
}

fn recorder() -> (Arc<SharedLogSink>, Arc<Mutex<Vec<String>>>) {
    let records = Arc::new(Mutex::new(Vec::new()));
    let sink = Arc::new(SharedLogSink::new(Box::new(Recorder(Arc::clone(&records)))));
    (sink, records)
}

#[test]
fn test_locked_steps_follow_the_second_check() {
    let mut data = 5;
    let unmet = locked_step_mut(false, &mut data, |value: &mut i32| {
        *value = 0;
        Ok::<i32, String>(1)
    });
    assert!(matches!(unmet, Err(ExecutorError::ConditionNotMet)));
    assert_eq!(data, 5);
    let ran = locked_step_mut(true, &mut data, |value: &mut i32| {
        *value += 1;
        Ok::<i32, String>(*value)
    });
    assert!(matches!(ran, Ok(6)));
    assert_eq!(data, 6);
    let failed = locked_step(true, &data, |_: &i32| Err::<i32, String>("bad".to_string()));
    assert!(matches!(failed, Err(ExecutorError::TaskFailed(ref e)) if e == "bad"));
    let skipped = locked_step(false, &data, |value: &i32| Ok::<i32, String>(*value));
    assert!(matches!(skipped, Err(ExecutorError::ConditionNotMet)));
}

#[test]
fn test_builder_steps_set_the_rollback_flag() {
    let mut data = 1;
    let (unmet, flag) = read_step(false, true, true, &data, |value: &i32| Ok::<i32, String>(*value));
    assert!(matches!(unmet, ExecutionResult::ConditionNotMet));
    assert!(flag);
    let (_, flag) = read_step(false, false, true, &data, |value: &i32| Ok::<i32, String>(*value));
    assert!(!flag);
    let (_, flag) = read_step(false, true, false, &data, |value: &i32| Ok::<i32, String>(*value));
    assert!(!flag);
    let (ran, flag) = write_step(true, true, true, &mut data, |value: &mut i32| {
        *value += 1;
        Ok::<i32, String>(*value)
    });
    assert!(matches!(ran, ExecutionResult::Success(2)));
    assert!(!flag);
    assert_eq!(data, 2);
}

#[test]
fn test_settle_rollback_answers() {
    let failed = || -> ExecutionResult<(), String> {
        ExecutionResult::Failed(ExecutorError::TaskFailed("write".to_string()))
    };
    assert!(matches!(
        settle_rollback(failed(), None),
        ExecutionResult::Failed(ExecutorError::TaskFailed(_))
    ));
    assert!(matches!(
        settle_rollback(failed(), Some(Ok(()))),
        ExecutionResult::Failed(ExecutorError::TaskFailed(_))
    ));
    match settle_rollback(failed(), Some(Err("undo".to_string()))) {
        ExecutionResult::Failed(ExecutorError::RollbackFailed { original, rollback }) => {
            assert_eq!(original, "Task execution failed: write");
            assert_eq!(rollback, "undo");
        }
        _ => panic!("a failed rollback of a failure is reported"),
    }
    let unmet: ExecutionResult<(), String> = ExecutionResult::ConditionNotMet;
    assert!(matches!(
        settle_rollback(unmet, Some(Err("undo".to_string()))),
        ExecutionResult::ConditionNotMet
    ));
}

#[test]
fn test_checked_calls_skip_everything_after_a_failed_first_check() {
    let executor = DoubleCheckedLockExecutor::builder()
        .tester(ArcTester::new(|| true))
        .build()
        .expect("a tester was set");
    let data = ArcMutex::new(3);
    let calls = Arc::new(AtomicUsize::new(0));
    let (outside, rollback) = (Arc::clone(&calls), Arc::clone(&calls));
    let result = executor.call_with_rollback_checked(
        false,
        &data,
        |value: &i32| Ok::<i32, String>(*value),
        move || {
            outside.fetch_add(1, Ordering::SeqCst);
            Ok(())
        },
        move || {
            rollback.fetch_add(1, Ordering::SeqCst);
            Ok(())
        },
    );
    assert!(matches!(result, Err(ExecutorError::ConditionNotMet)));
    assert_eq!(calls.load(Ordering::SeqCst), 0);
    let unmet = executor.call_mut_checked(false, &data, |value: &mut i32| {
        *value = 0;
        Ok::<(), String>(())
    });
    assert!(matches!(unmet, Err(ExecutorError::ConditionNotMet)));
    assert_eq!(data.with_lock(|value| *value), 3);
}

#[test]
fn test_after_outside_action_answers() {
    let executor = DoubleCheckedLockExecutor::builder()
        .tester(ArcTester::new(|| true))
        .build()
        .expect("a tester was set");
    let data = ArcMutex::new(3);
    let rolled_back = Arc::new(AtomicUsize::new(0));
    let counter = Arc::clone(&rolled_back);
    let refused = executor.after_outside_action(
        Err("offline".to_string()),
        &data,
        |value: &i32| Ok::<i32, String>(*value),
        move || {
            counter.fetch_add(1, Ordering::SeqCst);
            Ok(())
        },
    );
    assert!(matches!(refused, Err(ExecutorError::TaskFailed(ref e)) if e == "offline"));
    assert_eq!(rolled_back.load(Ordering::SeqCst), 0);
    let counter = Arc::clone(&rolled_back);
    let failed = executor.after_outside_action(
        Ok(()),
        &data,
        |_: &i32| Err::<i32, String>("bad".to_string()),
        move || {
            counter.fetch_add(1, Ordering::SeqCst);
            Ok(())
        },
    );
    assert!(matches!(failed, Err(ExecutorError::TaskFailed(ref e)) if e == "bad"));
    assert_eq!(rolled_back.load(Ordering::SeqCst), 1);
}

#[test]
fn test_executor_logs_unmet_condition_and_failures() {
    let (sink, records) = recorder();
    let executor = DoubleCheckedLockExecutor::builder()
        .tester(ArcTester::new(|| false))
        .logger(log::Level::Warn, "service stopped")
        .log_sink(Arc::clone(&sink))
        .build()
        .expect("a tester was set");
    let data = ArcMutex::new(0);
    let unmet = executor.call(&data, |value: &i32| Ok::<i32, String>(*value));
    assert!(matches!(unmet, Err(ExecutorError::ConditionNotMet)));
    let passing = DoubleCheckedLockExecutor::builder()
        .tester(ArcTester::new(|| true))
        .log_sink(sink)
        .build()
        .expect("a tester was set");
    let _ = passing.call_with_rollback(
        &data,
        |value: &i32| Ok::<i32, String>(*value),
        || Err("offline".to_string()),
        || Ok(()),
    );
    let _ = passing.call_with_rollback(
        &data,
        |_: &i32| Err::<i32, String>("bad".to_string()),
        || Ok(()),
        || Err("stuck".to_string()),
    );
    assert_eq!(
        *records.lock().unwrap(),
        vec![
            "WARN service stopped".to_string(),
            "ERROR Outside action failed: offline".to_string(),
            "WARN Rollback failed during error recovery: stuck. Original error: Task execution failed: bad"
                .to_string(),
        ]
    );
}

#[test]
fn test_builder_logs_unmet_condition_prepare_and_rollback_failures() {
    let (sink, records) = recorder();
    let data = Mutex::new(0);
    let unmet = ExecutionBuilder::new(&data)
        .logger(log::Level::Info, "not ready")
        .log_sink(Arc::clone(&sink))
        .when(BoxTester::new(|| false))
        .call(|value: &i32| Ok::<i32, String>(*value));
    assert!(matches!(unmet.get_result(), ExecutionResult::ConditionNotMet));
    let prepare = ExecutionBuilder::new(&data)
        .log_sink(Arc::clone(&sink))
        .when(BoxTester::new(|| true))
        .prepare(BoxSupplierOnce::new(|| Err("no space".to_string())))
        .call(|value: &i32| Ok::<i32, String>(*value));
    assert!(!prepare.is_success());
    let failed = ExecutionBuilder::new(&data)
        .log_sink(sink)
        .when(BoxTester::new(|| true))
        .call(|_: &i32| Err::<i32, String>("bad".to_string()))
        .rollback(BoxSupplierOnce::new(|| Err("undo".to_string())));
    assert!(matches!(
        failed.get_result(),
        ExecutionResult::Failed(ExecutorError::RollbackFailed { .. })
    ));
    assert_eq!(
        *records.lock().unwrap(),
        vec![
            "INFO not ready".to_string(),
            "ERROR Prepare action failed: no space".to_string(),
            "ERROR Rollback action failed: undo".to_string(),
        ]
    );
}
