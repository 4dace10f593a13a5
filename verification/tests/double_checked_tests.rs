//! Tests for the double-checked lock executor, the execution builder, the
//! execution context and the result and error types.

use prism3_function::ArcTester;
use qubit_concurrent::double_checked::{
    BuilderError, DoubleCheckedLockExecutor, ExecutionBuilder, ExecutionContext, ExecutionResult,
    ExecutorError,
};
use qubit_concurrent::{ArcMutex, Lock};
use qubit_function::{BoxSupplierOnce, BoxTester};
use std::sync::atomic::{AtomicBool, AtomicUsize, Ordering};
use std::sync::{Arc, Mutex};

fn flag(value: bool) -> Arc<AtomicBool> {
    Arc::new(AtomicBool::new(value))
}

fn executor_for(running: &Arc<AtomicBool>) -> DoubleCheckedLockExecutor {
    let running = Arc::clone(running);
    DoubleCheckedLockExecutor::builder()
        .tester_fn(move || running.load(Ordering::Acquire))
        .logger(log::Level::Error, "Service is not running")
        .build()
        .expect("a tester was set")
}

#[test]
fn test_builder_requires_tester() {
    let result = DoubleCheckedLockExecutor::builder()
        .logger(log::Level::Warn, "unused")
        .build();
    assert!(matches!(result, Err(BuilderError::MissingTester)));
    let built = DoubleCheckedLockExecutor::builder().tester(ArcTester::new(|| true)).build();
    assert!(built.is_ok());
}

#[test]
fn test_call_mut_runs_only_when_condition_holds() {
    let running = flag(false);
    let executor = executor_for(&running);
    let data = ArcMutex::new(42);

    let result = executor.call_mut(&data, |value: &mut i32| {
        *value += 1;
        Ok::<_, String>(*value)
    });
    assert!(matches!(result, Err(ExecutorError::ConditionNotMet)));
    assert_eq!(data.with_lock(|value| *value), 42);

    running.store(true, Ordering::Release);
    let result = executor.call_mut(&data, |value: &mut i32| {
        *value += 1;
        Ok::<_, String>(*value)
    });
    assert!(matches!(result, Ok(43)));
    assert_eq!(data.with_lock(|value| *value), 43);
}

#[test]
fn test_call_and_execute_report_task_errors() {
    let running = flag(true);
    let executor = executor_for(&running);
    let data = Mutex::new(vec![1, 2, 3]);

    let sum = executor.call(&data, |values: &Vec<i32>| Ok::<i32, String>(values.iter().sum()));
    assert!(matches!(sum, Ok(6)));
    let failed = executor.call(&data, |_: &Vec<i32>| Err::<i32, String>("boom".to_string()));
    assert!(matches!(failed, Err(ExecutorError::TaskFailed(ref e)) if e == "boom"));
    let executed = executor.execute(&data, |values: &mut Vec<i32>| {
        values.push(4);
        Ok::<(), String>(())
    });
    assert!(executed.is_ok());
    assert_eq!(data.with_lock(|values| values.len()), 4);
}

#[test]
fn test_call_with_rollback_runs_rollback_on_failure_only() {
    let running = flag(true);
    let executor = executor_for(&running);
    let data = Mutex::new(10);
    let rollbacks = Arc::new(AtomicUsize::new(0));

    let count = Arc::clone(&rollbacks);
    let ok = executor.call_with_rollback(
        &data,
        |value: &i32| Ok::<i32, String>(*value * 2),
        || Ok(()),
        move || {
            count.fetch_add(1, Ordering::SeqCst);
            Ok(())
        },
    );
    assert!(matches!(ok, Ok(20)));
    assert_eq!(rollbacks.load(Ordering::SeqCst), 0);

    let count = Arc::clone(&rollbacks);
    let failed = executor.call_with_rollback_mut(
        &data,
        |_: &mut i32| Err::<i32, String>("task".to_string()),
        || Ok(()),
        move || {
            count.fetch_add(1, Ordering::SeqCst);
            Err("rollback".to_string())
        },
    );
    assert!(matches!(failed, Err(ExecutorError::TaskFailed(ref e)) if e == "task"));
    assert_eq!(rollbacks.load(Ordering::SeqCst), 1);

    let count = Arc::clone(&rollbacks);
    let outside = executor.call_with_rollback_mut(
        &data,
        |value: &mut i32| Ok::<i32, String>(*value),
        || Err("outside".to_string()),
        move || {
            count.fetch_add(1, Ordering::SeqCst);
            Ok(())
        },
    );
    assert!(matches!(outside, Err(ExecutorError::TaskFailed(ref e)) if e == "outside"));
    assert_eq!(rollbacks.load(Ordering::SeqCst), 1);

    running.store(false, Ordering::Release);
    let count = Arc::clone(&rollbacks);
    let unmet = executor.call_with_rollback(
        &data,
        |value: &i32| Ok::<i32, String>(*value),
        || Ok(()),
        move || {
            count.fetch_add(1, Ordering::SeqCst);
            Ok(())
        },
    );
    assert!(matches!(unmet, Err(ExecutorError::ConditionNotMet)));
    assert_eq!(rollbacks.load(Ordering::SeqCst), 1);
}

#[test]
fn test_execution_result_predicates_and_conversion() {
    let success: ExecutionResult<i32, String> = ExecutionResult::Success(42);
    assert!(success.is_success() && !success.is_unmet() && !success.is_failed());
    assert!(matches!(success.into_result(), Ok(Some(42))));
    let unmet: ExecutionResult<i32, String> = ExecutionResult::ConditionNotMet;
    assert!(unmet.is_unmet() && !unmet.is_success() && !unmet.is_failed());
    assert!(matches!(unmet.into_result(), Ok(None)));
    let failed: ExecutionResult<i32, String> =
        ExecutionResult::Failed(ExecutorError::TaskFailed("Task failed".to_string()));
    assert!(failed.is_failed() && !failed.is_success() && !failed.is_unmet());
    assert!(matches!(failed.into_result(), Err(ExecutorError::TaskFailed(_))));
    assert_eq!(ExecutionResult::<i32, String>::Success(7).unwrap(), 7);
}

#[test]
fn test_executor_error_messages() {
    let cases: Vec<(ExecutorError<String>, &str)> = vec![
        (ExecutorError::ConditionNotMet, "Double-checked lock condition not met"),
        (
            ExecutorError::ConditionNotMetWithMessage("Service is not running".to_string()),
            "Double-checked lock condition not met: Service is not running",
        ),
        (ExecutorError::TaskFailed("boom".to_string()), "Task execution failed: boom"),
        (
            ExecutorError::RollbackFailed {
                original: "a".to_string(),
                rollback: "b".to_string(),
            },
            "Rollback failed: original error = a, rollback error = b",
        ),
        (ExecutorError::LockPoisoned("mutex".to_string()), "Lock poisoned: mutex"),
        (ExecutorError::PrepareFailed("disk".to_string()), "Prepare action failed: disk"),
    ];
    for (error, text) in cases {
        assert_eq!(error.message(), text);
    }
}

#[test]
fn test_execution_builder_runs_double_checked_task() {
    let data = ArcMutex::new(1);
    let context = ExecutionBuilder::new(&data)
        .logger(log::Level::Info, "not running")
        .when(BoxTester::new(|| true))
        .call_mut(|value: &mut i32| {
            *value += 1;
            Ok::<i32, String>(*value)
        });
    assert!(context.is_success());
    assert!(matches!(context.get_result(), ExecutionResult::Success(2)));

    let read = ExecutionBuilder::new(&data)
        .when(BoxTester::new(|| true))
        .call(|value: &i32| Ok::<i32, String>(*value * 10));
    assert!(matches!(read.peek_result(), ExecutionResult::Success(20)));

    let unmet = ExecutionBuilder::new(&data)
        .when(BoxTester::new(|| false))
        .execute_mut(|value: &mut i32| {
            *value = 0;
            Ok::<(), String>(())
        });
    assert!(!unmet.finish());
    assert_eq!(data.with_lock(|value| *value), 2);
}

#[test]
fn test_execution_builder_prepare_failure() {
    let data = Mutex::new(0);
    let context = ExecutionBuilder::new(&data)
        .when(BoxTester::new(|| true))
        .prepare(BoxSupplierOnce::new(|| Err("no space".to_string())))
        .execute(|_: &i32| Ok::<(), String>(()));
    match context.get_result() {
        ExecutionResult::Failed(ExecutorError::PrepareFailed(message)) => {
            assert_eq!(message, "no space")
        }
        _ => panic!("the prepare failure should be reported"),
    }
}

#[test]
fn test_execution_builder_rollback_after_unmet_second_check() {
    let data = Mutex::new(0);
    let checks = Arc::new(AtomicUsize::new(0));
    let counter = Arc::clone(&checks);
    let rolled_back = Arc::new(AtomicBool::new(false));
    let marker = Arc::clone(&rolled_back);
    let context = ExecutionBuilder::new(&data)
        .when(BoxTester::new(move || counter.fetch_add(1, Ordering::SeqCst) == 0))
        .prepare(BoxSupplierOnce::new(|| Ok(())))
        .call(|value: &i32| Ok::<i32, String>(*value))
        .rollback(BoxSupplierOnce::new(move || {
            marker.store(true, Ordering::SeqCst);
            Ok(())
        }));
    assert!(matches!(context.peek_result(), ExecutionResult::ConditionNotMet));
    assert!(matches!(context.get_result(), ExecutionResult::ConditionNotMet));
    assert!(rolled_back.load(Ordering::SeqCst));
    assert_eq!(checks.load(Ordering::SeqCst), 2);
}

#[test]
fn test_execution_context_rollback_failure_wraps_error() {
    let failed: ExecutionResult<(), String> =
        ExecutionResult::Failed(ExecutorError::TaskFailed("write".to_string()));
    let context = ExecutionContext::new(failed)
        .rollback(BoxSupplierOnce::new(|| Err("undo".to_string())));
    match context.get_result() {
        ExecutionResult::Failed(ExecutorError::RollbackFailed { original, rollback }) => {
            assert_eq!(original, "Task execution failed: write");
            assert_eq!(rollback, "undo");
        }
        _ => panic!("the rollback failure should be reported"),
    }

    let ran = Arc::new(AtomicBool::new(false));
    let marker = Arc::clone(&ran);
    let success: ExecutionResult<i32, String> = ExecutionResult::Success(5);
    let context = ExecutionContext::new(success).rollback(BoxSupplierOnce::new(move || {
        marker.store(true, Ordering::SeqCst);
        Ok(())
    }));
    assert!(matches!(context.get_result(), ExecutionResult::Success(5)));
    assert!(!ran.load(Ordering::SeqCst));
}
