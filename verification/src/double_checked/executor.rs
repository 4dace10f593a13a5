//! Double-checked lock executor.
//!
//! The condition is tested once without the lock, to fail fast, and once
//! more while the lock is held; the task runs only when both tests pass.
//! The condition reads shared state that other threads change, so its
//! answers are not modelled: the contracts say what each outcome implies of
//! the task.
use crate::double_checked::config::LogConfig;
use crate::double_checked::error::{BuilderError, ExecutorError};
use crate::double_checked::logging::{log_condition_not_met, log_error, log_warning, SharedLogSink};
use crate::lock::Lock;
use prism3_function::{ArcTester, Tester};
use std::sync::Arc;
use vstd::string::StringExecFns;
use vstd::prelude::*;

verus! {

/// `prism3_function::ArcTester`, the shared condition tester.
#[verifier::external_type_specification]
#[verifier::external_body]
pub struct ExArcTester(ArcTester);

/// Calls `Tester::test` on an `ArcTester`. The answer depends on shared
/// state outside the library, so nothing is stated of it.
#[verifier::external_body]
fn test_condition(tester: &ArcTester) -> bool {
    tester.test()
}

/// Calls `ArcTester::new` on `f`, a tester that answers what `f` answers.
/// That answer is never modelled, so nothing is stated.
#[verifier::external_body]
fn new_tester<F>(f: F) -> ArcTester where F: Fn() -> bool + Send + Sync + 'static {
    ArcTester::new(f)
}

/// What the executor may answer after running `task` on some state of the
/// data, or after not running it: the task's value, the task's error, or an
/// unmet condition.
pub open spec fn locked_outcome<T, R, E, F: FnOnce(&mut T) -> Result<R, E>>(
    task: F,
    r: Result<R, ExecutorError<E>>,
) -> bool {
    ||| r is Err && r->Err_0 is ConditionNotMet
    ||| r is Ok && exists|data: &mut T| task.ensures((data,), Ok::<R, E>(r->Ok_0))
    ||| r is Err && r->Err_0 is TaskFailed && exists|data: &mut T|
        task.ensures((data,), Err::<R, E>(r->Err_0->TaskFailed_0))
}

/// [`locked_outcome`] for a task that only reads the data.
pub open spec fn read_outcome<T, R, E, F: FnOnce(&T) -> Result<R, E>>(
    task: F,
    r: Result<R, ExecutorError<E>>,
) -> bool {
    ||| r is Err && r->Err_0 is ConditionNotMet
    ||| r is Ok && exists|data: &T| task.ensures((data,), Ok::<R, E>(r->Ok_0))
    ||| r is Err && r->Err_0 is TaskFailed && exists|data: &T|
        task.ensures((data,), Err::<R, E>(r->Err_0->TaskFailed_0))
}

/// `r` reports that the outside action failed with its own error.
pub open spec fn outside_failure<V, E, O: FnOnce() -> Result<(), E>>(
    outside_action: O,
    r: Result<V, ExecutorError<E>>,
) -> bool {
    r is Err && r->Err_0 is TaskFailed && outside_action.ensures(
        (),
        Err::<(), E>(r->Err_0->TaskFailed_0),
    )
}

/// What a rollback run after the outside action answered `prepared` may
/// give: its error as `TaskFailed`; otherwise an answer of the locked part,
/// with the rollback run whenever that answer is an error.
pub open spec fn after_outside<T, V, E, F: FnOnce(&T) -> Result<V, E>, Rb: FnOnce() -> Result<(), E>>(
    task: F,
    rollback_action: Rb,
    prepared: Result<(), E>,
    r: Result<V, ExecutorError<E>>,
) -> bool {
    match prepared {
        Err(error) => r == Err::<V, ExecutorError<E>>(ExecutorError::TaskFailed(error)),
        Ok(_) => read_outcome(task, r) && (r is Err ==> exists|rolled_back: Result<(), E>|
            rollback_action.ensures((), rolled_back)),
    }
}

/// [`after_outside`] for a task that modifies the data.
pub open spec fn after_outside_mut<T, V, E, F: FnOnce(&mut T) -> Result<V, E>, Rb: FnOnce() -> Result<(), E>>(
    task: F,
    rollback_action: Rb,
    prepared: Result<(), E>,
    r: Result<V, ExecutorError<E>>,
) -> bool {
    match prepared {
        Err(error) => r == Err::<V, ExecutorError<E>>(ExecutorError::TaskFailed(error)),
        Ok(_) => locked_outcome(task, r) && (r is Err ==> exists|rolled_back: Result<(), E>|
            rollback_action.ensures((), rolled_back)),
    }
}

/// The executor's answer for the task outcome `outcome`.
pub open spec fn task_answer<R, E>(outcome: Result<R, E>) -> Result<R, ExecutorError<E>> {
    match outcome {
        Ok(value) => Ok(value),
        Err(error) => Err(ExecutorError::TaskFailed(error)),
    }
}

proof fn lemma_task_outcome_mut<T, R, E, F: FnOnce(&mut T) -> Result<R, E>>(
    task: F,
    outcome: Result<R, E>,
    answer: Result<R, ExecutorError<E>>,
)
    requires
        exists|d: &mut T| task.ensures((d,), outcome),
        answer == task_answer(outcome),
    ensures
        locked_outcome(task, answer),
{
    let d = choose|d: &mut T| task.ensures((d,), outcome);
    match outcome {
        Ok(value) => {
            assert(task.ensures((d,), Ok::<R, E>(answer->Ok_0)));
        },
        Err(error) => {
            assert(answer->Err_0->TaskFailed_0 == error);
            assert(task.ensures((d,), Err::<R, E>(answer->Err_0->TaskFailed_0)));
        },
    }
}

proof fn lemma_task_outcome_read<T, R, E, F: FnOnce(&T) -> Result<R, E>>(
    task: F,
    outcome: Result<R, E>,
    answer: Result<R, ExecutorError<E>>,
)
    requires
        exists|d: &T| task.ensures((d,), outcome),
        answer == task_answer(outcome),
    ensures
        read_outcome(task, answer),
{
    let d = choose|d: &T| task.ensures((d,), outcome);
    match outcome {
        Ok(value) => {
            assert(task.ensures((d,), Ok::<R, E>(answer->Ok_0)));
        },
        Err(error) => {
            assert(answer->Err_0->TaskFailed_0 == error);
            assert(task.ensures((d,), Err::<R, E>(answer->Err_0->TaskFailed_0)));
        },
    }
}

/// Double-checked lock executor: runs tasks on locked data only while a
/// condition holds.
pub struct DoubleCheckedLockExecutor {
    tester: ArcTester,
    logger: Option<LogConfig>,
    sink: Option<Arc<SharedLogSink>>,
}

impl DoubleCheckedLockExecutor {
    /// Creates a builder for the executor.
    pub fn builder() -> (builder: DoubleCheckedLockExecutorBuilder)
        ensures
            builder.tester_spec() is None,
            builder.logger_spec() is None,
    {
        DoubleCheckedLockExecutorBuilder::default()
    }

    /// The condition tester.
    pub closed spec fn tester_spec(&self) -> ArcTester {
        self.tester
    }

    /// The log configuration for unmet conditions.
    pub closed spec fn logger_spec(&self) -> Option<LogConfig> {
        self.logger
    }

    /// Runs a task without a value on the locked data (see
    /// [`DoubleCheckedLockExecutor::call_mut`]).
    pub fn execute<L, T, F, E>(&self, lock: &L, task: F) -> (r: Result<(), ExecutorError<E>>) where
        L: Lock<T>,
        F: FnOnce(&mut T) -> Result<(), E>,

        requires
            forall|data: &mut T| task.requires((data,)),
        ensures
            locked_outcome(task, r),
    {
        self.call_mut(lock, task)
    }

    /// Tests the condition, takes the lock, tests again and runs `task` on
    /// the data; an unmet condition at either test answers
    /// `ConditionNotMet` and a task error answers `TaskFailed`. The tester's
    /// answers are not modelled: [`DoubleCheckedLockExecutor::call_mut_checked`]
    /// states what follows from each.
    pub fn call_mut<L, T, F, R, E>(&self, lock: &L, task: F) -> (r: Result<R, ExecutorError<E>>) where
        L: Lock<T>,
        F: FnOnce(&mut T) -> Result<R, E>,

        requires
            forall|data: &mut T| task.requires((data,)),
        ensures
            locked_outcome(task, r),
    {
        let first_check = test_condition(&self.tester);
        self.call_mut_checked(first_check, lock, task)
    }

    /// [`DoubleCheckedLockExecutor::call_mut`] once the first check
    /// answered `first_check`: `ConditionNotMet` without taking the lock when
    /// it failed (the unmet condition is logged); the locked part otherwise.
    pub fn call_mut_checked<L, T, F, R, E>(&self, first_check: bool, lock: &L, task: F) -> (r: Result<
        R,
        ExecutorError<E>,
    >) where L: Lock<T>, F: FnOnce(&mut T) -> Result<R, E>
        requires
            forall|data: &mut T| task.requires((data,)),
        ensures
            !first_check ==> r == Err::<R, ExecutorError<E>>(ExecutorError::ConditionNotMet),
            locked_outcome(task, r),
    {
        if !first_check {
            log_condition_not_met(&self.logger, &self.sink);
            return Err(ExecutorError::ConditionNotMet);
        }
        self.run_locked_mut(lock, task)
    }

    /// Like [`DoubleCheckedLockExecutor::call_mut`] for a task that only
    /// reads the data.
    pub fn call<L, T, F, R, E>(&self, lock: &L, task: F) -> (r: Result<R, ExecutorError<E>>) where
        L: Lock<T>,
        F: FnOnce(&T) -> Result<R, E>,

        requires
            forall|data: &T| task.requires((data,)),
        ensures
            read_outcome(task, r),
    {
        let first_check = test_condition(&self.tester);
        self.call_checked(first_check, lock, task)
    }

    /// [`DoubleCheckedLockExecutor::call`] once the first check answered
    /// `first_check`.
    pub fn call_checked<L, T, F, R, E>(&self, first_check: bool, lock: &L, task: F) -> (r: Result<
        R,
        ExecutorError<E>,
    >) where L: Lock<T>, F: FnOnce(&T) -> Result<R, E>
        requires
            forall|data: &T| task.requires((data,)),
        ensures
            !first_check ==> r == Err::<R, ExecutorError<E>>(ExecutorError::ConditionNotMet),
            read_outcome(task, r),
    {
        if !first_check {
            log_condition_not_met(&self.logger, &self.sink);
            return Err(ExecutorError::ConditionNotMet);
        }
        self.run_locked(lock, task)
    }

    /// Like [`DoubleCheckedLockExecutor::call`], with an action run between
    /// the first test and the lock, and a rollback run when the locked part
    /// does not succeed. An error of the outside action answers `TaskFailed`
    /// without taking the lock or rolling back; the rollback's own outcome
    /// does not change the answer.
    pub fn call_with_rollback<L, T, F, O, Rb, V, E>(
        &self,
        lock: &L,
        task: F,
        outside_action: O,
        rollback_action: Rb,
    ) -> (r: Result<V, ExecutorError<E>>) where
        L: Lock<T>,
        F: FnOnce(&T) -> Result<V, E>,
        O: FnOnce() -> Result<(), E>,
        Rb: FnOnce() -> Result<(), E>,
        E: std::fmt::Display,

        requires
            forall|data: &T| task.requires((data,)),
            outside_action.requires(()),
            rollback_action.requires(()),
        ensures
            read_outcome(task, r) || outside_failure(outside_action, r),
            r is Ok ==> exists|prepared: Result<(), E>|
                prepared is Ok && outside_action.ensures((), prepared),
            r is Err && r->Err_0 is TaskFailed ==> outside_failure(outside_action, r) || exists|
                rolled_back: Result<(), E>,
            | rollback_action.ensures((), rolled_back),
    {
        let first_check = test_condition(&self.tester);
        self.call_with_rollback_checked(first_check, lock, task, outside_action, rollback_action)
    }

    /// [`DoubleCheckedLockExecutor::call_with_rollback`] once the first
    /// check answered `first_check`: `ConditionNotMet` when it failed, with
    /// no other action run; otherwise the outside action runs and
    /// [`DoubleCheckedLockExecutor::after_outside_action`] goes on with its
    /// answer.
    pub fn call_with_rollback_checked<L, T, F, O, Rb, V, E>(
        &self,
        first_check: bool,
        lock: &L,
        task: F,
        outside_action: O,
        rollback_action: Rb,
    ) -> (r: Result<V, ExecutorError<E>>) where
        L: Lock<T>,
        F: FnOnce(&T) -> Result<V, E>,
        O: FnOnce() -> Result<(), E>,
        Rb: FnOnce() -> Result<(), E>,
        E: std::fmt::Display,

        requires
            forall|data: &T| task.requires((data,)),
            outside_action.requires(()),
            rollback_action.requires(()),
        ensures
            !first_check ==> r == Err::<V, ExecutorError<E>>(ExecutorError::ConditionNotMet),
            first_check ==> exists|prepared: Result<(), E>|
                outside_action.ensures((), prepared) && after_outside(
                    task,
                    rollback_action,
                    prepared,
                    r,
                ),
    {
        if !first_check {
            log_condition_not_met(&self.logger, &self.sink);
            return Err(ExecutorError::ConditionNotMet);
        }
        let prepared = outside_action();
        self.after_outside_action(prepared, lock, task, rollback_action)
    }

    /// The rest of [`DoubleCheckedLockExecutor::call_with_rollback`] once
    /// the outside action answered `prepared`: its error answers `TaskFailed`
    /// (and is logged) without taking the lock or rolling back; otherwise the
    /// locked part runs and the rollback runs when it failed.
    pub fn after_outside_action<L, T, F, Rb, V, E>(
        &self,
        prepared: Result<(), E>,
        lock: &L,
        task: F,
        rollback_action: Rb,
    ) -> (r: Result<V, ExecutorError<E>>) where
        L: Lock<T>,
        F: FnOnce(&T) -> Result<V, E>,
        Rb: FnOnce() -> Result<(), E>,
        E: std::fmt::Display,

        requires
            forall|data: &T| task.requires((data,)),
            rollback_action.requires(()),
        ensures
            after_outside(task, rollback_action, prepared, r),
    {
        match prepared {
            Err(error) => {
                let shown = error.to_string();
                log_error(&self.sink, String::from_str("Outside action failed: ").concat(shown.as_str()).as_str());
                Err(ExecutorError::TaskFailed(error))
            },
            Ok(()) => {
                let result = self.run_locked(lock, task);
                self.roll_back_on_failure(result, rollback_action)
            },
        }
    }

    /// Like [`DoubleCheckedLockExecutor::call_with_rollback`] for a task that
    /// modifies the data.
    pub fn call_with_rollback_mut<L, T, F, O, Rb, V, E>(
        &self,
        lock: &L,
        task: F,
        outside_action: O,
        rollback_action: Rb,
    ) -> (r: Result<V, ExecutorError<E>>) where
        L: Lock<T>,
        F: FnOnce(&mut T) -> Result<V, E>,
        O: FnOnce() -> Result<(), E>,
        Rb: FnOnce() -> Result<(), E>,
        E: std::fmt::Display,

        requires
            forall|data: &mut T| task.requires((data,)),
            outside_action.requires(()),
            rollback_action.requires(()),
        ensures
            locked_outcome(task, r) || outside_failure(outside_action, r),
            r is Ok ==> exists|prepared: Result<(), E>|
                prepared is Ok && outside_action.ensures((), prepared),
            r is Err && r->Err_0 is TaskFailed ==> outside_failure(outside_action, r) || exists|
                rolled_back: Result<(), E>,
            | rollback_action.ensures((), rolled_back),
    {
        let first_check = test_condition(&self.tester);
        self.call_with_rollback_mut_checked(first_check, lock, task, outside_action, rollback_action)
    }

    /// [`DoubleCheckedLockExecutor::call_with_rollback_mut`] once the first
    /// check answered `first_check`.
    pub fn call_with_rollback_mut_checked<L, T, F, O, Rb, V, E>(
        &self,
        first_check: bool,
        lock: &L,
        task: F,
        outside_action: O,
        rollback_action: Rb,
    ) -> (r: Result<V, ExecutorError<E>>) where
        L: Lock<T>,
        F: FnOnce(&mut T) -> Result<V, E>,
        O: FnOnce() -> Result<(), E>,
        Rb: FnOnce() -> Result<(), E>,
        E: std::fmt::Display,

        requires
            forall|data: &mut T| task.requires((data,)),
            outside_action.requires(()),
            rollback_action.requires(()),
        ensures
            !first_check ==> r == Err::<V, ExecutorError<E>>(ExecutorError::ConditionNotMet),
            first_check ==> exists|prepared: Result<(), E>|
                outside_action.ensures((), prepared) && after_outside_mut(
                    task,
                    rollback_action,
                    prepared,
                    r,
                ),
    {
        if !first_check {
            log_condition_not_met(&self.logger, &self.sink);
            return Err(ExecutorError::ConditionNotMet);
        }
        let prepared = outside_action();
        self.after_outside_action_mut(prepared, lock, task, rollback_action)
    }

    /// [`DoubleCheckedLockExecutor::after_outside_action`] for a task that
    /// modifies the data.
    pub fn after_outside_action_mut<L, T, F, Rb, V, E>(
        &self,
        prepared: Result<(), E>,
        lock: &L,
        task: F,
        rollback_action: Rb,
    ) -> (r: Result<V, ExecutorError<E>>) where
        L: Lock<T>,
        F: FnOnce(&mut T) -> Result<V, E>,
        Rb: FnOnce() -> Result<(), E>,
        E: std::fmt::Display,

        requires
            forall|data: &mut T| task.requires((data,)),
            rollback_action.requires(()),
        ensures
            after_outside_mut(task, rollback_action, prepared, r),
    {
        match prepared {
            Err(error) => {
                let shown = error.to_string();
                log_error(&self.sink, String::from_str("Outside action failed: ").concat(shown.as_str()).as_str());
                Err(ExecutorError::TaskFailed(error))
            },
            Ok(()) => {
                let result = self.run_locked_mut(lock, task);
                self.roll_back_on_failure(result, rollback_action)
            },
        }
    }

    /// Runs the rollback when the locked part answered an error, and hands
    /// that answer back unchanged; a failed rollback is logged and changes
    /// nothing else.
    pub fn roll_back_on_failure<V, E, Rb>(&self, result: Result<V, ExecutorError<E>>, rollback_action: Rb) -> (r:
        Result<V, ExecutorError<E>>) where Rb: FnOnce() -> Result<(), E>, E: std::fmt::Display
        requires
            rollback_action.requires(()),
        ensures
            r == result,
            result is Err ==> exists|rolled_back: Result<(), E>|
                rollback_action.ensures((), rolled_back),
    {
        if let Err(original) = &result {
            let rolled_back = rollback_action();
            if let Err(error) = rolled_back {
                let shown = error.to_string();
                let message = String::from_str("Rollback failed during error recovery: ").concat(
                    shown.as_str(),
                ).concat(". Original error: ").concat(original.message().as_str());
                log_warning(&self.sink, message.as_str());
            }
        }
        result
    }

    /// The locked part: takes the lock, tests the condition again and goes
    /// on with [`locked_step_mut`].
    fn run_locked_mut<L, T, F, R, E>(&self, lock: &L, task: F) -> (r: Result<R, ExecutorError<E>>) where
        L: Lock<T>,
        F: FnOnce(&mut T) -> Result<R, E>,

        requires
            forall|data: &mut T| task.requires((data,)),
        ensures
            locked_outcome(task, r),
    {
        let tester = &self.tester;
        let second_check = || test_condition(tester);
        self.run_locked_mut_checked(lock, task, second_check)
    }

    /// The locked part with the second test made by `second_check`, called
    /// once the lock is held: the answer is that of [`locked_step_mut`] on
    /// what the test answered, `ConditionNotMet` (logged, the task not run)
    /// when it answered `false`, the task's own answer otherwise.
    fn run_locked_mut_checked<L, T, F, R, E, C>(&self, lock: &L, task: F, second_check: C) -> (r:
        Result<R, ExecutorError<E>>) where
        L: Lock<T>,
        F: FnOnce(&mut T) -> Result<R, E>,
        C: FnOnce() -> bool,

        requires
            forall|data: &mut T| task.requires((data,)),
            second_check.requires(()),
        ensures
            exists|passed: bool|
                #![trigger second_check.ensures((), passed)]
                second_check.ensures((), passed) && locked_answer_mut(task, passed, r),
            locked_outcome(task, r),
    {
        let logger = &self.logger;
        let sink = &self.sink;
        let locked = move |data: &mut T| -> (out: Result<R, ExecutorError<E>>)
            requires
                forall|d: &mut T| task.requires((d,)),
                second_check.requires(()),
            ensures
                exists|passed: bool|
                    #![trigger second_check.ensures((), passed)]
                    second_check.ensures((), passed) && locked_answer_mut(task, passed, out),
                locked_outcome(task, out),
            {
                let passed = second_check();
                if !passed {
                    log_condition_not_met(logger, sink);
                }
                locked_step_mut(passed, data, task)
            };
        lock.with_lock(locked)
    }

    /// The locked part for a task that only reads the data.
    fn run_locked<L, T, F, R, E>(&self, lock: &L, task: F) -> (r: Result<R, ExecutorError<E>>) where
        L: Lock<T>,
        F: FnOnce(&T) -> Result<R, E>,

        requires
            forall|data: &T| task.requires((data,)),
        ensures
            read_outcome(task, r),
    {
        let tester = &self.tester;
        let second_check = || test_condition(tester);
        self.run_locked_checked(lock, task, second_check)
    }

    /// [`DoubleCheckedLockExecutor::run_locked_mut_checked`] for a task that
    /// only reads the data: the answer is that of [`locked_step`] on what
    /// the second test answered.
    fn run_locked_checked<L, T, F, R, E, C>(&self, lock: &L, task: F, second_check: C) -> (r: Result<
        R,
        ExecutorError<E>,
    >) where L: Lock<T>, F: FnOnce(&T) -> Result<R, E>, C: FnOnce() -> bool
        requires
            forall|data: &T| task.requires((data,)),
            second_check.requires(()),
        ensures
            exists|passed: bool|
                #![trigger second_check.ensures((), passed)]
                second_check.ensures((), passed) && locked_answer(task, passed, r),
            read_outcome(task, r),
    {
        let logger = &self.logger;
        let sink = &self.sink;
        let locked = move |data: &mut T| -> (out: Result<R, ExecutorError<E>>)
            requires
                forall|d: &T| task.requires((d,)),
                second_check.requires(()),
            ensures
                exists|passed: bool|
                    #![trigger second_check.ensures((), passed)]
                    second_check.ensures((), passed) && locked_answer(task, passed, out),
                read_outcome(task, out),
            {
                let passed = second_check();
                if !passed {
                    log_condition_not_met(logger, sink);
                }
                locked_step(passed, &*data, task)
            };
        lock.with_lock(locked)
    }
}

/// The answer of the locked part once the second check answered `passed`,
/// for a task that modifies the data: `ConditionNotMet` when the check
/// failed; otherwise the answer to what the task gave on the data.
pub open spec fn locked_answer_mut<T, R, E, F: FnOnce(&mut T) -> Result<R, E>>(
    task: F,
    passed: bool,
    r: Result<R, ExecutorError<E>>,
) -> bool {
    if passed {
        exists|data: &mut T, outcome: Result<R, E>|
            task.ensures((data,), outcome) && r == task_answer(outcome)
    } else {
        r == Err::<R, ExecutorError<E>>(ExecutorError::ConditionNotMet)
    }
}

/// The second test alone decides whether the task's answer is given: a
/// failed test answers `ConditionNotMet` and nothing else, while the answer
/// of a task that ran is never `ConditionNotMet` and is one that the task
/// can give.
pub proof fn lemma_second_check_decides<T, R, E, F: FnOnce(&mut T) -> Result<R, E>>(
    task: F,
    r: Result<R, ExecutorError<E>>,
)
    ensures
        locked_answer_mut(task, false, r) <==> r == Err::<R, ExecutorError<E>>(
            ExecutorError::ConditionNotMet,
        ),
        locked_answer_mut(task, true, r) ==> !(r is Err && r->Err_0 is ConditionNotMet),
        locked_answer_mut(task, true, r) ==> locked_outcome(task, r),
{
    if locked_answer_mut(task, true, r) {
        let (d, outcome) = choose|d: &mut T, outcome: Result<R, E>|
            task.ensures((d,), outcome) && r == task_answer(outcome);
        lemma_task_outcome_mut(task, outcome, r);
    }
}

/// [`locked_answer_mut`] for a task that only reads the data.
pub open spec fn locked_answer<T, R, E, F: FnOnce(&T) -> Result<R, E>>(
    task: F,
    passed: bool,
    r: Result<R, ExecutorError<E>>,
) -> bool {
    if passed {
        exists|data: &T, outcome: Result<R, E>|
            task.ensures((data,), outcome) && r == task_answer(outcome)
    } else {
        r == Err::<R, ExecutorError<E>>(ExecutorError::ConditionNotMet)
    }
}

/// The locked part once the second check answered `passed`, for a task that
/// modifies the data: `ConditionNotMet` without running the task, the data
/// unchanged, when the check failed; otherwise the task's own answer, with
/// the data left as the task left it.
pub fn locked_step_mut<T, F, R, E>(passed: bool, data: &mut T, task: F) -> (r: Result<
    R,
    ExecutorError<E>,
>) where F: FnOnce(&mut T) -> Result<R, E>
    requires
        forall|d: &mut T| task.requires((d,)),
    ensures
        !passed ==> r == Err::<R, ExecutorError<E>>(ExecutorError::ConditionNotMet) && *final(data)
            == *old(data),
        passed ==> exists|d: &mut T, outcome: Result<R, E>|
            *d == *old(data) && *final(d) == *final(data) && task.ensures((d,), outcome) && r
                == task_answer(outcome),
        locked_outcome(task, r),
{
    if !passed {
        return Err(ExecutorError::ConditionNotMet);
    }
    let outcome = task(data);
    assert(exists|d: &mut T| task.ensures((d,), outcome));
    let answer = match outcome {
        Ok(value) => Ok(value),
        Err(error) => Err(ExecutorError::TaskFailed(error)),
    };
    proof {
        lemma_task_outcome_mut(task, outcome, answer);
    }
    answer
}

/// The locked part once the second check answered `passed`, for a task that
/// reads the data: `ConditionNotMet` without running the task when the check
/// failed; the task's own answer on `data` otherwise.
pub fn locked_step<T, F, R, E>(passed: bool, data: &T, task: F) -> (r: Result<R, ExecutorError<E>>) where
    F: FnOnce(&T) -> Result<R, E>,

    requires
        forall|d: &T| task.requires((d,)),
    ensures
        !passed ==> r == Err::<R, ExecutorError<E>>(ExecutorError::ConditionNotMet),
        passed ==> exists|outcome: Result<R, E>|
            task.ensures((data,), outcome) && r == task_answer(outcome),
        read_outcome(task, r),
{
    if !passed {
        return Err(ExecutorError::ConditionNotMet);
    }
    let outcome = task(data);
    assert(exists|d: &T| task.ensures((d,), outcome));
    let answer = match outcome {
        Ok(value) => Ok(value),
        Err(error) => Err(ExecutorError::TaskFailed(error)),
    };
    proof {
        lemma_task_outcome_read(task, outcome, answer);
    }
    answer
}

/// Builder for [`DoubleCheckedLockExecutor`]: a tester is required, a log
/// configuration is optional.
pub struct DoubleCheckedLockExecutorBuilder {
    tester: Option<ArcTester>,
    logger: Option<LogConfig>,
    sink: Option<Arc<SharedLogSink>>,
}

impl Default for DoubleCheckedLockExecutorBuilder {
    /// No tester and no logger.
    fn default() -> (builder: Self)
        ensures
            builder.tester_spec() is None,
            builder.logger_spec() is None,
    {
        DoubleCheckedLockExecutorBuilder { tester: None, logger: None, sink: None }
    }
}

impl DoubleCheckedLockExecutorBuilder {
    /// The tester set so far.
    pub closed spec fn tester_spec(&self) -> Option<ArcTester> {
        self.tester
    }

    /// The log configuration set so far.
    pub closed spec fn logger_spec(&self) -> Option<LogConfig> {
        self.logger
    }

    /// Sets the condition tester.
    pub fn tester(self, tester: ArcTester) -> (builder: Self)
        ensures
            builder.tester_spec() == Some(tester),
            builder.logger_spec() == self.logger_spec(),
    {
        DoubleCheckedLockExecutorBuilder { tester: Some(tester), ..self }
    }

    /// Sets the condition tester from a closure.
    pub fn tester_fn<F>(self, f: F) -> (builder: Self) where F: Fn() -> bool + Send + Sync + 'static
        ensures
            builder.tester_spec() is Some,
            builder.logger_spec() == self.logger_spec(),
    {
        DoubleCheckedLockExecutorBuilder { tester: Some(new_tester(f)), ..self }
    }

    /// Sets the level and message logged when the condition is not met.
    pub fn logger(self, level: log::Level, message: &str) -> (builder: Self)
        ensures
            builder.tester_spec() == self.tester_spec(),
            builder.logger_spec() is Some,
            builder.logger_spec()->0.level == level,
            builder.logger_spec()->0.message@ == message@,
    {
        DoubleCheckedLockExecutorBuilder {
            logger: Some(LogConfig { level, message: message.to_owned() }),
            ..self
        }
    }

    /// Sets where the executor's log records go; without a sink nothing is
    /// logged.
    pub fn log_sink(self, sink: Arc<SharedLogSink>) -> (builder: Self)
        ensures
            builder.tester_spec() == self.tester_spec(),
            builder.logger_spec() == self.logger_spec(),
    {
        DoubleCheckedLockExecutorBuilder { sink: Some(sink), ..self }
    }

    /// Builds the executor; a tester is required.
    pub fn build(self) -> (r: Result<DoubleCheckedLockExecutor, BuilderError>)
        ensures
            self.tester_spec() is None ==> r == Err::<DoubleCheckedLockExecutor, BuilderError>(
                BuilderError::MissingTester,
            ),
            self.tester_spec() is Some ==> r is Ok && r->Ok_0.tester_spec()
                == self.tester_spec()->0 && r->Ok_0.logger_spec() == self.logger_spec(),
    {
        match self.tester {
            Some(tester) => Ok(
                DoubleCheckedLockExecutor { tester, logger: self.logger, sink: self.sink },
            ),
            None => Err(BuilderError::MissingTester),
        }
    }
}

} // verus!
