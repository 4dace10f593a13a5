//! Fluent execution builder for double-checked locking.
//!
//! The builder's type parameter records how far it has been configured:
//! [`Initial`], then optionally [`Configuring`] (a logger was set), then
//! [`Conditioned`] (the condition was set), where tasks can be run.
use crate::double_checked::callbacks::{get_once, test_box_tester};
use crate::double_checked::config::LogConfig;
use crate::double_checked::error::ExecutorError;
use crate::double_checked::logging::{log_condition_not_met, log_error, SharedLogSink};
use crate::double_checked::result::{ExecutionContext, ExecutionResult};
use crate::lock::Lock;
use qubit_function::{BoxSupplierOnce, BoxTester};
use std::marker::PhantomData;
use std::sync::Arc;
use vstd::string::StringExecFns;
use vstd::prelude::*;

verus! {

/// Builder state: just created.
pub struct Initial;

/// Builder state: a logger was configured.
pub struct Configuring;

/// Builder state: the condition was set; tasks can run.
pub struct Conditioned;

/// Execution builder over a lock protecting a `T`.
pub struct ExecutionBuilder<'a, L, T, State = Initial> where L: Lock<T> {
    /// The lock that protects the shared data.
    lock: &'a L,
    /// Optional logging configuration for unmet conditions.
    logger: Option<LogConfig>,
    /// The condition, set when entering the `Conditioned` state.
    tester: Option<BoxTester>,
    /// Optional preparation run between the first check and locking.
    prepare_action: Option<BoxSupplierOnce<Result<(), String>>>,
    /// Whether a rollback runs when the condition becomes unmet after
    /// preparation.
    rollback_on_unmet: bool,
    /// Where log records go, if anywhere.
    sink: Option<Arc<SharedLogSink>>,
    /// Records the data type and the builder state.
    _phantom: PhantomData<(T, State)>,
}

impl<'a, L, T, State> ExecutionBuilder<'a, L, T, State> where L: Lock<T> {
    /// The lock the builder runs against.
    pub closed spec fn lock_spec(&self) -> &'a L {
        self.lock
    }

    /// The log configuration.
    pub closed spec fn logger_spec(&self) -> Option<LogConfig> {
        self.logger
    }

    /// The condition, once set.
    pub closed spec fn tester_spec(&self) -> Option<BoxTester> {
        self.tester
    }

    /// The preparation action, if any.
    pub closed spec fn prepare_spec(&self) -> Option<BoxSupplierOnce<Result<(), String>>> {
        self.prepare_action
    }

    /// Whether an unmet condition after preparation calls for a rollback.
    pub closed spec fn rollback_on_unmet_spec(&self) -> bool {
        self.rollback_on_unmet
    }

    /// Moves the configuration into another builder state.
    fn into_state<Next>(self) -> (builder: ExecutionBuilder<'a, L, T, Next>)
        ensures
            builder.lock_spec() == self.lock_spec(),
            builder.logger_spec() == self.logger_spec(),
            builder.tester_spec() == self.tester_spec(),
            builder.prepare_spec() == self.prepare_spec(),
            builder.rollback_on_unmet_spec() == self.rollback_on_unmet_spec(),
    {
        ExecutionBuilder {
            lock: self.lock,
            logger: self.logger,
            tester: self.tester,
            prepare_action: self.prepare_action,
            rollback_on_unmet: self.rollback_on_unmet,
            sink: self.sink,
            _phantom: PhantomData,
        }
    }

    /// Sets where log records go: the configured message when the
    /// condition is not met, and a failed preparation or rollback. Without a
    /// sink nothing is logged.
    pub fn log_sink(self, sink: Arc<SharedLogSink>) -> (builder: Self)
        ensures
            builder.lock_spec() == self.lock_spec(),
            builder.logger_spec() == self.logger_spec(),
            builder.tester_spec() == self.tester_spec(),
            builder.prepare_spec() == self.prepare_spec(),
            builder.rollback_on_unmet_spec() == self.rollback_on_unmet_spec(),
    {
        ExecutionBuilder { sink: Some(sink), ..self }
    }
}

impl<'a, L, T> ExecutionBuilder<'a, L, T, Initial> where L: Lock<T> {
    /// Creates a builder over `lock`: no logger, no condition, no
    /// preparation, and rollback on an unmet condition enabled.
    pub fn new(lock: &'a L) -> (builder: Self)
        ensures
            builder.lock_spec() == lock,
            builder.logger_spec() is None,
            builder.tester_spec() is None,
            builder.prepare_spec() is None,
            builder.rollback_on_unmet_spec(),
    {
        ExecutionBuilder {
            lock,
            logger: None,
            tester: None,
            prepare_action: None,
            rollback_on_unmet: true,
            sink: None,
            _phantom: PhantomData,
        }
    }

    /// Configures logging; moves to the `Configuring` state.
    pub fn logger(self, level: log::Level, message: &str) -> (builder: ExecutionBuilder<
        'a,
        L,
        T,
        Configuring,
    >)
        ensures
            builder.logger_spec() is Some,
            builder.logger_spec()->0.level == level,
            builder.logger_spec()->0.message@ == message@,
            builder.lock_spec() == self.lock_spec(),
            builder.tester_spec() == self.tester_spec(),
            builder.prepare_spec() == self.prepare_spec(),
            builder.rollback_on_unmet_spec() == self.rollback_on_unmet_spec(),
    {
        let configured = ExecutionBuilder {
            logger: Some(LogConfig { level, message: message.to_owned() }),
            ..self
        };
        configured.into_state()
    }

    /// Sets the condition; moves to the `Conditioned` state.
    ///
    /// The condition is tested twice, once without the lock, so it must read
    /// shared state through atomics or other synchronized means.
    pub fn when(self, tester: BoxTester) -> (builder: ExecutionBuilder<'a, L, T, Conditioned>)
        ensures
            builder.tester_spec() == Some(tester),
            builder.lock_spec() == self.lock_spec(),
            builder.logger_spec() == self.logger_spec(),
            builder.prepare_spec() == self.prepare_spec(),
            builder.rollback_on_unmet_spec() == self.rollback_on_unmet_spec(),
    {
        let conditioned = ExecutionBuilder { tester: Some(tester), ..self };
        conditioned.into_state()
    }
}

impl<'a, L, T> ExecutionBuilder<'a, L, T, Configuring> where L: Lock<T> {
    /// Replaces the logging configuration.
    pub fn logger(self, level: log::Level, message: &str) -> (builder: Self)
        ensures
            builder.logger_spec() is Some,
            builder.logger_spec()->0.level == level,
            builder.logger_spec()->0.message@ == message@,
            builder.lock_spec() == self.lock_spec(),
            builder.tester_spec() == self.tester_spec(),
            builder.prepare_spec() == self.prepare_spec(),
            builder.rollback_on_unmet_spec() == self.rollback_on_unmet_spec(),
    {
        ExecutionBuilder { logger: Some(LogConfig { level, message: message.to_owned() }), ..self }
    }

    /// Sets the condition; moves to the `Conditioned` state.
    pub fn when(self, tester: BoxTester) -> (builder: ExecutionBuilder<'a, L, T, Conditioned>)
        ensures
            builder.tester_spec() == Some(tester),
            builder.lock_spec() == self.lock_spec(),
            builder.logger_spec() == self.logger_spec(),
            builder.prepare_spec() == self.prepare_spec(),
            builder.rollback_on_unmet_spec() == self.rollback_on_unmet_spec(),
    {
        let conditioned = ExecutionBuilder { tester: Some(tester), ..self };
        conditioned.into_state()
    }
}

/// What a double-checked run may give for `task` on the data: the task's
/// value or error, an unmet condition, or the failure of the preparation
/// action when there is one. The flag asks for a rollback only for a
/// condition found unmet under the lock after preparation ran, and only if
/// rollback on unmet was requested.
pub open spec fn checked_outcome<T, R, E, F: FnOnce(&T) -> Result<R, E>>(
    task: F,
    prepared: bool,
    rollback_on_unmet: bool,
    outcome: (ExecutionResult<R, E>, bool),
) -> bool {
    &&& outcome.1 ==> outcome.0 is ConditionNotMet && prepared && rollback_on_unmet
    &&& match outcome.0 {
        ExecutionResult::Success(value) => exists|data: &T| #[trigger]
            task.ensures((data,), Ok::<R, E>(value)),
        ExecutionResult::ConditionNotMet => true,
        ExecutionResult::Failed(error) => (error is TaskFailed && exists|data: &T| #[trigger]
            task.ensures((data,), Err::<R, E>(error->TaskFailed_0))) || (error is PrepareFailed
            && prepared),
    }
}

/// [`checked_outcome`] for a task that modifies the data.
pub open spec fn checked_outcome_mut<T, R, E, F: FnOnce(&mut T) -> Result<R, E>>(
    task: F,
    prepared: bool,
    rollback_on_unmet: bool,
    outcome: (ExecutionResult<R, E>, bool),
) -> bool {
    &&& outcome.1 ==> outcome.0 is ConditionNotMet && prepared && rollback_on_unmet
    &&& match outcome.0 {
        ExecutionResult::Success(value) => exists|data: &mut T| #[trigger]
            task.ensures((data,), Ok::<R, E>(value)),
        ExecutionResult::ConditionNotMet => true,
        ExecutionResult::Failed(error) => (error is TaskFailed && exists|data: &mut T| #[trigger]
            task.ensures((data,), Err::<R, E>(error->TaskFailed_0))) || (error is PrepareFailed
            && prepared),
    }
}

impl<'a, L, T> ExecutionBuilder<'a, L, T, Conditioned> where L: Lock<T>, T: 'static {
    /// Sets the preparation action, run between the first check and
    /// locking; its error message makes the execution fail.
    pub fn prepare(self, prepare_action: BoxSupplierOnce<Result<(), String>>) -> (builder: Self)
        ensures
            builder.prepare_spec() == Some(prepare_action),
            builder.lock_spec() == self.lock_spec(),
            builder.logger_spec() == self.logger_spec(),
            builder.tester_spec() == self.tester_spec(),
            builder.rollback_on_unmet_spec() == self.rollback_on_unmet_spec(),
    {
        ExecutionBuilder { prepare_action: Some(prepare_action), ..self }
    }

    /// Configures whether a rollback runs when the condition becomes unmet
    /// after the preparation action and lock acquisition.
    pub fn rollback_on_unmet(self, enabled: bool) -> (builder: Self)
        ensures
            builder.rollback_on_unmet_spec() == enabled,
            builder.lock_spec() == self.lock_spec(),
            builder.logger_spec() == self.logger_spec(),
            builder.tester_spec() == self.tester_spec(),
            builder.prepare_spec() == self.prepare_spec(),
    {
        ExecutionBuilder { rollback_on_unmet: enabled, ..self }
    }

    /// Runs a read-only task: first check, preparation, lock, second check,
    /// task.
    pub fn call<F, R, E>(self, task: F) -> (context: ExecutionContext<R, E>) where
        F: FnOnce(&T) -> Result<R, E>,

        requires
            self.tester_spec() is Some,
            forall|data: &T| task.requires((data,)),
        ensures
            checked_outcome(
                task,
                self.prepare_spec() is Some,
                self.rollback_on_unmet_spec(),
                (context.result_spec(), context.rolls_back_unmet()),
            ),
            context.rollback_spec() is None,
    {
        let sink = share_sink(&self.sink);
        let (result, rollback_on_unmet) = self.execute_with_read_lock(task);
        ExecutionContext::new_with_unmet_policy(result, rollback_on_unmet).with_log_sink(sink)
    }

    /// Runs a read-write task: first check, preparation, lock, second
    /// check, task.
    pub fn call_mut<F, R, E>(self, task: F) -> (context: ExecutionContext<R, E>) where
        F: FnOnce(&mut T) -> Result<R, E>,

        requires
            self.tester_spec() is Some,
            forall|data: &mut T| task.requires((data,)),
        ensures
            checked_outcome_mut(
                task,
                self.prepare_spec() is Some,
                self.rollback_on_unmet_spec(),
                (context.result_spec(), context.rolls_back_unmet()),
            ),
            context.rollback_spec() is None,
    {
        let sink = share_sink(&self.sink);
        let (result, rollback_on_unmet) = self.execute_with_write_lock(task);
        ExecutionContext::new_with_unmet_policy(result, rollback_on_unmet).with_log_sink(sink)
    }

    /// Runs a read-only task without a value (see
    /// [`ExecutionBuilder::call`]).
    pub fn execute<F, E>(self, task: F) -> (context: ExecutionContext<(), E>) where
        F: FnOnce(&T) -> Result<(), E>,

        requires
            self.tester_spec() is Some,
            forall|data: &T| task.requires((data,)),
        ensures
            checked_outcome(
                task,
                self.prepare_spec() is Some,
                self.rollback_on_unmet_spec(),
                (context.result_spec(), context.rolls_back_unmet()),
            ),
            context.rollback_spec() is None,
    {
        self.call(task)
    }

    /// Runs a read-write task without a value (see
    /// [`ExecutionBuilder::call_mut`]).
    pub fn execute_mut<F, E>(self, task: F) -> (context: ExecutionContext<(), E>) where
        F: FnOnce(&mut T) -> Result<(), E>,

        requires
            self.tester_spec() is Some,
            forall|data: &mut T| task.requires((data,)),
        ensures
            checked_outcome_mut(
                task,
                self.prepare_spec() is Some,
                self.rollback_on_unmet_spec(),
                (context.result_spec(), context.rolls_back_unmet()),
            ),
            context.rollback_spec() is None,
    {
        self.call_mut(task)
    }

    /// The double-checked run of a read-only task, with the rollback flag.
    fn execute_with_read_lock<F, R, E>(self, task: F) -> (outcome: (ExecutionResult<R, E>, bool)) where
        F: FnOnce(&T) -> Result<R, E>,

        requires
            self.tester_spec() is Some,
            forall|data: &T| task.requires((data,)),
        ensures
            checked_outcome(task, self.prepare_spec() is Some, self.rollback_on_unmet_spec(), outcome),
    {
        let first_check = match &self.tester {
            Some(tester) => test_box_tester(tester),
            None => {
                proof {
                    assert(false);
                }
                false
            },
        };
        self.read_after_first_check(first_check, task)
    }

    /// The run of a read-only task once the first check answered
    /// `first_check`: an unmet condition, logged, with nothing else run when
    /// it failed; otherwise the preparation action, if any, runs and
    /// [`ExecutionBuilder::read_after_prepare`] goes on with its answer.
    pub fn read_after_first_check<F, R, E>(self, first_check: bool, task: F) -> (outcome: (
        ExecutionResult<R, E>,
        bool,
    )) where F: FnOnce(&T) -> Result<R, E>
        requires
            self.tester_spec() is Some,
            forall|data: &T| task.requires((data,)),
        ensures
            !first_check ==> outcome == (ExecutionResult::<R, E>::ConditionNotMet, false),
            checked_outcome(task, self.prepare_spec() is Some, self.rollback_on_unmet_spec(), outcome),
    {
        if !first_check {
            log_condition_not_met(&self.logger, &self.sink);
            return (ExecutionResult::ConditionNotMet, false);
        }
        let ExecutionBuilder { lock, logger, tester, prepare_action, rollback_on_unmet, sink, _phantom } =
            self;
        let prepared = match prepare_action {
            Some(action) => Some(get_once(action)),
            None => None,
        };
        let rest: ExecutionBuilder<'a, L, T, Conditioned> = ExecutionBuilder {
            lock,
            logger,
            tester,
            prepare_action: None,
            rollback_on_unmet,
            sink,
            _phantom,
        };
        rest.read_after_prepare(prepared, task)
    }

    /// The run of a read-only task once the preparation answered `prepared`
    /// (`None` when there was none): its error fails the run, logged,
    /// without taking the lock; otherwise the lock is taken, the condition
    /// tested again and [`read_step`] goes on with the answer.
    pub fn read_after_prepare<F, R, E>(self, prepared: Option<Result<(), String>>, task: F) -> (outcome: (
        ExecutionResult<R, E>,
        bool,
    )) where F: FnOnce(&T) -> Result<R, E>
        requires
            self.tester_spec() is Some,
            forall|data: &T| task.requires((data,)),
        ensures
            prepare_failed(prepared) ==> outcome == (
                ExecutionResult::<R, E>::Failed(ExecutorError::PrepareFailed(prepared->0->Err_0)),
                false,
            ),
            !prepare_failed(prepared) ==> checked_outcome(
                task,
                prepared is Some,
                self.rollback_on_unmet_spec(),
                outcome,
            ) && !failed_preparing(outcome.0),
    {
        let ghost prepare_executed_spec = prepared is Some;
        let ghost rollback_wanted = self.rollback_on_unmet;
        if let Some(Err(message)) = prepared {
            log_error(
                &self.sink,
                String::from_str("Prepare action failed: ").concat(message.as_str()).as_str(),
            );
            return (ExecutionResult::Failed(ExecutorError::PrepareFailed(message)), false);
        }
        let prepare_executed = prepared.is_some();
        let rollback_on_unmet = self.rollback_on_unmet;
        let tester = match &self.tester {
            Some(tester) => tester,
            None => {
                proof {
                    assert(false);
                }
                return (ExecutionResult::ConditionNotMet, false);
            },
        };
        let logger = &self.logger;
        let sink = &self.sink;
        let locked = |data: &mut T| -> (out: (ExecutionResult<R, E>, bool))
            requires
                forall|d: &T| task.requires((d,)),
            ensures
                checked_outcome(task, prepare_executed_spec, rollback_wanted, out),
                !failed_preparing(out.0),
            {
                let second_check = test_box_tester(tester);
                if !second_check {
                    log_condition_not_met(logger, sink);
                }
                read_step(second_check, prepare_executed, rollback_on_unmet, &*data, task)
            };
        self.lock.with_lock(locked)
    }

    /// The double-checked run of a read-write task, with the rollback flag.
    fn execute_with_write_lock<F, R, E>(self, task: F) -> (outcome: (ExecutionResult<R, E>, bool)) where
        F: FnOnce(&mut T) -> Result<R, E>,

        requires
            self.tester_spec() is Some,
            forall|data: &mut T| task.requires((data,)),
        ensures
            checked_outcome_mut(task, self.prepare_spec() is Some, self.rollback_on_unmet_spec(), outcome),
    {
        let first_check = match &self.tester {
            Some(tester) => test_box_tester(tester),
            None => {
                proof {
                    assert(false);
                }
                false
            },
        };
        self.write_after_first_check(first_check, task)
    }

    /// [`ExecutionBuilder::read_after_first_check`] for a read-write task.
    pub fn write_after_first_check<F, R, E>(self, first_check: bool, task: F) -> (outcome: (
        ExecutionResult<R, E>,
        bool,
    )) where F: FnOnce(&mut T) -> Result<R, E>
        requires
            self.tester_spec() is Some,
            forall|data: &mut T| task.requires((data,)),
        ensures
            !first_check ==> outcome == (ExecutionResult::<R, E>::ConditionNotMet, false),
            checked_outcome_mut(task, self.prepare_spec() is Some, self.rollback_on_unmet_spec(), outcome),
    {
        if !first_check {
            log_condition_not_met(&self.logger, &self.sink);
            return (ExecutionResult::ConditionNotMet, false);
        }
        let ExecutionBuilder { lock, logger, tester, prepare_action, rollback_on_unmet, sink, _phantom } =
            self;
        let prepared = match prepare_action {
            Some(action) => Some(get_once(action)),
            None => None,
        };
        let rest: ExecutionBuilder<'a, L, T, Conditioned> = ExecutionBuilder {
            lock,
            logger,
            tester,
            prepare_action: None,
            rollback_on_unmet,
            sink,
            _phantom,
        };
        rest.write_after_prepare(prepared, task)
    }

    /// [`ExecutionBuilder::read_after_prepare`] for a read-write task; the
    /// locked part goes on with [`write_step`].
    pub fn write_after_prepare<F, R, E>(self, prepared: Option<Result<(), String>>, task: F) -> (outcome: (
        ExecutionResult<R, E>,
        bool,
    )) where F: FnOnce(&mut T) -> Result<R, E>
        requires
            self.tester_spec() is Some,
            forall|data: &mut T| task.requires((data,)),
        ensures
            prepare_failed(prepared) ==> outcome == (
                ExecutionResult::<R, E>::Failed(ExecutorError::PrepareFailed(prepared->0->Err_0)),
                false,
            ),
            !prepare_failed(prepared) ==> checked_outcome_mut(
                task,
                prepared is Some,
                self.rollback_on_unmet_spec(),
                outcome,
            ) && !failed_preparing(outcome.0),
    {
        let ghost prepare_executed_spec = prepared is Some;
        let ghost rollback_wanted = self.rollback_on_unmet;
        if let Some(Err(message)) = prepared {
            log_error(
                &self.sink,
                String::from_str("Prepare action failed: ").concat(message.as_str()).as_str(),
            );
            return (ExecutionResult::Failed(ExecutorError::PrepareFailed(message)), false);
        }
        let prepare_executed = prepared.is_some();
        let rollback_on_unmet = self.rollback_on_unmet;
        let tester = match &self.tester {
            Some(tester) => tester,
            None => {
                proof {
                    assert(false);
                }
                return (ExecutionResult::ConditionNotMet, false);
            },
        };
        let logger = &self.logger;
        let sink = &self.sink;
        let locked = |data: &mut T| -> (out: (ExecutionResult<R, E>, bool))
            requires
                forall|d: &mut T| task.requires((d,)),
            ensures
                checked_outcome_mut(task, prepare_executed_spec, rollback_wanted, out),
                !failed_preparing(out.0),
            {
                let second_check = test_box_tester(tester);
                if !second_check {
                    log_condition_not_met(logger, sink);
                }
                write_step(second_check, prepare_executed, rollback_on_unmet, data, task)
            };
        self.lock.with_lock(locked)
    }
}

/// Another handle to the same log sink, if any.
fn share_sink(sink: &Option<Arc<SharedLogSink>>) -> (shared: Option<Arc<SharedLogSink>>)
    ensures
        shared == *sink,
{
    match sink {
        Some(sink) => Some(Arc::clone(sink)),
        None => None,
    }
}

/// The preparation ran and failed.
pub open spec fn prepare_failed(prepared: Option<Result<(), String>>) -> bool {
    prepared is Some && prepared->0 is Err
}

/// `result` reports a failed preparation.
pub open spec fn failed_preparing<R, E>(result: ExecutionResult<R, E>) -> bool {
    result is Failed && result->Failed_0 is PrepareFailed
}

/// The locked part of a read-only run once the second check answered
/// `passed`: an unmet condition, with the rollback flag set when the
/// preparation ran and a rollback on unmet was asked for, when it failed;
/// the task's own answer on `data` otherwise.
pub fn read_step<T, F, R, E>(
    passed: bool,
    prepared: bool,
    rollback_on_unmet: bool,
    data: &T,
    task: F,
) -> (out: (ExecutionResult<R, E>, bool)) where F: FnOnce(&T) -> Result<R, E>
    requires
        forall|d: &T| task.requires((d,)),
    ensures
        !passed ==> out == (ExecutionResult::<R, E>::ConditionNotMet, prepared && rollback_on_unmet),
        passed ==> exists|outcome: Result<R, E>|
            task.ensures((data,), outcome) && out == (execution_answer(outcome), false),
        checked_outcome(task, prepared, rollback_on_unmet, out),
        !failed_preparing(out.0),
{
    if !passed {
        return (ExecutionResult::ConditionNotMet, prepared && rollback_on_unmet);
    }
    let outcome = task(data);
    assert(exists|d: &T| task.ensures((d,), outcome));
    let answer = match outcome {
        Ok(value) => ExecutionResult::Success(value),
        Err(error) => ExecutionResult::Failed(ExecutorError::TaskFailed(error)),
    };
    proof {
        lemma_read_answer(task, prepared, rollback_on_unmet, outcome, answer);
    }
    (answer, false)
}

/// The locked part of a read-write run once the second check answered
/// `passed`: an unmet condition with the data unchanged when it failed (see
/// [`read_step`] for the flag); the task's own answer otherwise.
pub fn write_step<T, F, R, E>(
    passed: bool,
    prepared: bool,
    rollback_on_unmet: bool,
    data: &mut T,
    task: F,
) -> (out: (ExecutionResult<R, E>, bool)) where F: FnOnce(&mut T) -> Result<R, E>
    requires
        forall|d: &mut T| task.requires((d,)),
    ensures
        !passed ==> out == (ExecutionResult::<R, E>::ConditionNotMet, prepared && rollback_on_unmet)
            && *final(data) == *old(data),
        passed ==> exists|d: &mut T, outcome: Result<R, E>|
            *d == *old(data) && *final(d) == *final(data) && task.ensures((d,), outcome) && out
                == (execution_answer(outcome), false),
        checked_outcome_mut(task, prepared, rollback_on_unmet, out),
        !failed_preparing(out.0),
{
    if !passed {
        return (ExecutionResult::ConditionNotMet, prepared && rollback_on_unmet);
    }
    let outcome = task(data);
    assert(exists|d: &mut T| task.ensures((d,), outcome));
    let answer = match outcome {
        Ok(value) => ExecutionResult::Success(value),
        Err(error) => ExecutionResult::Failed(ExecutorError::TaskFailed(error)),
    };
    proof {
        lemma_write_answer(task, prepared, rollback_on_unmet, outcome, answer);
    }
    (answer, false)
}

/// The builder's answer for a task outcome.
pub open spec fn execution_answer<R, E>(outcome: Result<R, E>) -> ExecutionResult<R, E> {
    match outcome {
        Ok(value) => ExecutionResult::Success(value),
        Err(error) => ExecutionResult::Failed(ExecutorError::TaskFailed(error)),
    }
}

proof fn lemma_read_answer<T, R, E, F: FnOnce(&T) -> Result<R, E>>(
    task: F,
    prepared: bool,
    rollback_on_unmet: bool,
    outcome: Result<R, E>,
    answer: ExecutionResult<R, E>,
)
    requires
        exists|d: &T| task.ensures((d,), outcome),
        answer == execution_answer(outcome),
    ensures
        checked_outcome(task, prepared, rollback_on_unmet, (answer, false)),
{
    let d = choose|d: &T| task.ensures((d,), outcome);
    match outcome {
        Ok(value) => {
            assert(task.ensures((d,), Ok::<R, E>(answer->Success_0)));
        },
        Err(error) => {
            assert(answer->Failed_0->TaskFailed_0 == error);
            assert(task.ensures((d,), Err::<R, E>(answer->Failed_0->TaskFailed_0)));
        },
    }
}

proof fn lemma_write_answer<T, R, E, F: FnOnce(&mut T) -> Result<R, E>>(
    task: F,
    prepared: bool,
    rollback_on_unmet: bool,
    outcome: Result<R, E>,
    answer: ExecutionResult<R, E>,
)
    requires
        exists|d: &mut T| task.ensures((d,), outcome),
        answer == execution_answer(outcome),
    ensures
        checked_outcome_mut(task, prepared, rollback_on_unmet, (answer, false)),
{
    let d = choose|d: &mut T| task.ensures((d,), outcome);
    match outcome {
        Ok(value) => {
            assert(task.ensures((d,), Ok::<R, E>(answer->Success_0)));
        },
        Err(error) => {
            assert(answer->Failed_0->TaskFailed_0 == error);
            assert(task.ensures((d,), Err::<R, E>(answer->Failed_0->TaskFailed_0)));
        },
    }
}

} // verus!
