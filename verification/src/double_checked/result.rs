//! Result type that tells success, an unmet condition and failure apart.
use crate::double_checked::callbacks::get_once;
use crate::double_checked::error::ExecutorError;
use crate::double_checked::logging::{log_error, SharedLogSink};
use qubit_function::BoxSupplierOnce;
use std::sync::Arc;
use vstd::string::StringExecFns;
use vstd::prelude::*;

verus! {

/// Task execution result: success with a value, an unmet condition, or a
/// failure.
#[derive(Debug)]
pub enum ExecutionResult<T, E> {
    /// Execution succeeded with a value.
    Success(T),
    /// Double-checked locking condition was not met.
    ConditionNotMet,
    /// Execution failed with an error.
    Failed(ExecutorError<E>),
}

/// A result is exactly one of a success, an unmet condition and a failure.
pub proof fn lemma_exactly_one_outcome<T, E>(result: ExecutionResult<T, E>)
    ensures
        (result is Success) || (result is ConditionNotMet) || (result is Failed),
        !((result is Success) && (result is ConditionNotMet)),
        !((result is Success) && (result is Failed)),
        !((result is ConditionNotMet) && (result is Failed)),
{
}

impl<T, E> ExecutionResult<T, E> {
    /// Checks if the execution was successful.
    pub fn is_success(&self) -> (r: bool)
        ensures
            r == (self is Success),
    {
        match self {
            ExecutionResult::Success(_) => true,
            _ => false,
        }
    }

    /// Checks if the condition was not met.
    pub fn is_unmet(&self) -> (r: bool)
        ensures
            r == (self is ConditionNotMet),
    {
        match self {
            ExecutionResult::ConditionNotMet => true,
            _ => false,
        }
    }

    /// Checks if the execution failed.
    pub fn is_failed(&self) -> (r: bool)
        ensures
            r == (self is Failed),
    {
        match self {
            ExecutionResult::Failed(_) => true,
            _ => false,
        }
    }

    /// Unwraps the success value; only a successful result may be unwrapped.
    pub fn unwrap(self) -> (value: T)
        requires
            self is Success,
        ensures
            value == self->Success_0,
    {
        match self {
            ExecutionResult::Success(value) => value,
            _ => {
                proof {
                    assert(false);
                }
                unreached()
            },
        }
    }

    /// The result as a standard `Result`: `Ok(Some(v))` on success,
    /// `Ok(None)` for an unmet condition, `Err(e)` on failure.
    pub fn into_result(self) -> (r: Result<Option<T>, ExecutorError<E>>)
        ensures
            self is Success ==> r == Ok::<Option<T>, ExecutorError<E>>(Some(self->Success_0)),
            self is ConditionNotMet ==> r == Ok::<Option<T>, ExecutorError<E>>(None),
            self is Failed ==> r == Err::<Option<T>, ExecutorError<E>>(self->Failed_0),
    {
        match self {
            ExecutionResult::Success(value) => Ok(Some(value)),
            ExecutionResult::ConditionNotMet => Ok(None),
            ExecutionResult::Failed(error) => Err(error),
        }
    }
}

/// Execution context: the result of an execution, with an optional rollback
/// that runs when the result is fetched and the execution failed, or when
/// the condition became unmet after a preparation action ran and the
/// context was told to roll back in that case.
pub struct ExecutionContext<T, E> {
    result: ExecutionResult<T, E>,
    rollback_action: Option<BoxSupplierOnce<Result<(), String>>>,
    rollback_on_unmet: bool,
    sink: Option<Arc<SharedLogSink>>,
}

impl<T, E> ExecutionContext<T, E> {
    /// The execution result held.
    pub closed spec fn result_spec(&self) -> ExecutionResult<T, E> {
        self.result
    }

    /// The rollback action set, if any.
    pub closed spec fn rollback_spec(&self) -> Option<BoxSupplierOnce<Result<(), String>>> {
        self.rollback_action
    }

    /// Whether an unmet condition also calls for the rollback.
    pub closed spec fn rolls_back_unmet(&self) -> bool {
        self.rollback_on_unmet
    }

    /// The result calls for a rollback: the execution failed, or the
    /// condition was unmet after preparation and the context says so.
    pub open spec fn needs_rollback(&self) -> bool {
        self.result_spec() is Failed || (self.result_spec() is ConditionNotMet
            && self.rolls_back_unmet())
    }

    /// Creates a context holding `result`, with no rollback.
    pub fn new(result: ExecutionResult<T, E>) -> (context: Self)
        ensures
            context.result_spec() == result,
            context.rollback_spec() is None,
            !context.rolls_back_unmet(),
    {
        ExecutionContext { result, rollback_action: None, rollback_on_unmet: false, sink: None }
    }

    /// Creates a context holding `result`; `rollback_on_unmet` says whether
    /// an unmet condition also calls for the rollback.
    pub fn new_with_unmet_policy(result: ExecutionResult<T, E>, rollback_on_unmet: bool) -> (context: Self)
        ensures
            context.result_spec() == result,
            context.rollback_spec() is None,
            context.rolls_back_unmet() == rollback_on_unmet,
    {
        ExecutionContext { result, rollback_action: None, rollback_on_unmet, sink: None }
    }

    /// Sets where a failed rollback is logged.
    pub fn with_log_sink(self, sink: Option<Arc<SharedLogSink>>) -> (context: Self)
        ensures
            context.result_spec() == self.result_spec(),
            context.rollback_spec() == self.rollback_spec(),
            context.rolls_back_unmet() == self.rolls_back_unmet(),
    {
        ExecutionContext { sink, ..self }
    }

    /// Sets the rollback action; it is kept only when the result calls for
    /// a rollback, and otherwise dropped without running.
    pub fn rollback(self, rollback_action: BoxSupplierOnce<Result<(), String>>) -> (context: Self)
        ensures
            context.result_spec() == self.result_spec(),
            context.rolls_back_unmet() == self.rolls_back_unmet(),
            self.needs_rollback() ==> context.rollback_spec() == Some(rollback_action),
            !self.needs_rollback() ==> context.rollback_spec() == self.rollback_spec(),
    {
        let needs = match &self.result {
            ExecutionResult::Failed(_) => true,
            ExecutionResult::ConditionNotMet => self.rollback_on_unmet,
            ExecutionResult::Success(_) => false,
        };
        if needs {
            ExecutionContext { rollback_action: Some(rollback_action), ..self }
        } else {
            self
        }
    }

    /// Checks the execution result without consuming the context.
    pub fn peek_result(&self) -> (result: &ExecutionResult<T, E>)
        ensures
            *result == self.result_spec(),
    {
        &self.result
    }

    /// Checks if execution was successful.
    pub fn is_success(&self) -> (r: bool)
        ensures
            r == (self.result_spec() is Success),
    {
        self.result.is_success()
    }
}

impl<T, E: std::fmt::Display> ExecutionContext<T, E> {
    /// The results that fetching may give: the result held, or, when a
    /// rollback of a failure was set and failed, a `RollbackFailed` error
    /// that describes the original error.
    pub open spec fn fetched(&self, r: ExecutionResult<T, E>) -> bool {
        ||| r == self.result_spec()
        ||| {
            &&& self.result_spec() is Failed
            &&& self.rollback_spec() is Some
            &&& r is Failed
            &&& r->Failed_0 is RollbackFailed
            &&& self.result_spec()->Failed_0.describes(r->Failed_0->RollbackFailed_original@)
        }
    }

    /// Gets the execution result, consuming the context. A rollback that was
    /// set runs first, and [`settle_rollback`] gives the result from its
    /// answer; a failed rollback is logged.
    pub fn get_result(self) -> (r: ExecutionResult<T, E>)
        ensures
            self.fetched(r),
            self.result_spec() is Success ==> r == self.result_spec(),
            self.result_spec() is ConditionNotMet ==> r == self.result_spec(),
            self.rollback_spec() is None ==> r == self.result_spec(),
            exists|answer: Option<Result<(), String>>|
                (answer is Some <==> self.rollback_spec() is Some) && settled(
                    self.result_spec(),
                    answer,
                    r,
                ),
    {
        let ExecutionContext { result, rollback_action, rollback_on_unmet: _, sink } = self;
        let answer = match rollback_action {
            None => None,
            Some(action) => Some(get_once(action)),
        };
        if let Some(Err(rollback)) = &answer {
            log_error(
                &sink,
                String::from_str("Rollback action failed: ").concat(rollback.as_str()).as_str(),
            );
        }
        settle_rollback(result, answer)
    }
}

/// `r` is what `result` becomes once the rollback answered `answer` (`None`
/// when none ran): a failed rollback of a failure becomes `RollbackFailed`
/// with the original error's description and the rollback's message; any
/// other answer leaves the result as it is.
pub open spec fn settled<T, E: std::fmt::Display>(
    result: ExecutionResult<T, E>,
    answer: Option<Result<(), String>>,
    r: ExecutionResult<T, E>,
) -> bool {
    if result is Failed && answer is Some && answer->0 is Err {
        &&& r is Failed
        &&& r->Failed_0 is RollbackFailed
        &&& r->Failed_0->RollbackFailed_rollback == answer->0->Err_0
        &&& result->Failed_0.describes(r->Failed_0->RollbackFailed_original@)
    } else {
        r == result
    }
}

/// The result of an execution once its rollback answered `answer` (see
/// [`settled`]).
pub fn settle_rollback<T, E: std::fmt::Display>(
    result: ExecutionResult<T, E>,
    answer: Option<Result<(), String>>,
) -> (r: ExecutionResult<T, E>)
    ensures
        settled(result, answer, r),
{
    match result {
        ExecutionResult::Failed(original) => match answer {
            Some(Err(rollback)) => {
                let message = original.message();
                ExecutionResult::Failed(ExecutorError::RollbackFailed { original: message, rollback })
            },
            _ => ExecutionResult::Failed(original),
        },
        other => other,
    }
}

impl<E: std::fmt::Display> ExecutionContext<(), E> {
    /// Completes an execution without a value: fetches the result (running
    /// a rollback that was set) and says whether it succeeded.
    pub fn finish(self) -> (success: bool)
        ensures
            success == (self.result_spec() is Success),
    {
        let result = self.get_result();
        result.is_success()
    }
}

} // verus!
