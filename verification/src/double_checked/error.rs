//! Error types of the double-checked lock executor.
use vstd::prelude::*;
use vstd::string::{to_string_from_display_ensures, StringExecFns};

verus! {

/// Executor error types: an unmet condition, a failed task, a failed
/// rollback or a poisoned lock.
///
/// `E` is the error type of the task.
#[derive(Debug)]
pub enum ExecutorError<E> {
    /// Condition not met.
    ConditionNotMet,
    /// Condition not met, with a custom message.
    ConditionNotMetWithMessage(String),
    /// Task execution failed with its original error.
    TaskFailed(E),
    /// Rollback operation failed.
    RollbackFailed {
        /// The original error that triggered the rollback.
        original: String,
        /// The error that occurred during rollback.
        rollback: String,
    },
    /// Lock poisoned.
    LockPoisoned(String),
    /// The preparation action run before the lock failed; its message.
    PrepareFailed(String),
}

impl<E: std::fmt::Display> ExecutorError<E> {
    /// `text` is the human-readable description of this error.
    pub open spec fn describes(&self, text: Seq<char>) -> bool {
        match self {
            ExecutorError::ConditionNotMet => text == "Double-checked lock condition not met"@,
            ExecutorError::ConditionNotMetWithMessage(message) => text
                == "Double-checked lock condition not met: "@ + message@,
            ExecutorError::TaskFailed(error) => exists|shown: String|
                #[trigger] to_string_from_display_ensures::<E>(error, shown) && text
                    == "Task execution failed: "@ + shown@,
            ExecutorError::RollbackFailed { original, rollback } => text == "Rollback failed: original error = "@
                + original@ + ", rollback error = "@ + rollback@,
            ExecutorError::LockPoisoned(message) => text == "Lock poisoned: "@ + message@,
            ExecutorError::PrepareFailed(message) => text == "Prepare action failed: "@ + message@,
        }
    }

    /// The human-readable description of this error.
    pub fn message(&self) -> (text: String)
        ensures
            self.describes(text@),
    {
        match self {
            ExecutorError::ConditionNotMet => String::from_str("Double-checked lock condition not met"),
            ExecutorError::ConditionNotMetWithMessage(message) => String::from_str(
                "Double-checked lock condition not met: ",
            ).concat(message.as_str()),
            ExecutorError::TaskFailed(error) => {
                let shown = error.to_string();
                String::from_str("Task execution failed: ").concat(shown.as_str())
            },
            ExecutorError::RollbackFailed { original, rollback } => String::from_str(
                "Rollback failed: original error = ",
            ).concat(original.as_str()).concat(", rollback error = ").concat(rollback.as_str()),
            ExecutorError::LockPoisoned(message) => String::from_str("Lock poisoned: ").concat(
                message.as_str(),
            ),
            ExecutorError::PrepareFailed(message) => String::from_str(
                "Prepare action failed: ",
            ).concat(message.as_str()),
        }
    }
}

/// Result of an executor call: the task's value or an [`ExecutorError`].
pub type ExecutorResult<R, E> = Result<R, ExecutorError<E>>;

/// Builder error types.
#[derive(Debug, Clone, Copy, PartialEq, Eq, Structural)]
pub enum BuilderError {
    /// Missing required tester parameter.
    MissingTester,
}

} // verus!
