//! Configuration structures for the double-checked lock executor.
use vstd::prelude::*;

verus! {

/// `log::Level`, the severity a log configuration names.
#[verifier::external_type_specification]
#[verifier::external_body]
pub struct ExLevel(log::Level);

/// `Clone::clone` of `log::Level`, which derives `Clone` and `Copy`: the
/// clone is the same level.
pub assume_specification[<log::Level as Clone>::clone](level: &log::Level) -> (copy: log::Level)
    ensures
        copy == *level,
;

/// Log configuration: the level and message logged when the executor's
/// condition is not met.
#[derive(Debug, Clone)]
pub struct LogConfig {
    /// Log level for the message.
    pub level: log::Level,
    /// Log message content.
    pub message: String,
}

/// Executor configuration: performance metrics and error backtraces.
#[derive(Debug, Clone)]
pub struct ExecutorConfig {
    /// Whether to enable performance metrics collection.
    pub enable_metrics: bool,
    /// Whether to disable error backtrace for performance.
    pub disable_backtrace: bool,
}

impl Default for ExecutorConfig {
    /// Metrics disabled and backtraces enabled.
    fn default() -> (config: Self)
        ensures
            config.enable_metrics == false,
            config.disable_backtrace == false,
    {
        ExecutorConfig { enable_metrics: false, disable_backtrace: false }
    }
}

} // verus!
