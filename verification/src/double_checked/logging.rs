//! Where the executor and the execution builder send their log records.
//!
//! The records are the configured message when the condition is not met,
//! and the error of a failed preparation, outside action or rollback. The
//! library builds each message and hands it to a [`LogSink`]; a sink that
//! forwards to the `log` facade lives with the application.
use crate::double_checked::config::LogConfig;
use std::sync::Arc;
use vstd::prelude::*;

verus! {

/// A destination for log records.
pub trait LogSink: Send + Sync {
    /// Records `message` at `level`.
    fn record(&self, level: log::Level, message: &str);

    /// Records `message` at the error level.
    fn record_error(&self, message: &str);

    /// Records `message` at the warning level.
    fn record_warning(&self, message: &str);
}

/// A shareable log sink.
pub struct SharedLogSink {
    sink: Box<dyn LogSink>,
}

impl SharedLogSink {
    /// Wraps a log sink.
    pub fn new(sink: Box<dyn LogSink>) -> (shared: Self) {
        SharedLogSink { sink }
    }

    /// Records `message` at `level`.
    pub fn record(&self, level: log::Level, message: &str) {
        self.sink.record(level, message)
    }

    /// Records `message` at the error level.
    pub fn record_error(&self, message: &str) {
        self.sink.record_error(message)
    }

    /// Records `message` at the warning level.
    pub fn record_warning(&self, message: &str) {
        self.sink.record_warning(message)
    }
}

/// Records the configured message of an unmet condition at its level, when
/// both a configuration and a sink are set.
pub fn log_condition_not_met(logger: &Option<LogConfig>, sink: &Option<Arc<SharedLogSink>>) {
    if let Some(config) = logger {
        if let Some(sink) = sink {
            sink.record(config.level, config.message.as_str());
        }
    }
}

/// Records `message` at the error level when a sink is set.
pub fn log_error(sink: &Option<Arc<SharedLogSink>>, message: &str) {
    if let Some(sink) = sink {
        sink.record_error(message);
    }
}

/// Records `message` at the warning level when a sink is set.
pub fn log_warning(sink: &Option<Arc<SharedLogSink>>, message: &str) {
    if let Some(sink) = sink {
        sink.record_warning(message);
    }
}

} // verus!
