//! Double-checked lock executor: a condition is tested before taking a
//! lock and again while holding it, and a task runs only if both tests pass.
pub mod builder;
pub mod callbacks;
pub mod config;
pub mod error;
pub mod executor;
pub mod logging;
pub mod result;

pub use builder::ExecutionBuilder;
pub use config::{ExecutorConfig, LogConfig};
pub use error::{BuilderError, ExecutorError};
pub use executor::{DoubleCheckedLockExecutor, DoubleCheckedLockExecutorBuilder};
pub use logging::{LogSink, SharedLogSink};
pub use result::{ExecutionContext, ExecutionResult};
