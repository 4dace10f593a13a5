//! Concurrency utilities: closure-based locks, a double-checked lock
//! executor, a fixed-size thread pool and a task execution service.
pub mod double_checked;
pub mod lock;
pub mod std_sync;
pub mod task;

pub use double_checked::{
    BuilderError, DoubleCheckedLockExecutor, ExecutionBuilder, ExecutionContext, ExecutionResult,
    ExecutorError,
};
pub use lock::{ArcMutex, ArcRwLock, Lock, Monitor, MonitorGuard, ReadWriteLock};
