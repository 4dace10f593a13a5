//! Task execution: a fixed-size thread pool, an elastic pool that grows
//! between a core and a maximum size, and a task service built on the
//! fixed-size pool.
pub mod elastic_pool;
pub mod pool_job;
pub mod rejected_execution;
pub mod shutdown_report;
pub mod task_execution_service;
pub mod thread_pool;

pub use elastic_pool::{
    ElasticPoolConfig, ElasticPoolInner, ElasticPoolState, ElasticPoolStats, KeepAlive,
};
pub use pool_job::{PoolCallback, PoolJob};
pub use rejected_execution::RejectedExecution;
pub use shutdown_report::ShutdownReport;
pub use task_execution_service::{
    CancelHook, TaskCancel, TaskExecutionService, TaskExecutionServiceBuilder,
    TaskExecutionServiceError, TaskExecutionServiceState, TaskExecutionStats, TaskId, TaskStatus,
};
pub use thread_pool::{
    ThreadPool, ThreadPoolBuildError, ThreadPoolBuilder, ThreadPoolInner, WorkerPoll,
};
