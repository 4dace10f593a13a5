# qubit_concurrent

Concurrency utilities whose logic is verified with Verus.

- `src/lock.rs`: closure-based `Lock` and `ReadWriteLock` traits over
  `std::sync` locks, and the `Arc`-sharing `ArcMutex` and `ArcRwLock`.
- `src/double_checked/`: the double-checked lock executor and its fluent
  execution builder. The condition is tested before and after taking the
  lock. Each run is split into steps that take the condition's, the
  preparation's and the rollback's answers as arguments, and each step's
  contract is exact. Log records go to a `LogSink`.
- `src/task/thread_pool.rs`: a fixed-size pool. Its decisions live in a
  state machine stated exactly over `PoolStateView`, with laws on shutdown,
  queue order and well-formedness.
- `src/task/elastic_pool.rs`: a pool that grows from a core size to a
  maximum size, starts workers through a caller-supplied spawner, and lets
  idle workers retire after a keep-alive. Its laws bound the workers a
  submission may start and keep the job accounting.
- `src/task/task_execution_service.rs`: business task IDs, status tracking,
  cancellation before start and suspension, over a registry stated as a
  map from IDs to records. Starting, cancelling and finishing a task are
  decided by the registry under its lock, so a status only moves from
  submitted to running to an outcome, or from submitted to cancelled.
- `src/std_sync.rs`: the trusted calls into `std::sync` and
  `std::time::Duration`, and `Monitor`, which ties a condition variable to
  its one mutex. A poisoned lock is handed back to verified code, which
  decides.

`app/` holds what Verus does not see: worker threads, blocking waits, task
handles, the asynchronous locks on Tokio, the simple executors, a log sink
for the `log` facade, and copies of the error types with `Display`.
