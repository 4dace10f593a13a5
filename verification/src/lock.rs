//! Closure-based lock abstractions and their `Arc`-sharing wrappers.
//!
//! A lock hands the protected data to a closure and releases itself when the
//! closure returns. The data behind a lock is shared with other threads, so
//! the contracts speak of what the closure returned, never of what the lock
//! holds: the result is an outcome the closure allows for some state of the
//! data.
use crate::std_sync::{
    lock_mutex, mutex_guard_data, new_mutex, new_rw_lock, read_guard_data, read_rw_lock,
    try_lock_mutex, write_guard_data, write_rw_lock,
};
pub use crate::std_sync::{Monitor, MonitorGuard};
use std::sync::{Arc, Mutex, MutexGuard, RwLock};
use vstd::prelude::*;

verus! {

/// Synchronous lock: runs a closure with exclusive access to the data.
pub trait Lock<T> {
    /// Blocks until the lock is held, runs `f` on the data and releases it.
    fn with_lock<R, F>(&self, f: F) -> (r: R) where F: FnOnce(&mut T) -> R
        requires
            forall|data: &mut T| f.requires((data,)),
        ensures
            exists|data: &mut T| f.ensures((data,), r),
    ;

    /// Runs `f` only if the lock can be taken at once; `None` otherwise.
    fn try_with_lock<R, F>(&self, f: F) -> (r: Option<R>) where F: FnOnce(&mut T) -> R
        requires
            forall|data: &mut T| f.requires((data,)),
        ensures
            r is Some ==> exists|data: &mut T| f.ensures((data,), r->0),
    ;
}

/// Synchronous read-write lock: shared access for readers, exclusive access
/// for a writer.
pub trait ReadWriteLock<T> {
    /// Blocks until a shared lock is held and runs `f` on the data.
    fn with_read_lock<R, F>(&self, f: F) -> (r: R) where F: FnOnce(&T) -> R
        requires
            forall|data: &T| f.requires((data,)),
        ensures
            exists|data: &T| f.ensures((data,), r),
    ;

    /// Blocks until the exclusive lock is held and runs `f` on the data.
    fn with_write_lock<R, F>(&self, f: F) -> (r: R) where F: FnOnce(&mut T) -> R
        requires
            forall|data: &mut T| f.requires((data,)),
        ensures
            exists|data: &mut T| f.ensures((data,), r),
    ;
}

/// A mutex whose last holder panicked is entered all the same: the closure
/// sees the data as that holder left it.
impl<T> Lock<T> for Mutex<T> {
    fn with_lock<R, F>(&self, f: F) -> (r: R) where F: FnOnce(&mut T) -> R {
        let mut guard = match lock_mutex(self) {
            Ok(guard) => guard,
            Err(poisoned) => poisoned,
        };
        let data = mutex_guard_data(&mut guard);
        f(data)
    }

    fn try_with_lock<R, F>(&self, f: F) -> (r: Option<R>) where F: FnOnce(&mut T) -> R {
        match try_lock_mutex(self) {
            Some(mut guard) => {
                let value = run_guarded(&mut guard, f);
                assert(exists|data: &mut T| f.ensures((data,), value));
                let result = Some(value);
                assert(result->0 == value);
                result
            },
            None => None,
        }
    }
}

/// Runs `f` on the data of a mutex that the caller already holds.
fn run_guarded<T, R, F>(guard: &mut MutexGuard<'_, T>, f: F) -> (r: R) where F: FnOnce(&mut T) -> R
    requires
        forall|data: &mut T| f.requires((data,)),
    ensures
        exists|data: &mut T| f.ensures((data,), r),
{
    let data = mutex_guard_data(guard);
    f(data)
}

/// A lock whose last writer panicked is entered all the same: the closure
/// sees the data as that writer left it.
impl<T> ReadWriteLock<T> for RwLock<T> {
    fn with_read_lock<R, F>(&self, f: F) -> (r: R) where F: FnOnce(&T) -> R {
        let guard = match read_rw_lock(self) {
            Ok(guard) => guard,
            Err(poisoned) => poisoned,
        };
        let data = read_guard_data(&guard);
        f(data)
    }

    fn with_write_lock<R, F>(&self, f: F) -> (r: R) where F: FnOnce(&mut T) -> R {
        let mut guard = match write_rw_lock(self) {
            Ok(guard) => guard,
            Err(poisoned) => poisoned,
        };
        let data = write_guard_data(&mut guard);
        f(data)
    }
}

/// A mutex shared through an `Arc`: clones refer to the same lock.
#[verifier::reject_recursive_types(T)]
pub struct ArcMutex<T> {
    inner: Arc<Mutex<T>>,
}

impl<T> ArcMutex<T> {
    /// Creates a lock protecting `data`.
    pub fn new(data: T) -> (lock: Self) {
        ArcMutex { inner: Arc::new(new_mutex(data)) }
    }

    /// The mutex that every clone of this value shares.
    pub closed spec fn shared(&self) -> Mutex<T> {
        *self.inner
    }
}

impl<T> Lock<T> for ArcMutex<T> {
    fn with_lock<R, F>(&self, f: F) -> (r: R) where F: FnOnce(&mut T) -> R {
        self.inner.with_lock(f)
    }

    fn try_with_lock<R, F>(&self, f: F) -> (r: Option<R>) where F: FnOnce(&mut T) -> R {
        self.inner.try_with_lock(f)
    }
}

impl<T> Clone for ArcMutex<T> {
    /// Shares the same lock: the clone and the original guard one value.
    fn clone(&self) -> (c: Self)
        ensures
            c.shared() == self.shared(),
    {
        ArcMutex { inner: Arc::clone(&self.inner) }
    }
}

/// A read-write lock shared through an `Arc`: clones refer to the same lock.
#[verifier::reject_recursive_types(T)]
pub struct ArcRwLock<T> {
    inner: Arc<RwLock<T>>,
}

impl<T> ArcRwLock<T> {
    /// Creates a read-write lock protecting `data`.
    pub fn new(data: T) -> (lock: Self) {
        ArcRwLock { inner: Arc::new(new_rw_lock(data)) }
    }

    /// The read-write lock that every clone of this value shares.
    pub closed spec fn shared(&self) -> RwLock<T> {
        *self.inner
    }
}

impl<T> ReadWriteLock<T> for ArcRwLock<T> {
    fn with_read_lock<R, F>(&self, f: F) -> (r: R) where F: FnOnce(&T) -> R {
        self.inner.with_read_lock(f)
    }

    fn with_write_lock<R, F>(&self, f: F) -> (r: R) where F: FnOnce(&mut T) -> R {
        self.inner.with_write_lock(f)
    }
}

impl<T> Clone for ArcRwLock<T> {
    /// Shares the same lock: the clone and the original guard one value.
    fn clone(&self) -> (c: Self)
        ensures
            c.shared() == self.shared(),
    {
        ArcRwLock { inner: Arc::clone(&self.inner) }
    }
}

} // verus!
