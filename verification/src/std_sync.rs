//! Declarations of the `std::sync` primitives that the library builds on,
//! the small trusted calls into them, and [`Monitor`], which ties a
//! condition variable to its one mutex.
//!
//! The trusted calls state only what the standard library documents of
//! them. A poisoned lock is handed back to the caller, which decides. What a
//! lock holds is never described, because other threads may change it at
//! any time.
use std::sync::{Condvar, Mutex, MutexGuard, RwLock, RwLockReadGuard, RwLockWriteGuard};
use std::time::Duration;
use vstd::prelude::*;

verus! {

/// `std::sync::Mutex`, carried through verified code as an opaque value.
#[verifier::external_type_specification]
#[verifier::external_body]
#[verifier::reject_recursive_types(T)]
pub struct ExMutex<T: ?Sized>(Mutex<T>);

/// `std::sync::MutexGuard`, the proof that the current thread holds a mutex.
#[verifier::external_type_specification]
#[verifier::external_body]
#[verifier::reject_recursive_types(T)]
pub struct ExMutexGuard<'a, T: ?Sized + 'a>(MutexGuard<'a, T>);

/// `std::sync::RwLock`, carried through verified code as an opaque value.
#[verifier::external_type_specification]
#[verifier::external_body]
#[verifier::reject_recursive_types(T)]
pub struct ExRwLock<T: ?Sized>(RwLock<T>);

/// `std::sync::RwLockReadGuard`, a held shared lock.
#[verifier::external_type_specification]
#[verifier::external_body]
#[verifier::reject_recursive_types(T)]
pub struct ExRwLockReadGuard<'a, T: ?Sized>(RwLockReadGuard<'a, T>);

/// `std::sync::RwLockWriteGuard`, a held exclusive lock.
#[verifier::external_type_specification]
#[verifier::external_body]
#[verifier::reject_recursive_types(T)]
pub struct ExRwLockWriteGuard<'a, T: ?Sized + 'a>(RwLockWriteGuard<'a, T>);

/// `std::sync::Condvar`, carried through verified code as an opaque value.
#[verifier::external_type_specification]
#[verifier::external_body]
pub struct ExCondvar(Condvar);

/// Calls `Mutex::new`: a fresh mutex that holds `value`.
/// Nothing is stated of the result, whose contents are not modelled.
#[verifier::external_body]
pub(crate) fn new_mutex<T>(value: T) -> Mutex<T> {
    Mutex::new(value)
}

/// Calls `Mutex::lock` and blocks until the calling thread holds the mutex:
/// `Ok` with the guard, or `Err` with the guard taken out of the poison
/// error when a thread panicked while holding the mutex. The caller decides
/// what poisoning means.
///
/// std leaves a call made by a thread that already holds the mutex
/// unspecified (it deadlocks or panics). Which thread holds a lock is not a
/// function of the arguments, so no clause excludes that call; nothing in
/// this crate takes a lock it already holds.
#[verifier::external_body]
pub(crate) fn lock_mutex<T: ?Sized>(mutex: &Mutex<T>) -> Result<MutexGuard<'_, T>, MutexGuard<'_, T>> {
    match mutex.lock() {
        Ok(guard) => Ok(guard),
        Err(poisoned) => Err(poisoned.into_inner()),
    }
}

/// Calls `Mutex::try_lock`: `Some` guard when the mutex was free and not
/// poisoned, `None` otherwise. Which of the two comes back depends on other
/// threads, so nothing is stated.
#[verifier::external_body]
pub(crate) fn try_lock_mutex<T: ?Sized>(mutex: &Mutex<T>) -> Option<MutexGuard<'_, T>> {
    mutex.try_lock().ok()
}

/// Dereferences a `MutexGuard` (`DerefMut::deref_mut`) to the protected data.
#[verifier::external_body]
pub(crate) fn mutex_guard_data<'b, 'a, T: ?Sized>(guard: &'b mut MutexGuard<'a, T>) -> &'b mut T {
    &mut **guard
}

/// Calls `RwLock::new`: a fresh read-write lock that holds `value`.
#[verifier::external_body]
pub(crate) fn new_rw_lock<T>(value: T) -> RwLock<T> {
    RwLock::new(value)
}

/// Calls `RwLock::read` and blocks until a shared lock is held: `Ok` with
/// the guard, or `Err` with the guard taken out of the poison error. A call
/// by a thread that already holds the lock may deadlock or panic, as for
/// [`lock_mutex`]; no clause can exclude it.
#[verifier::external_body]
pub(crate) fn read_rw_lock<T: ?Sized>(lock: &RwLock<T>) -> Result<
    RwLockReadGuard<'_, T>,
    RwLockReadGuard<'_, T>,
> {
    match lock.read() {
        Ok(guard) => Ok(guard),
        Err(poisoned) => Err(poisoned.into_inner()),
    }
}

/// Calls `RwLock::write` and blocks until the exclusive lock is held: `Ok`
/// with the guard, or `Err` with the guard taken out of the poison error. A
/// call by a thread that already holds the lock may deadlock or panic, as
/// for [`lock_mutex`]; no clause can exclude it.
#[verifier::external_body]
pub(crate) fn write_rw_lock<T: ?Sized>(lock: &RwLock<T>) -> Result<
    RwLockWriteGuard<'_, T>,
    RwLockWriteGuard<'_, T>,
> {
    match lock.write() {
        Ok(guard) => Ok(guard),
        Err(poisoned) => Err(poisoned.into_inner()),
    }
}

/// Dereferences a `RwLockReadGuard` (`Deref::deref`) to the protected data.
#[verifier::external_body]
pub(crate) fn read_guard_data<'b, 'a, T: ?Sized>(guard: &'b RwLockReadGuard<'a, T>) -> &'b T {
    &**guard
}

/// Dereferences a `RwLockWriteGuard` (`DerefMut::deref_mut`) to the data.
#[verifier::external_body]
pub(crate) fn write_guard_data<'b, 'a, T: ?Sized>(
    guard: &'b mut RwLockWriteGuard<'a, T>,
) -> &'b mut T {
    &mut **guard
}

/// Calls `Condvar::new`.
#[verifier::external_body]
fn new_condvar() -> Condvar {
    Condvar::new()
}

/// Calls `Condvar::notify_all`: wakes every waiting thread.
#[verifier::external_body]
fn notify_all(condvar: &Condvar) {
    condvar.notify_all()
}

/// Calls `Duration::new` with a nanosecond part below one second, so that
/// nothing carries over into the seconds and the call cannot panic.
/// Nothing is stated of the result: `Duration` is opaque here.
#[verifier::external_body]
pub(crate) fn duration_from_parts(secs: u64, nanos: u32) -> Duration
    requires
        nanos < 1_000_000_000,
{
    Duration::new(secs, nanos)
}

/// A mutex with the one condition variable that is ever used with it.
///
/// The condition variable is private and only waited on through a
/// [`MonitorGuard`], which only [`Monitor::lock`] makes, from this
/// monitor's own mutex: the condition variable never meets another mutex.
#[verifier::reject_recursive_types(T)]
pub struct Monitor<T> {
    mutex: Mutex<T>,
    condvar: Condvar,
}

/// The held mutex of a [`Monitor`], with the monitor it belongs to.
#[verifier::reject_recursive_types(T)]
pub struct MonitorGuard<'a, T> {
    monitor: &'a Monitor<T>,
    guard: MutexGuard<'a, T>,
}

impl<'a, T> MonitorGuard<'a, T> {
    /// The monitor whose mutex this guard holds.
    pub closed spec fn monitor(&self) -> &'a Monitor<T> {
        self.monitor
    }
}

/// Calls `Condvar::wait` on the guard's own monitor: releases the mutex,
/// blocks until woken (possibly spuriously) and reacquires it. `Ok` with the
/// guard, or `Err` with the guard taken out of the poison error. The guard
/// comes back for the same monitor.
#[verifier::external_body]
fn wait_monitor<'a, T>(held: MonitorGuard<'a, T>) -> (r: Result<
    MonitorGuard<'a, T>,
    MonitorGuard<'a, T>,
>)
    ensures
        match r {
            Ok(guard) => guard.monitor() == held.monitor(),
            Err(guard) => guard.monitor() == held.monitor(),
        },
{
    let MonitorGuard { monitor, guard } = held;
    match monitor.condvar.wait(guard) {
        Ok(guard) => Ok(MonitorGuard { monitor, guard }),
        Err(poisoned) => Err(MonitorGuard { monitor, guard: poisoned.into_inner() }),
    }
}

/// Calls `Condvar::wait_timeout` on the guard's own monitor: like
/// [`wait_monitor`], but gives up once `timeout` has elapsed. The flag is
/// `WaitTimeoutResult::timed_out` of the answer, which depends on timing, so
/// nothing is stated of it.
#[verifier::external_body]
fn wait_monitor_timeout<'a, T>(held: MonitorGuard<'a, T>, timeout: Duration) -> (r: Result<
    (MonitorGuard<'a, T>, bool),
    (MonitorGuard<'a, T>, bool),
>)
    ensures
        match r {
            Ok(answer) => answer.0.monitor() == held.monitor(),
            Err(answer) => answer.0.monitor() == held.monitor(),
        },
{
    let MonitorGuard { monitor, guard } = held;
    match monitor.condvar.wait_timeout(guard, timeout) {
        Ok((guard, status)) => Ok((MonitorGuard { monitor, guard }, status.timed_out())),
        Err(poisoned) => {
            let (guard, status) = poisoned.into_inner();
            Err((MonitorGuard { monitor, guard }, status.timed_out()))
        },
    }
}

impl<T> Monitor<T> {
    /// A monitor protecting `value`.
    pub fn new(value: T) -> (monitor: Self) {
        Monitor { mutex: new_mutex(value), condvar: new_condvar() }
    }

    /// Blocks until the calling thread holds the mutex. A poisoned mutex is
    /// entered all the same: the state it protects is kept consistent by
    /// every holder, whatever a panicking caller was doing.
    pub fn lock(&self) -> (guard: MonitorGuard<'_, T>)
        ensures
            guard.monitor() == self,
    {
        let guard = match lock_mutex(&self.mutex) {
            Ok(guard) => guard,
            Err(poisoned) => poisoned,
        };
        MonitorGuard { monitor: self, guard }
    }

    /// Wakes every thread waiting on this monitor.
    pub fn notify_all(&self) {
        notify_all(&self.condvar)
    }

    /// `data` is a borrow of the value that this monitor protects, handed
    /// out by [`MonitorGuard::data`] while the mutex is held. Only that
    /// method states it, so outside this module it holds of no other
    /// reference: what a caller proves of such a borrow it proves of the
    /// protected value.
    pub closed spec fn lends(&self, data: &mut T) -> bool {
        true
    }
}

impl<'a, T> MonitorGuard<'a, T> {
    /// The protected data.
    pub fn data(&mut self) -> (data: &mut T)
        ensures
            old(self).monitor().lends(data),
            final(self).monitor() == old(self).monitor(),
    {
        mutex_guard_data(&mut self.guard)
    }

    /// Waits for a notification on this guard's monitor and holds its mutex
    /// again; a poisoned mutex is entered all the same.
    pub fn wait(self) -> (guard: MonitorGuard<'a, T>)
        ensures
            guard.monitor() == self.monitor(),
    {
        match wait_monitor(self) {
            Ok(guard) => guard,
            Err(poisoned) => poisoned,
        }
    }

    /// Waits for a notification on this guard's monitor for at most
    /// `timeout`, holds its mutex again and says whether the wait timed out;
    /// a poisoned mutex is entered all the same.
    pub fn wait_timeout(self, timeout: Duration) -> (r: (MonitorGuard<'a, T>, bool))
        ensures
            r.0.monitor() == self.monitor(),
    {
        match wait_monitor_timeout(self, timeout) {
            Ok(answer) => answer,
            Err(poisoned) => poisoned,
        }
    }
}

} // verus!
