//! Tests for `ArcMutex`.

use qubit_concurrent::{ArcMutex, Lock};

#[test]
fn test_arc_mutex_with_lock_and_try_with_lock() {
    let counter = ArcMutex::new(0);
    let result = counter.with_lock(|c| {
        *c += 1;
        *c
    });
    assert_eq!(result, 1);
    assert_eq!(counter.try_with_lock(|c| *c), Some(1));
}

#[test]
fn test_arc_mutex_clone_shares_the_lock() {
    let counter = ArcMutex::new(0);
    let clone = counter.clone();
    for _ in 0..10 {
        clone.with_lock(|c| *c += 1);
    }
    assert_eq!(counter.with_lock(|c| *c), 10);
}

#[test]
fn test_arc_mutex_try_with_lock_is_none_while_held() {
    let lock = ArcMutex::new(42);
    let same = lock.clone();
    let inner = lock.with_lock(|value| {
        *value += 1;
        same.try_with_lock(|v| *v)
    });
    assert_eq!(inner, None);
    assert_eq!(lock.try_with_lock(|v| *v), Some(43));
}
