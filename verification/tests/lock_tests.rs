//! Tests for the `Lock` trait and its implementation for `std::sync::Mutex`.

use qubit_concurrent::Lock;
use std::sync::Mutex;

#[test]
fn test_mutex_with_lock_basic_operations() {
    let mutex = Mutex::new(0);

    // Test basic lock and modify
    let result = mutex.with_lock(|value| {
        *value += 1;
        *value
    });
    assert_eq!(result, 1);

    // Verify the value was persisted
    let result = mutex.with_lock(|value| *value);
    assert_eq!(result, 1);
}

#[test]
fn test_mutex_with_lock_returns_closure_result() {
    let mutex = Mutex::new(vec![1, 2, 3]);

    let length = mutex.with_lock(|v| v.len());
    assert_eq!(length, 3);

    let sum = mutex.with_lock(|v| v.iter().sum::<i32>());
    assert_eq!(sum, 6);
}

#[test]
fn test_mutex_try_with_lock_success() {
    let mutex = Mutex::new(42);

    // Should successfully acquire the lock
    let result = mutex.try_with_lock(|value| *value);
    assert_eq!(result, Some(42));

    // Should be able to modify
    let result = mutex.try_with_lock(|value| {
        *value += 1;
        *value
    });
    assert_eq!(result, Some(43));
}

#[test]
fn test_mutex_with_lock_complex_types() {
    let mutex = Mutex::new(String::from("Hello"));

    mutex.with_lock(|s| {
        s.push_str(" World");
    });

    let result = mutex.with_lock(|s| s.clone());
    assert_eq!(result, "Hello World");
}

#[test]
fn test_mutex_nested_operations() {
    let mutex = Mutex::new(vec![1, 2, 3]);

    let result = mutex.with_lock(|v| {
        v.push(4);
        v.push(5);
        v.iter().map(|&x| x * 2).collect::<Vec<_>>()
    });

    assert_eq!(result, vec![2, 4, 6, 8, 10]);

    // Verify original was modified
    let original = mutex.with_lock(|v| v.clone());
    assert_eq!(original, vec![1, 2, 3, 4, 5]);
}
