//! Tests for `ArcRwLock`.

use qubit_concurrent::{ArcRwLock, ReadWriteLock};
use std::collections::HashMap;

#[test]
fn test_arc_rw_lock_new() {
    let rw_lock = ArcRwLock::new(42);
    let result = rw_lock.with_read_lock(|value| *value);
    assert_eq!(result, 42);
}

#[test]
fn test_arc_rw_lock_with_read_lock() {
    let rw_lock = ArcRwLock::new(0);

    // Test read lock
    let result = rw_lock.with_read_lock(|value| *value);
    assert_eq!(result, 0);
}

#[test]
fn test_arc_rw_lock_with_write_lock() {
    let rw_lock = ArcRwLock::new(0);

    // Test write lock
    let result = rw_lock.with_write_lock(|value| {
        *value += 1;
        *value
    });
    assert_eq!(result, 1);
}

#[test]
fn test_arc_rw_lock_clone() {
    let rw_lock = ArcRwLock::new(0);
    let rw_lock_clone = rw_lock.clone();

    // Test cloned read-write lock
    let result = rw_lock_clone.with_write_lock(|value| {
        *value += 1;
        *value
    });
    assert_eq!(result, 1);

    // Verify that original lock can see changes
    let result = rw_lock.with_read_lock(|value| *value);
    assert_eq!(result, 1);
}

#[test]
fn test_arc_rw_lock_read_after_write() {
    let rw_lock = ArcRwLock::new(String::from("Hello"));

    // Write operation
    rw_lock.with_write_lock(|s| {
        s.push_str(" World");
    });

    // Read operation should see the change
    let result = rw_lock.with_read_lock(|s| s.clone());
    assert_eq!(result, "Hello World");
}

#[test]
fn test_arc_rw_lock_with_complex_types() {
    let rw_lock = ArcRwLock::new(vec![1, 2, 3]);

    // Multiple readers can access concurrently
    let len = rw_lock.with_read_lock(|v| v.len());
    assert_eq!(len, 3);

    // Writer modifies the data
    rw_lock.with_write_lock(|v| {
        v.push(4);
        v.push(5);
    });

    // Reader sees the updated data
    let sum = rw_lock.with_read_lock(|v| v.iter().sum::<i32>());
    assert_eq!(sum, 15);
}

#[test]
fn test_arc_rw_lock_read_lock_returns_closure_result() {
    let rw_lock = ArcRwLock::new(vec![10, 20, 30]);

    let result = rw_lock.with_read_lock(|v| {
        v.iter().map(|&x| x * 2).collect::<Vec<_>>()
    });

    assert_eq!(result, vec![20, 40, 60]);

    // Original should be unchanged
    let original = rw_lock.with_read_lock(|v| v.clone());
    assert_eq!(original, vec![10, 20, 30]);
}

#[test]
fn test_arc_rw_lock_write_lock_returns_closure_result() {
    let rw_lock = ArcRwLock::new(5);

    let result = rw_lock.with_write_lock(|value| {
        *value *= 2;
        *value
    });

    assert_eq!(result, 10);

    // Verify the value was actually modified
    let current = rw_lock.with_read_lock(|value| *value);
    assert_eq!(current, 10);
}

#[test]
fn test_arc_rw_lock_nested_data_structures() {
    let rw_lock = ArcRwLock::new(HashMap::new());

    rw_lock.with_write_lock(|map| {
        map.insert("key1", 10);
        map.insert("key2", 20);
    });

    let value1 = rw_lock.with_read_lock(|map| map.get("key1").copied());
    assert_eq!(value1, Some(10));

    let value2 = rw_lock.with_read_lock(|map| map.get("key2").copied());
    assert_eq!(value2, Some(20));
}
