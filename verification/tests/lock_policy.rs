use parking_lot::RwLock;

use tokentask::api_connector::lock_around::{lock_around, LockBehavior};
use tokentask::api_connector::two_stage_lock::LockStrategy;

#[test]
fn hold_during_operation_locks_before_the_call() {
    let lock = RwLock::new(0u32);
    let (guard, readable) =
        lock_around(&lock, LockBehavior::HoldDuringOperation, || lock.try_read().is_some());
    assert!(!readable, "a reader got in while the operation ran");
    assert!(lock.try_read().is_none(), "the guard must still be held");
    drop(guard);
    assert!(lock.try_read().is_some());
}

#[test]
fn hold_after_operation_locks_after_the_call() {
    let lock = RwLock::new(0u32);
    let (guard, readable) =
        lock_around(&lock, LockBehavior::HoldAfterOperation, || lock.try_read().is_some());
    assert!(readable, "readers must not be kept out during the operation");
    assert!(lock.try_read().is_none(), "the guard must still be held");
    drop(guard);
    assert!(lock.try_read().is_some());
}

#[test]
fn lock_around_returns_what_the_operation_returned() {
    let lock = RwLock::new(String::new());
    let mut calls = 0;
    let (_guard, out) = lock_around(&lock, LockBehavior::HoldAfterOperation, || {
        calls += 1;
        41 + 1
    });
    assert_eq!(out, 42);
    assert_eq!(calls, 1);
}

#[test]
fn before_fetch_locks_before_the_call() {
    let lock = RwLock::new(0u32);
    let (guard, readable) = tokentask::api_connector::two_stage_lock::lock_around(
        &lock,
        LockStrategy::BeforeFetch,
        || lock.try_read().is_some(),
    );
    assert!(!readable);
    assert!(lock.try_read().is_none());
    drop(guard);
}

#[test]
fn after_fetch_locks_after_the_call() {
    let lock = RwLock::new(0u32);
    let (guard, readable) = tokentask::api_connector::two_stage_lock::lock_around(
        &lock,
        LockStrategy::AfterFetch,
        || lock.try_read().is_some(),
    );
    assert!(readable);
    assert!(lock.try_read().is_none());
    drop(guard);
}
