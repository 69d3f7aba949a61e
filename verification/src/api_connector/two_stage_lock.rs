//! The lock policy under its other name: the two stages of a refresh, taking
//! the lock and fetching, in either order.

use super::token_cell::{acquire_write, WriteGuard};
use parking_lot::lock_api::RwLock;
use parking_lot::RawRwLock;
use vstd::prelude::*;

verus! {

/// Which of the two stages comes first.
#[derive(Debug, Copy, Clone)]
pub enum LockStrategy {
    /// Take the write lock, then fetch under it.
    BeforeFetch,
    /// Fetch unlocked, then take the write lock.
    AfterFetch,
}

/// Runs `func` once and takes the write lock of `rw`, in the order that `when`
/// asks for, and returns the guard, still held, with what `func` returned.
pub fn lock_around<'a, F, T, R>(rw: &'a RwLock<RawRwLock, T>, when: LockStrategy, func: F) -> (out: (
    WriteGuard<'a, T>,
    R,
)) where F: FnOnce() -> R
    requires
        func.requires(()),
    ensures
        func.ensures((), out.1),
{
    match when {
        LockStrategy::BeforeFetch => {
            let lock = acquire_write(rw);
            let result = func();
            (lock, result)
        },
        LockStrategy::AfterFetch => {
            let result = func();
            let lock = acquire_write(rw);
            (lock, result)
        },
    }
}

} // verus!
