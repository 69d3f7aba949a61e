//! The lock policy: whether the write lock is taken before the operation it
//! surrounds, or only after it.

use super::token_cell::{acquire_write, WriteGuard};
use parking_lot::lock_api::RwLock;
use parking_lot::RawRwLock;
use vstd::prelude::*;

verus! {

/// When the write lock is taken, relative to the operation.
///
/// A source whose fetch makes the server revoke the previous token needs
/// `HoldDuringOperation`: readers are kept out for the whole fetch. A source
/// whose old token stays valid until it expires can use `HoldAfterOperation`:
/// readers go on with the old token while the fetch is under way.
#[derive(Debug, Copy, Clone)]
pub enum LockBehavior {
    /// Hold lock during operation
    HoldDuringOperation,
    /// Hold lock only after operation
    HoldAfterOperation,
}

/// Runs `func` once and takes the write lock of `rw`, in the order that `when`
/// asks for, and returns the guard, still held, with what `func` returned.
///
/// With `HoldDuringOperation` the lock is taken first and `func` runs under
/// it; with `HoldAfterOperation` `func` runs first, unlocked.
pub fn lock_around<'a, F, T, R>(rw: &'a RwLock<RawRwLock, T>, when: LockBehavior, func: F) -> (out: (
    WriteGuard<'a, T>,
    R,
)) where F: FnOnce() -> R
    requires
        func.requires(()),
    ensures
        func.ensures((), out.1),
{
    match when {
        LockBehavior::HoldDuringOperation => {
            let lock = acquire_write(rw);
            let result = func();
            (lock, result)
        },
        LockBehavior::HoldAfterOperation => {
            let result = func();
            let lock = acquire_write(rw);
            (lock, result)
        },
    }
}

} // verus!
