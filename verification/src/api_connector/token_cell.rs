//! The shared token cell: an optional token behind `parking_lot`'s read/write
//! lock, and the guards through which it is written and read.
//!
//! The lock is shared between threads, so nothing is known of what it holds
//! until a guard has been taken. What a guard gives access to is named by
//! [`held_value`] and [`seen_value`]; it stays as it is for as long as the
//! guard lives, but for the writes made through the guard itself.

use crate::token::token_view;
use parking_lot::lock_api::RwLock;
use parking_lot::RawRwLock;
use vstd::prelude::*;

verus! {

/// `lock_api::RwLock`, which `parking_lot::RwLock` is an alias of: carried
/// around as it is, never looked into.
#[verifier::external_type_specification]
#[verifier::external_body]
#[verifier::reject_recursive_types(R)]
#[verifier::reject_recursive_types(T)]
pub struct ExRwLock<R, T: ?Sized>(RwLock<R, T>);

/// `parking_lot::RawRwLock`, the lock that `parking_lot::RwLock` is built on.
#[verifier::external_type_specification]
#[verifier::external_body]
pub struct ExRawRwLock(RawRwLock);

/// Exclusive access to what a lock protects: `parking_lot::RwLockWriteGuard`,
/// held in a field that is never looked into. The lock is released when the
/// guard is dropped.
#[verifier::external_body]
#[verifier::reject_recursive_types(T)]
pub struct WriteGuard<'a, T> {
    guard: parking_lot::RwLockWriteGuard<'a, T>,
}

/// Shared access to what a lock protects: `parking_lot::RwLockReadGuard`,
/// held in a field that is never looked into. No writer gets the lock before
/// the guard is dropped.
#[verifier::external_body]
#[verifier::reject_recursive_types(T)]
pub struct ReadGuard<'a, T> {
    guard: parking_lot::RwLockReadGuard<'a, T>,
}

/// The token that the cell holds while `guard` has it locked for writing.
pub uninterp spec fn held_value(guard: WriteGuard<'_, Option<String>>) -> Option<Seq<char>>;

/// The token that the cell holds while `guard` has it locked for reading.
pub uninterp spec fn seen_value(guard: ReadGuard<'_, Option<String>>) -> Option<Seq<char>>;

/// The lock that `guard` is a guard of: what `RwLockReadGuard::rwlock`
/// returns for it.
pub uninterp spec fn read_lock_of(guard: ReadGuard<'_, Option<String>>) -> RwLock<
    RawRwLock,
    Option<String>,
>;

/// `RwLock::new`: a lock around `value`. Nothing is stated of it: what a
/// shared lock holds is only known through a guard.
#[verifier::external_body]
pub(crate) fn new_lock<T>(value: T) -> (lock: RwLock<RawRwLock, T>) {
    RwLock::new(value)
}

/// `RwLock::write`: blocks until no reader and no other writer has the lock,
/// then hands out exclusive access. It does not return while the calling
/// thread itself still holds a guard of the same lock.
#[verifier::external_body]
pub(crate) fn acquire_write<'a, T>(lock: &'a RwLock<RawRwLock, T>) -> (guard: WriteGuard<'a, T>) {
    WriteGuard { guard: lock.write() }
}

/// `RwLock::read`: blocks until no writer has the lock, then hands out shared
/// access, as a guard of that lock. It does not return while the calling
/// thread itself holds the write guard of the same lock.
#[verifier::external_body]
pub(crate) fn acquire_read<'a>(lock: &'a RwLock<RawRwLock, Option<String>>) -> (guard: ReadGuard<
    'a,
    Option<String>,
>)
    ensures
        read_lock_of(guard) == *lock,
{
    ReadGuard { guard: lock.read() }
}

/// Assignment through `RwLockWriteGuard`'s `DerefMut`: the cell holds `value`
/// from now on.
#[verifier::external_body]
pub(crate) fn store(guard: &mut WriteGuard<'_, Option<String>>, value: Option<String>)
    ensures
        held_value(*final(guard)) == token_view(value),
{
    *guard.guard = value;
}

/// `RwLockReadGuard`'s `Deref`: a reference to what the cell holds.
#[verifier::external_body]
pub(crate) fn peek<'g>(guard: &'g ReadGuard<'_, Option<String>>) -> (value: &'g Option<String>)
    ensures
        token_view(*value) == seen_value(*guard),
{
    &*guard.guard
}

impl<'a> ReadGuard<'a, Option<String>> {
    /// The token that the cell holds, if it holds one.
    pub fn token<'g>(&'g self) -> (out: Option<&'g str>)
        ensures
            match out {
                Some(text) => seen_value(*self) == Some(text@),
                None => seen_value(*self) is None,
            },
    {
        match peek(self) {
            Some(text) => Some(text.as_str()),
            None => None,
        }
    }
}

} // verus!
