//! A token cell behind `std::sync::Mutex`, for the engine that hands out
//! snapshots.
//!
//! As with any shared lock, what the cell holds is only known through a
//! guard; [`locked_value`] names it.

use crate::token::token_view;
use std::sync::{Mutex, MutexGuard};
use vstd::prelude::*;

verus! {

/// `std::sync::Mutex`: carried around as it is, never looked into.
#[verifier::external_type_specification]
#[verifier::external_body]
#[verifier::reject_recursive_types(T)]
pub struct ExMutex<T: ?Sized>(Mutex<T>);

/// `std::sync::MutexGuard`: exclusive access to what a mutex protects, until
/// it is dropped.
#[verifier::external_type_specification]
#[verifier::external_body]
#[verifier::reject_recursive_types(T)]
pub struct ExMutexGuard<'a, T: ?Sized + 'a>(MutexGuard<'a, T>);

/// The token that the cell holds while `guard` has it locked.
pub uninterp spec fn locked_value(guard: MutexGuard<'_, Option<String>>) -> Option<Seq<char>>;

/// `Mutex::new`: a mutex around `value`.
#[verifier::external_body]
pub(crate) fn new_mutex<T>(value: T) -> (mutex: Mutex<T>) {
    Mutex::new(value)
}

/// `Mutex::lock`: blocks until the mutex is free, then locks it. Returns
/// nothing where a thread panicked while it held the mutex. It is not to be
/// called by a thread that holds the mutex already, and no caller here does:
/// every guard is dropped in the function that took it.
#[verifier::external_body]
pub(crate) fn lock<'a, T>(mutex: &'a Mutex<T>) -> (guard: Option<MutexGuard<'a, T>>) {
    match mutex.lock() {
        Ok(guard) => Some(guard),
        Err(_) => None,
    }
}

/// `Mutex::try_lock`: locks the mutex if it is free, without waiting. Returns
/// nothing where it is held at the moment, or where a thread panicked while
/// it held the mutex.
#[verifier::external_body]
pub(crate) fn try_lock<'a, T>(mutex: &'a Mutex<T>) -> (guard: Option<MutexGuard<'a, T>>) {
    match mutex.try_lock() {
        Ok(guard) => Some(guard),
        Err(_) => None,
    }
}

/// Assignment through `MutexGuard`'s `DerefMut`: the cell holds `value` from
/// now on.
#[verifier::external_body]
pub(crate) fn store_locked(guard: &mut MutexGuard<'_, Option<String>>, value: Option<String>)
    ensures
        locked_value(*final(guard)) == token_view(value),
{
    **guard = value;
}

/// `MutexGuard`'s `Deref`: a reference to what the cell holds.
#[verifier::external_body]
pub(crate) fn peek_locked<'g>(guard: &'g MutexGuard<'_, Option<String>>) -> (value: &'g Option<
    String,
>)
    ensures
        token_view(*value) == locked_value(*guard),
{
    &**guard
}

} // verus!
