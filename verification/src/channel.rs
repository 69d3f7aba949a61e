//! The control channel between a handle and its worker: `std::sync::mpsc`.

use std::sync::mpsc::{Receiver, RecvTimeoutError, Sender};
use std::time::Duration;
use vstd::prelude::*;

verus! {

/// `std::sync::mpsc::Sender`: carried around as it is, never looked into.
#[verifier::external_type_specification]
#[verifier::external_body]
#[verifier::reject_recursive_types(T)]
pub struct ExSender<T>(Sender<T>);

/// `std::sync::mpsc::Receiver`: carried around as it is, never looked into.
#[verifier::external_type_specification]
#[verifier::external_body]
#[verifier::reject_recursive_types(T)]
pub struct ExReceiver<T>(Receiver<T>);

/// Why a wait on the control channel ended without a message.
#[derive(Debug, Copy, Clone, PartialEq, Eq)]
pub enum WaitEnd {
    /// The wait ran out: nothing was sent in time.
    Timeout,
    /// Every sender is gone: nothing can be sent any more.
    Disconnected,
}

/// `std::sync::mpsc::channel`: a new channel, as its two ends.
#[verifier::external_body]
pub(crate) fn channel<T>() -> (ends: (Sender<T>, Receiver<T>)) {
    std::sync::mpsc::channel()
}

/// `Sender::send`: hands `message` to the channel. Where the receiver is gone
/// the message is dropped; the call never blocks.
#[verifier::external_body]
pub(crate) fn send<T>(sender: &Sender<T>, message: T) {
    let _ = sender.send(message);
}

/// `Receiver::recv_timeout`: waits for a message, for `wait` at most. Which of
/// the three ways it ends depends on the other threads and on the clock, so
/// nothing is stated of the result.
#[verifier::external_body]
pub(crate) fn recv_timeout<T>(receiver: &Receiver<T>, wait: Duration) -> (signal: Result<T, WaitEnd>) {
    match receiver.recv_timeout(wait) {
        Ok(message) => Ok(message),
        Err(RecvTimeoutError::Timeout) => Err(WaitEnd::Timeout),
        Err(RecvTimeoutError::Disconnected) => Err(WaitEnd::Disconnected),
    }
}

} // verus!
