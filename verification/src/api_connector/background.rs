//! The refresh cycle and the state that the worker shares with its readers.

use super::fetch_strategy::{installed, next_wait, FetchStrategy, TokenError, TokenSuccess};
use super::lock_around::{lock_around, LockBehavior};
use super::token_cell::{
    acquire_read, held_value, new_lock, read_lock_of, store, ReadGuard, WriteGuard,
};
use crate::channel::{channel, recv_timeout, send, WaitEnd};
use parking_lot::lock_api::RwLock;
use parking_lot::RawRwLock;
use std::ops::ControlFlow;
use std::sync::mpsc::{Receiver, Sender};
use std::sync::Arc;
use std::time::Duration;
use vstd::prelude::*;

verus! {

/// What a handle can tell its worker.
pub enum ThreadMessage {
    /// Stop: leave the loop once the cycle under way is done.
    Stop,
    /// The token being served is known to be bad.
    InvalidToken,
}

/// Seconds that the worker waits before its first cycle: none, so that the
/// first token is there as soon as possible.
pub const FIRST_WAIT_SECS: u64 = 0;

/// How a wait on the control channel ended: with a message, or without one.
pub type Signal = Result<ThreadMessage, WaitEnd>;

/// True where `signal` ends the worker: an explicit stop, or a channel that
/// nobody can send on any more.
pub open spec fn stops(signal: Signal) -> bool {
    signal == Ok::<ThreadMessage, WaitEnd>(ThreadMessage::Stop) || signal == Err::<
        ThreadMessage,
        WaitEnd,
    >(WaitEnd::Disconnected)
}

/// The lock policy of the cycle that follows `signal`, if one follows.
///
/// A wait that ran out starts a cycle under the configured policy. The
/// message that the token is bad starts one that holds the lock during the
/// fetch, whatever was configured: readers must not go on with that token.
pub open spec fn cycle_policy(signal: Signal, configured: LockBehavior) -> Option<LockBehavior> {
    match signal {
        Ok(ThreadMessage::Stop) => None,
        Ok(ThreadMessage::InvalidToken) => Some(LockBehavior::HoldDuringOperation),
        Err(WaitEnd::Timeout) => Some(configured),
        Err(WaitEnd::Disconnected) => None,
    }
}

/// Decides what follows a wait on the control channel: no further cycle, or a
/// cycle under the policy returned.
pub fn next_cycle(signal: Signal, configured: LockBehavior) -> (out: Option<LockBehavior>)
    ensures
        out == cycle_policy(signal, configured),
        out is None <==> stops(signal),
{
    match signal {
        Ok(ThreadMessage::Stop) => None,
        Ok(ThreadMessage::InvalidToken) => Some(LockBehavior::HoldDuringOperation),
        Err(WaitEnd::Timeout) => Some(configured),
        Err(WaitEnd::Disconnected) => None,
    }
}

/// Why `outcome` is a failure, where it is one: the message of its error.
pub open spec fn failure_of(outcome: Result<TokenSuccess, TokenError>) -> Option<String> {
    match outcome {
        Ok(_) => None,
        Err(error) => Some(error.error_message),
    }
}

/// True where the token cell has taken `outcome`: under its write lock it
/// went from what it held to what [`installed`] makes of that.
pub open spec fn cell_took(outcome: Result<TokenSuccess, TokenError>) -> bool {
    exists|before: WriteGuard<'_, Option<String>>, after: WriteGuard<'_, Option<String>>|
        #![trigger held_value(before), held_value(after)]
        held_value(after) == installed(held_value(before), outcome)
}

/// True where a cycle whose fetch ended with `outcome` may leave `wait` and
/// `failure` behind: the cell has taken the outcome, the wait is the one that
/// the outcome asks for, and the failure is its message, if it has one.
pub open spec fn cycle_made(
    outcome: Result<TokenSuccess, TokenError>,
    wait: Duration,
    failure: Option<String>,
) -> bool {
    &&& cell_took(outcome)
    &&& wait == next_wait(outcome)
    &&& failure == failure_of(outcome)
}

/// Applies the outcome of a fetch to the token cell, through the write guard,
/// and returns the wait before the next cycle and, for a failure, its
/// message, which is for the caller to report.
///
/// A success replaces the token. A failure leaves the cell as it was: the
/// last good token stays in place and only the wait is taken from the error.
pub fn install(guard: &mut WriteGuard<'_, Option<String>>, outcome: Result<
    TokenSuccess,
    TokenError,
>) -> (out: (Duration, Option<String>))
    ensures
        held_value(*final(guard)) == installed(held_value(*old(guard)), outcome),
        outcome is Err ==> held_value(*final(guard)) == held_value(*old(guard)),
        out.0 == next_wait(outcome),
        out.1 == failure_of(outcome),
        cycle_made(outcome, out.0, out.1),
{
    match outcome {
        Ok(TokenSuccess { token, fetch_after }) => {
            store(guard, Some(token));
            (fetch_after, None)
        },
        Err(TokenError { error_message, retry_after }) => (retry_after, Some(error_message)),
    }
}

/// The state that a worker shares with the readers of its token: the token
/// cell, the sending end of the control channel, and the configuration that
/// every cycle runs under.
#[verifier::reject_recursive_types(T)]
pub struct BackgroundTokenFetch<T> where T: FetchStrategy {
    token_value: RwLock<RawRwLock, Option<String>>,
    sender: Sender<ThreadMessage>,
    config: T::Config,
    lock_behavior: LockBehavior,
}

/// What the worker loop owns between two cycles: its share of the engine, the
/// receiving end of the control channel, the wait before the next cycle, the
/// context of the credential source, and the message of the last fetch where
/// it failed, which is for the loop to report.
#[verifier::reject_recursive_types(T)]
pub struct Worker<T> where T: FetchStrategy {
    pub engine: Arc<BackgroundTokenFetch<T>>,
    pub receiver: Receiver<ThreadMessage>,
    pub wait: Duration,
    pub context: T::Context,
    pub failure: Option<String>,
}

impl<T> BackgroundTokenFetch<T> where T: FetchStrategy {
    /// The lock policy that was chosen at construction.
    pub closed spec fn policy(&self) -> LockBehavior {
        self.lock_behavior
    }

    /// The configuration that every fetch is made under.
    pub closed spec fn settings(&self) -> T::Config {
        self.config
    }

    /// The lock around the token cell.
    pub closed spec fn cell(&self) -> RwLock<RawRwLock, Option<String>> {
        self.token_value
    }

    /// Builds the shared state, with an empty token cell, and the control
    /// channel. No fetch is made. Returns the shared state and the receiving
    /// end of the channel, which belongs to the worker.
    pub fn new(lock_behavior: LockBehavior, config: T::Config) -> (out: (
        Arc<Self>,
        Receiver<ThreadMessage>,
    ))
        ensures
            out.0.policy() == lock_behavior,
            out.0.settings() == config,
    {
        let (sender, receiver) = channel();
        let token_value = new_lock(None);
        (Arc::new(Self { token_value, sender, config, lock_behavior }), receiver)
    }

    /// Builds the shared state and runs the first cycle, without any wait, on
    /// the calling thread, so this may block for as long as one fetch takes.
    ///
    /// Returns the shared state and, unless the control channel has already
    /// asked for a stop, what the worker loop starts from. The caller hands
    /// that to the thread it starts, which calls [`Worker::turn`] until it
    /// breaks.
    ///
    /// The worker starts from what the first cycle left: the context is the
    /// one that the source built, as the first fetch left it, and the wait is
    /// the one that the outcome of that fetch asks for, whether it succeeded
    /// or failed.
    pub fn init(lock_behavior: LockBehavior, config: T::Config) -> (out: (
        Arc<Self>,
        Option<Worker<T>>,
    ))
        ensures
            out.0.policy() == lock_behavior,
            out.0.settings() == config,
            out.1 matches Some(worker) ==> worker.engine == out.0 && exists|
                start: T::Context,
                borrowed: &mut T::Context,
                outcome: Result<TokenSuccess, TokenError>,
            |
                #![trigger
                    T::init_context.ensures((&out.0.settings(),), start),
                    T::fetch.ensures((&out.0.settings(), borrowed), outcome),
                ]
                T::init_context.ensures((&out.0.settings(),), start) && T::fetch.ensures(
                    (&out.0.settings(), borrowed),
                    outcome,
                ) && *borrowed == start && *final(borrowed) == worker.context && cycle_made(
                    outcome,
                    worker.wait,
                    worker.failure,
                ),
    {
        let (fetcher, receiver) = Self::new(lock_behavior, config);
        let engine = Arc::clone(&fetcher);
        let context = T::init_context(&fetcher.config);
        let ghost start = context;
        match fetcher.background_job(&receiver, Duration::from_secs(FIRST_WAIT_SECS), context) {
            ControlFlow::Continue((wait, context, failure)) => {
                proof {
                    let (borrowed, outcome) = choose|
                        borrowed: &mut T::Context,
                        outcome: Result<TokenSuccess, TokenError>,
                    | #[trigger]
                        T::fetch.ensures((&fetcher.settings(), borrowed), outcome) && *borrowed
                            == start && *final(borrowed) == context && cycle_made(
                            outcome,
                            wait,
                            failure,
                        );
                    assert(T::init_context.ensures((&fetcher.settings(),), start)
                        && T::fetch.ensures((&fetcher.settings(), borrowed), outcome) && *borrowed
                        == start && *final(borrowed) == context && cycle_made(
                        outcome,
                        wait,
                        failure,
                    ));
                }
                (fetcher, Some(Worker { engine, receiver, wait, context, failure }))
            },
            ControlFlow::Break(_) => (fetcher, None),
        }
    }

    /// Asks the worker to stop. A no-op once the worker is gone.
    pub fn exit(&self) {
        send(&self.sender, ThreadMessage::Stop);
    }

    /// Tells the worker that the token being served is bad: it fetches a new
    /// one at once, holding the lock during the fetch.
    pub fn invalid_token(&self) {
        send(&self.sender, ThreadMessage::InvalidToken);
    }

    /// What the worker does once its wait has ended with `signal`.
    ///
    /// A stop, or a channel with no sender left, breaks the loop and nothing
    /// else happens. Anything else starts one fetch under the policy that
    /// [`cycle_policy`] gives; its outcome is applied to the token cell as
    /// [`install`] says, and the loop continues with the wait that the outcome
    /// asks for. A failed fetch never breaks the loop.
    ///
    /// Where the loop continues, the result is that of one fetch of the
    /// source, made under the configuration of this engine on `context`: the
    /// wait that its outcome asks for, the context as the fetch left it, and
    /// the message of the failure, if it was one. The cell has taken that
    /// outcome.
    pub fn cycle(&self, signal: Signal, context: T::Context) -> (out: ControlFlow<
        (),
        (Duration, T::Context, Option<String>),
    >)
        ensures
            out is Break <==> stops(signal),
            out matches ControlFlow::Continue(next) ==> exists|
                borrowed: &mut T::Context,
                outcome: Result<TokenSuccess, TokenError>,
            | #[trigger]
                T::fetch.ensures((&self.settings(), borrowed), outcome) && *borrowed == context
                    && *final(borrowed) == next.1 && cycle_made(outcome, next.0, next.2),
    {
        let policy = match next_cycle(signal, self.lock_behavior) {
            Some(policy) => policy,
            None => {
                return ControlFlow::Break(());
            },
        };
        let config = &self.config;
        let ghost start = context;
        let fetch = move || -> (out: (Result<TokenSuccess, TokenError>, T::Context))
            ensures
                exists|borrowed: &mut T::Context, outcome: Result<TokenSuccess, TokenError>| #[trigger]
                    T::fetch.ensures((config, borrowed), outcome) && *borrowed == context
                        && *final(borrowed) == out.1 && outcome == out.0,
            {
                let mut context = context;
                let outcome = T::fetch(config, &mut context);
                (outcome, context)
            };
        let (mut guard, (outcome, context)) = lock_around(&self.token_value, policy, fetch);
        let ghost fetched = outcome;
        let (wait, failure) = install(&mut guard, outcome);
        proof {
            let (borrowed, made) = choose|
                borrowed: &mut T::Context,
                made: Result<TokenSuccess, TokenError>,
            | #[trigger]
                T::fetch.ensures((config, borrowed), made) && *borrowed == start
                    && *final(borrowed) == context && made == fetched;
            assert(T::fetch.ensures((&self.settings(), borrowed), made) && *borrowed == start
                && *final(borrowed) == context && cycle_made(made, wait, failure));
        }
        ControlFlow::Continue((wait, context, failure))
    }

    /// One turn of the worker loop: waits for a control message, for
    /// `wait_duration` at most, then does what [`cycle`](Self::cycle) says for
    /// the way the wait ended.
    ///
    /// How the wait ends is up to the other threads and the clock. Whenever
    /// the loop continues, the result is that of one fetch of the source, as
    /// for [`cycle`](Self::cycle).
    pub fn background_job(
        &self,
        receiver: &Receiver<ThreadMessage>,
        wait_duration: Duration,
        context: T::Context,
    ) -> (out: ControlFlow<(), (Duration, T::Context, Option<String>)>)
        ensures
            out matches ControlFlow::Continue(next) ==> exists|
                borrowed: &mut T::Context,
                outcome: Result<TokenSuccess, TokenError>,
            | #[trigger]
                T::fetch.ensures((&self.settings(), borrowed), outcome) && *borrowed == context
                    && *final(borrowed) == next.1 && cycle_made(outcome, next.0, next.2),
    {
        let signal = recv_timeout(receiver, wait_duration);
        self.cycle(signal, context)
    }

    /// Takes the read lock of the token cell, and returns the guard of that
    /// lock. While the guard lives, no cycle installs a new token.
    pub fn acquire_read(&self) -> (guard: ReadGuard<'_, Option<String>>)
        ensures
            read_lock_of(guard) == self.cell(),
    {
        acquire_read(&self.token_value)
    }
}

impl<T> Worker<T> where T: FetchStrategy {
    /// One turn of the worker loop: a wait and, unless it ends with a stop,
    /// one cycle. The loop goes on with the worker returned, and is over when
    /// this breaks.
    ///
    /// The worker returned keeps the engine. Its context is the one of this
    /// worker as one fetch left it, and its wait is the one that the outcome
    /// of that fetch asks for.
    pub fn turn(self) -> (out: ControlFlow<(), Self>)
        ensures
            out matches ControlFlow::Continue(next) ==> next.engine == self.engine && exists|
                borrowed: &mut T::Context,
                outcome: Result<TokenSuccess, TokenError>,
            | #[trigger]
                T::fetch.ensures((&self.engine.settings(), borrowed), outcome) && *borrowed
                    == self.context && *final(borrowed) == next.context && cycle_made(
                    outcome,
                    next.wait,
                    next.failure,
                ),
    {
        let Worker { engine, receiver, wait, context, failure: _ } = self;
        match engine.background_job(&receiver, wait, context) {
            ControlFlow::Continue((wait, context, failure)) => ControlFlow::Continue(
                Worker { engine, receiver, wait, context, failure },
            ),
            ControlFlow::Break(_) => ControlFlow::Break(()),
        }
    }
}

} // verus!
