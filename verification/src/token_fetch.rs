//! The refresh engine that hands out snapshots: a worker driven by states and
//! actions, a token cell behind a mutex with a changed flag, and a handle that
//! keeps the last token it read.

use crate::channel::{channel, recv_timeout, send, WaitEnd};
use crate::mutex_cell::{lock, locked_value, new_mutex, peek_locked, store_locked, try_lock};
use crate::token::{copy_token, token_view};
use std::marker::PhantomData;
use std::ops::ControlFlow;
use std::sync::atomic::{AtomicBool, Ordering};
use std::sync::mpsc::{Receiver, Sender};
use std::sync::{Arc, Mutex, MutexGuard};
use std::time::Duration;
use vstd::prelude::*;

verus! {

/// Milliseconds that the worker waits for a stop before each round.
pub const POLL_MILLIS: u64 = 100;

/// A credential source as a state machine: from the last two states it
/// chooses an action, and carrying the action out gives the next state, which
/// may hold a token.
pub trait Handlers: Send + Sync + 'static {
    type Config: Send + Sync + 'static;

    type States: Default;

    type Actions: Copy;

    fn connect(config: &Self::Config) -> Self::States;

    fn refresh(config: &Self::Config) -> Self::States;

    fn execute(config: &Self::Config, action: Self::Actions) -> Self::States;

    fn choose_action(
        previous_state: &Self::States,
        current_state: &Self::States,
    ) -> Self::Actions;

    fn get_token_from_state(state: &Self::States) -> Option<&str>;
}

/// The state that a worker shares with the handle: the token cell, the flag
/// that says it changed since it was last read, and the sending end of the
/// control channel.
#[verifier::reject_recursive_types(T)]
pub struct BackgroundTokenFetch<T> where T: Handlers {
    sender: Sender<()>,
    token_changed: AtomicBool,
    token_value: Mutex<Option<String>>,
    config: T::Config,
    _p: PhantomData<T>,
}

/// True where `state` may be the default state of the source, the one that a
/// worker starts from.
pub open spec fn starts<T: Handlers>(state: T::States) -> bool {
    T::States::default.ensures((), state)
}

/// True where the source may choose `action` from these two states.
pub open spec fn chooses<T: Handlers>(
    previous_state: T::States,
    current_state: T::States,
    action: T::Actions,
) -> bool {
    T::choose_action.ensures((&previous_state, &current_state), action)
}

/// True where carrying `action` out may lead the source to `next_state`.
pub open spec fn carries_out<T: Handlers>(
    config: T::Config,
    action: T::Actions,
    next_state: T::States,
) -> bool {
    T::execute.ensures((&config, action), next_state)
}

/// True where one round of the source may lead from these two states to
/// `next_state`: it chooses some action from them, and carrying that action
/// out gives `next_state`.
pub open spec fn follows<T: Handlers>(
    config: T::Config,
    previous_state: T::States,
    current_state: T::States,
    next_state: T::States,
) -> bool {
    exists|action: T::Actions| #[trigger]
        chooses::<T>(previous_state, current_state, action) && carries_out::<T>(
            config,
            action,
            next_state,
        )
}

/// True where the source may find `token` in `state`.
pub open spec fn holds_token<T: Handlers>(state: T::States, token: Option<&str>) -> bool {
    T::get_token_from_state.ensures((&state,), token)
}

/// True where a round that led the source to `state` may report `published`.
///
/// A round that reports a write has written a token of that state to the
/// cell, under its lock. A round whose state holds no token reports none: it
/// has left the cell, and the token in it, alone.
pub open spec fn published_from<T: Handlers>(state: T::States, published: bool) -> bool {
    &&& published ==> exists|guard: MutexGuard<'_, Option<String>>, token: &str|
        #![trigger locked_value(guard), holds_token::<T>(state, Some(token))]
        holds_token::<T>(state, Some(token)) && locked_value(guard) == Some(token@)
    &&& (forall|token: &str| !#[trigger] holds_token::<T>(state, Some(token))) ==> !published
}

/// What the worker loop owns between two rounds: its share of the engine, the
/// receiving end of the control channel, the last two states of the source,
/// and whether the last round wrote a token to the cell.
#[verifier::reject_recursive_types(T)]
pub struct Worker<T> where T: Handlers {
    pub engine: Arc<BackgroundTokenFetch<T>>,
    pub receiver: Receiver<()>,
    pub previous_state: T::States,
    pub current_state: T::States,
    pub published: bool,
}

/// Writes `token` into the cell that `guard` has locked.
pub fn set_token(guard: &mut MutexGuard<'_, Option<String>>, token: &str)
    ensures
        locked_value(*final(guard)) == Some(token@),
{
    store_locked(guard, Some(token.to_owned()));
}

/// What the worker does to the cell once it has asked for the lock: it writes
/// `token` under `guard`, or nothing where the lock was not to be had.
/// Returns whether it wrote.
pub fn write_under(guard: &mut Option<MutexGuard<'_, Option<String>>>, token: &str) -> (written:
    bool)
    ensures
        written == (*old(guard) is Some),
        match *final(guard) {
            Some(held) => written && locked_value(held) == Some(token@),
            None => !written,
        },
{
    match guard {
        Some(held) => {
            set_token(held, token);
            true
        },
        None => false,
    }
}

/// What a reader takes from the cell once it has tried the lock: a copy of
/// what the cell holds under `guard`, or nothing where the lock was not to be
/// had.
pub fn read_under(guard: &Option<MutexGuard<'_, Option<String>>>) -> (fresh: Option<
    Option<String>,
>)
    ensures
        match *guard {
            Some(held) => fresh matches Some(value) && token_view(value) == locked_value(held),
            None => fresh is None,
        },
{
    match guard {
        Some(held) => Some(copy_token(peek_locked(held))),
        None => None,
    }
}

/// Brings the snapshot `cache` up to date and returns a copy of it.
///
/// `fresh` is what was read from the cell, or nothing where the cell was not
/// read: because it has not changed, or because its lock was taken at that
/// moment. The snapshot then stays as it was, so a reader is handed the last
/// token it saw rather than being made to wait.
pub fn refresh_snapshot(cache: &mut Option<String>, fresh: Option<Option<String>>) -> (out: Option<
    String,
>)
    ensures
        *final(cache) == match fresh {
            Some(token) => token,
            None => *old(cache),
        },
        out == *final(cache),
{
    match fresh {
        Some(token) => {
            *cache = token;
        },
        None => {},
    }
    copy_token(cache)
}

impl<T> BackgroundTokenFetch<T> where T: Handlers {
    /// The configuration that every round runs under.
    pub closed spec fn settings(&self) -> T::Config {
        self.config
    }

    /// Builds the shared state, with an empty token cell, and the control
    /// channel. Returns the shared state and what the worker loop starts
    /// from: both of its states are the default one. The caller hands that to
    /// the thread it starts, which calls [`Worker::turn`] until it breaks.
    pub fn new_job(config: T::Config) -> (out: (Arc<Self>, Worker<T>))
        ensures
            out.0.settings() == config,
            out.1.engine == out.0,
            starts::<T>(out.1.previous_state),
            starts::<T>(out.1.current_state),
            !out.1.published,
    {
        let (sender, receiver) = channel();
        let token_changed = AtomicBool::new(false);
        let token_value = new_mutex(None);
        let fetcher = Arc::new(
            Self { sender, token_changed, token_value, config, _p: PhantomData },
        );
        let engine = Arc::clone(&fetcher);
        let previous_state = T::States::default();
        let current_state = T::States::default();
        (fetcher, Worker { engine, receiver, previous_state, current_state, published: false })
    }

    /// Asks the worker to stop. A no-op once the worker is gone.
    pub fn exit(&self) {
        send(&self.sender, ());
    }

    /// What the worker does once its wait has ended with `signal`.
    ///
    /// Only a wait that ran out starts a round: an action is chosen from the
    /// two states and carried out, the token of the state it leads to, if it
    /// has one, is written to the cell, and the loop continues with the
    /// current state as the previous one. A message, or a channel with no
    /// sender left, breaks the loop.
    ///
    /// Where the loop continues, the result is the two states for the next
    /// round, and whether this round wrote a token to the cell, as
    /// [`maybe_set_token`](Self::maybe_set_token) reports it.
    pub fn round(
        &self,
        signal: Result<(), WaitEnd>,
        previous_state: T::States,
        current_state: T::States,
    ) -> (out: ControlFlow<(), (T::States, T::States, bool)>)
        ensures
            out is Continue <==> signal == Err::<(), WaitEnd>(WaitEnd::Timeout),
            out matches ControlFlow::Continue(next) ==> next.0 == current_state && follows::<T>(
                self.settings(),
                previous_state,
                current_state,
                next.1,
            ) && published_from::<T>(next.1, next.2),
    {
        match signal {
            Err(WaitEnd::Timeout) => {
                let action = T::choose_action(&previous_state, &current_state);
                let next_state = T::execute(&self.config, action);
                assert(chooses::<T>(previous_state, current_state, action)
                    && carries_out::<T>(self.config, action, next_state));
                let published = self.maybe_set_token(&next_state);
                ControlFlow::Continue((current_state, next_state, published))
            },
            _ => ControlFlow::Break(()),
        }
    }

    /// One turn of the worker loop: waits for a stop, for [`POLL_MILLIS`] at
    /// most, then does what [`round`](Self::round) says for the way the wait
    /// ended.
    pub fn background_job(
        &self,
        receiver: &Receiver<()>,
        previous_state: T::States,
        current_state: T::States,
    ) -> (out: ControlFlow<(), (T::States, T::States, bool)>)
        ensures
            out matches ControlFlow::Continue(next) ==> next.0 == current_state && follows::<T>(
                self.settings(),
                previous_state,
                current_state,
                next.1,
            ) && published_from::<T>(next.1, next.2),
    {
        let signal = recv_timeout(receiver, Duration::from_millis(POLL_MILLIS));
        self.round(signal, previous_state, current_state)
    }

    /// Writes the token of `state`, if it has one, to the cell, and raises the
    /// changed flag. A state without a token leaves the cell alone. Returns
    /// whether the cell was written: it is not where the state has no token,
    /// nor where a thread has panicked with the lock of the cell in its hand.
    pub fn maybe_set_token(&self, state: &T::States) -> (published: bool)
        ensures
            published_from::<T>(*state, published),
    {
        match T::get_token_from_state(state) {
            Some(token) => {
                let mut guard = lock(&self.token_value);
                let published = write_under(&mut guard, token);
                if published {
                    self.token_changed.store(true, Ordering::Release);
                    assert(guard matches Some(held) && holds_token::<T>(*state, Some(token))
                        && locked_value(held) == Some(token@));
                }
                published
            },
            None => false,
        }
    }

    /// Reads the cell if it changed since it was last read and its lock is
    /// free right now, and lowers the changed flag. Returns nothing where the
    /// cell was not read; what it returns otherwise is what the cell held
    /// under the lock, as [`read_under`] says.
    pub fn take_fresh(&self) -> (fresh: Option<Option<String>>)
        ensures
            fresh matches Some(value) ==> exists|guard: MutexGuard<'_, Option<String>>| #[trigger]
                locked_value(guard) == token_view(value),
    {
        if self.token_changed.load(Ordering::Acquire) {
            let guard = try_lock(&self.token_value);
            let fresh = read_under(&guard);
            if fresh.is_some() {
                self.token_changed.store(false, Ordering::Relaxed);
            }
            fresh
        } else {
            None
        }
    }
}

/// Read access to the token that a worker keeps fresh, as snapshots.
#[verifier::reject_recursive_types(T)]
pub struct ConnectionHandler<T> where T: Handlers {
    inner: Arc<BackgroundTokenFetch<T>>,
    last_token_value: Option<String>,
}

impl<T> ConnectionHandler<T> where T: Handlers {
    /// The token that this handle read last.
    pub closed spec fn snapshot(&self) -> Option<Seq<char>> {
        token_view(self.last_token_value)
    }

    /// The shared state behind this handle.
    pub closed spec fn shared(&self) -> BackgroundTokenFetch<T> {
        *self.inner
    }

    /// Builds the engine and the handle on it. No token has been read yet.
    /// The second part of the result is what the worker loop starts from, as
    /// [`BackgroundTokenFetch::new_job`] returns it.
    pub fn new(config: T::Config) -> (out: (Self, Worker<T>))
        ensures
            out.0.snapshot() is None,
            out.0.shared().settings() == config,
            *out.1.engine == out.0.shared(),
            starts::<T>(out.1.previous_state),
            starts::<T>(out.1.current_state),
            !out.1.published,
    {
        let (inner, worker) = BackgroundTokenFetch::new_job(config);
        (Self { inner, last_token_value: None }, worker)
    }

    /// Asks the worker to stop. A no-op once the worker is gone.
    pub fn exit(&self) {
        self.inner.exit();
    }

    /// A copy of the current token, without ever waiting for the worker.
    ///
    /// The cell is read only if it changed since the last call and its lock
    /// is free; otherwise the token of the last call is returned again.
    /// Nothing is returned until a token has been read once.
    pub fn get_token(&mut self) -> (out: Option<String>)
        ensures
            token_view(out) == final(self).snapshot(),
            final(self).shared() == old(self).shared(),
            final(self).snapshot() == old(self).snapshot() || exists|
                guard: MutexGuard<'_, Option<String>>,
            | #[trigger] locked_value(guard) == final(self).snapshot(),
    {
        let fresh = self.inner.take_fresh();
        refresh_snapshot(&mut self.last_token_value, fresh)
    }
}

impl<T> Worker<T> where T: Handlers {
    /// One turn of the worker loop: a wait and, unless it ends with a stop,
    /// one round. The loop goes on with the worker returned, and is over when
    /// this breaks.
    pub fn turn(self) -> (out: ControlFlow<(), Self>)
        ensures
            out matches ControlFlow::Continue(next) ==> {
                &&& next.engine == self.engine
                &&& next.previous_state == self.current_state
                &&& follows::<T>(
                    self.engine.settings(),
                    self.previous_state,
                    self.current_state,
                    next.current_state,
                )
                &&& published_from::<T>(next.current_state, next.published)
            },
    {
        let Worker { engine, receiver, previous_state, current_state, published: _ } = self;
        match engine.background_job(&receiver, previous_state, current_state) {
            ControlFlow::Continue((previous_state, current_state, published)) => ControlFlow::Continue(
                Worker { engine, receiver, previous_state, current_state, published },
            ),
            ControlFlow::Break(_) => ControlFlow::Break(()),
        }
    }
}

} // verus!
