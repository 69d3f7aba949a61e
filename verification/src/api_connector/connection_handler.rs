//! The handle that application code holds to read the current token.

use super::background::{cycle_made, BackgroundTokenFetch, Worker};
use super::fetch_strategy::{FetchStrategy, TokenError, TokenSuccess};
use super::lock_around::LockBehavior;
use super::token_cell::{read_lock_of, seen_value, ReadGuard};
use std::sync::Arc;
use vstd::prelude::*;

verus! {

/// Read access to the token that a worker keeps fresh.
#[verifier::reject_recursive_types(T)]
pub struct ConnectionHandler<T> where T: FetchStrategy {
    inner: Arc<BackgroundTokenFetch<T>>,
}

/// Runs `f` on the token that `guard` gives access to, if there is one.
///
/// Returns nothing exactly when the cell is empty, and never calls `f` then.
/// Otherwise `f` is called once, with the token, and its result is returned.
pub fn apply_to_token<F, R>(guard: &ReadGuard<'_, Option<String>>, f: F) -> (out: Option<R>) where
    F: FnOnce(&str) -> R,

    requires
        seen_value(*guard) matches Some(token) ==> forall|text: &str|
            text@ == token ==> f.requires((text,)),
    ensures
        out is None <==> seen_value(*guard) is None,
        seen_value(*guard) matches Some(token) ==> out matches Some(result) && exists|text: &str|
            text@ == token && f.ensures((text,), result),
{
    match guard.token() {
        Some(text) => Some(f(text)),
        None => None,
    }
}

impl<T> ConnectionHandler<T> where T: FetchStrategy {
    /// The shared state behind this handle.
    pub closed spec fn shared(&self) -> BackgroundTokenFetch<T> {
        *self.inner
    }

    /// Builds the engine, first cycle included, and the handle on it. The
    /// second part of the result is what the worker loop starts from, as
    /// [`BackgroundTokenFetch::init`] returns it: the context that the first
    /// fetch left of the one that the source started with, and the wait that
    /// the outcome of that fetch asks for.
    pub fn new(lock_strategy: LockBehavior, config: T::Config) -> (out: (Self, Option<Worker<T>>))
        ensures
            out.0.shared().policy() == lock_strategy,
            out.0.shared().settings() == config,
            out.1 matches Some(worker) ==> *worker.engine == out.0.shared() && exists|
                start: T::Context,
                borrowed: &mut T::Context,
                outcome: Result<TokenSuccess, TokenError>,
            |
                #![trigger
                    T::init_context.ensures((&out.0.shared().settings(),), start),
                    T::fetch.ensures((&out.0.shared().settings(), borrowed), outcome),
                ]
                T::init_context.ensures((&out.0.shared().settings(),), start) && T::fetch.ensures(
                    (&out.0.shared().settings(), borrowed),
                    outcome,
                ) && *borrowed == start && *final(borrowed) == worker.context && cycle_made(
                    outcome,
                    worker.wait,
                    worker.failure,
                ),
    {
        let (inner, worker) = BackgroundTokenFetch::init(lock_strategy, config);
        (Self { inner }, worker)
    }

    /// Asks the worker to stop. A no-op once the worker is gone.
    pub fn exit(&self) {
        self.inner.exit();
    }

    /// Tells the worker that the token being served is bad.
    pub fn invalid_token(&self) {
        self.inner.invalid_token();
    }

    /// Execute a closure with a valid token, preventing refresh during use.
    ///
    /// The read lock is held while `f` runs, so `f` should be quick and must
    /// not call back into this handle. Returns nothing while no fetch has
    /// succeeded yet; this never waits for a first token.
    ///
    /// What the cell holds at that moment is up to the worker. The result is
    /// what [`apply_to_token`] gives on a read guard of this handle's cell:
    /// nothing exactly when the guard shows no token, and else what `f`
    /// returned for the token that it shows.
    pub fn with_token<F, R>(&self, f: F) -> (out: Option<R>) where F: FnOnce(&str) -> R
        requires
            forall|text: &str| f.requires((text,)),
        ensures
            exists|guard: ReadGuard<'_, Option<String>>|
                {
                    &&& #[trigger] read_lock_of(guard) == self.shared().cell()
                    &&& out is None <==> seen_value(guard) is None
                    &&& seen_value(guard) matches Some(token) ==> out matches Some(result)
                        && exists|text: &str| text@ == token && f.ensures((text,), result)
                },
    {
        let token_guard = self.inner.acquire_read();
        apply_to_token(&token_guard, f)
    }
}

} // verus!
