//! What a credential source hands to the engine.

use std::time::Duration;
use vstd::prelude::*;

verus! {

/// A fetch that produced a token, and how long to wait before the next one.
pub struct TokenSuccess {
    pub token: String,
    pub fetch_after: Duration,
}

/// A fetch that failed, and how long to wait before trying again.
pub struct TokenError {
    pub error_message: String,
    pub retry_after: Duration,
}

/// A credential source: how to build its long-lived context and how to make
/// one attempt at obtaining a token.
///
/// `fetch` blocks the worker until it returns; a source that never returns
/// stalls shutdown, since a cycle in flight cannot be interrupted.
pub trait FetchStrategy: Send + Sync + 'static {
    type Config: Send + Sync + 'static;

    type Context;

    fn fetch(config: &Self::Config, context: &mut Self::Context) -> Result<
        TokenSuccess,
        TokenError,
    >;

    fn init_context(config: &Self::Config) -> Self::Context;
}

/// The token cell after `outcome` has been applied to a cell that held
/// `cell`: a success replaces the token, a failure leaves it alone.
pub open spec fn installed(
    cell: Option<Seq<char>>,
    outcome: Result<TokenSuccess, TokenError>,
) -> Option<Seq<char>> {
    match outcome {
        Ok(success) => Some(success.token@),
        Err(_) => cell,
    }
}

/// The wait that `outcome` asks for before the next cycle.
pub open spec fn next_wait(outcome: Result<TokenSuccess, TokenError>) -> Duration {
    match outcome {
        Ok(success) => success.fetch_after,
        Err(error) => error.retry_after,
    }
}

} // verus!
