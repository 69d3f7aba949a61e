//! The OAuth client-credentials source: what it makes of an answer of the
//! token endpoint. The exchange itself is made by the caller.

use crate::api_connector::fetch_strategy::{TokenError, TokenSuccess};
use crate::timing::{nanos_of, NANOS_PER_SEC};
use std::time::Duration;
use vstd::prelude::*;

verus! {

/// The shortest overlap between two tokens, in seconds.
pub const MIN_OVERLAP_SECS: u64 = 5;

/// The longest overlap between two tokens, in seconds.
pub const MAX_OVERLAP_SECS: u64 = 300;

/// [`MIN_OVERLAP_SECS`] in nanoseconds.
pub const MIN_OVERLAP_NANOS: u128 = 5_000_000_000;

/// [`MAX_OVERLAP_SECS`] in nanoseconds.
pub const MAX_OVERLAP_NANOS: u128 = 300_000_000_000;

/// Seconds to wait after a failed exchange before the next one.
pub const RETRY_SECS: u64 = 30;

/// The OAuth client-credentials source.
pub struct OAuthStrategy;

/// What the source remembers from one exchange to the next.
#[derive(Debug)]
pub struct OAuthContext {
    /// Exchanges that failed since the last one that succeeded.
    pub consecutive_failures: u32,
}

/// What the token endpoint granted.
pub struct TokenGrant {
    /// The access token.
    pub access_token: String,
    /// The lifetime that the server gave the token, where it gave one, and the
    /// share of it by which the next token should overlap this one.
    pub lifetime: Option<(Duration, Duration)>,
}

/// `overlap`, in nanoseconds, brought into the range from
/// [`MIN_OVERLAP_SECS`] to [`MAX_OVERLAP_SECS`].
pub open spec fn clamped_overlap(overlap: nat) -> nat {
    if overlap > MAX_OVERLAP_NANOS {
        MAX_OVERLAP_NANOS as nat
    } else if overlap < MIN_OVERLAP_NANOS {
        MIN_OVERLAP_NANOS as nat
    } else {
        overlap
    }
}

/// The overlap, in nanoseconds, that is taken off a lifetime of `expires_in`.
///
/// It is the overlap asked for, held between the two bounds, as long as the
/// token outlives that. A token that does not keeps the overlap as it was
/// asked for, if it outlives that one, and has none otherwise: the next fetch
/// never comes at once.
pub open spec fn applied_overlap(expires_in: nat, overlap: nat) -> nat {
    if clamped_overlap(overlap) < expires_in {
        clamped_overlap(overlap)
    } else if overlap < expires_in {
        overlap
    } else {
        0
    }
}

/// The wait, in nanoseconds, before a token that lives for `expires_in` is
/// replaced: its lifetime less the overlap that is applied to it.
pub open spec fn refresh_delay(expires_in: nat, overlap: nat) -> nat {
    (expires_in - applied_overlap(expires_in, overlap)) as nat
}

/// The wait that [`OAuthStrategy::fetch_after`] gives for `lifetime`.
///
/// For a token with a lifetime it is [`refresh_delay`], which is more than
/// nothing and no more than the lifetime. For a token without one it is
/// `default_wait`.
pub open spec fn is_fetch_after(
    lifetime: Option<(Duration, Duration)>,
    default_wait: Duration,
    wait: Duration,
) -> bool {
    match lifetime {
        Some((expires_in, overlap)) if nanos_of(expires_in) > 0 => {
            &&& nanos_of(wait) == refresh_delay(nanos_of(expires_in), nanos_of(overlap))
            &&& 0 < nanos_of(wait) <= nanos_of(expires_in)
        },
        _ => wait == default_wait,
    }
}

/// A token with a lifetime is replaced after a wait that is more than
/// nothing and no more than its lifetime, so a worker that follows it never
/// spins.
pub proof fn lemma_refresh_delay_bounds(expires_in: nat, overlap: nat)
    requires
        expires_in > 0,
    ensures
        0 < refresh_delay(expires_in, overlap) <= expires_in,
{
}

impl OAuthContext {
    /// A context with no failure counted.
    pub fn new() -> (context: Self)
        ensures
            context.consecutive_failures == 0,
    {
        OAuthContext { consecutive_failures: 0 }
    }
}

impl OAuthStrategy {
    /// When to fetch the next token.
    ///
    /// A token with a lifetime is refreshed ahead of its expiry by the
    /// overlap, which is held between five seconds and five minutes as far
    /// as the lifetime allows; the wait is never zero and never longer than
    /// the lifetime. For a token without a lifetime, or with an empty one,
    /// `default_wait` is used.
    pub fn fetch_after(lifetime: Option<(Duration, Duration)>, default_wait: Duration) -> (wait:
        Duration)
        ensures
            is_fetch_after(lifetime, default_wait, wait),
    {
        match lifetime {
            Some((expires_in, overlap)) => {
                let lives_for = expires_in.as_nanos();
                if lives_for == 0 {
                    default_wait
                } else {
                    let asked = overlap.as_nanos();
                    let held = if asked > MAX_OVERLAP_NANOS {
                        Duration::from_secs(MAX_OVERLAP_SECS)
                    } else if asked < MIN_OVERLAP_NANOS {
                        Duration::from_secs(MIN_OVERLAP_SECS)
                    } else {
                        overlap
                    };
                    if held.as_nanos() < lives_for {
                        expires_in.saturating_sub(held)
                    } else if asked < lives_for {
                        expires_in.saturating_sub(overlap)
                    } else {
                        expires_in
                    }
                }
            },
            None => default_wait,
        }
    }

    /// Turns the answer of the token endpoint into the outcome of a fetch,
    /// and keeps count of the failures in a row.
    ///
    /// A grant resets the count and is served until
    /// [`fetch_after`](Self::fetch_after) says. An error, given as its
    /// message, adds one to the count and asks for a new attempt after
    /// [`RETRY_SECS`].
    pub fn outcome(
        context: &mut OAuthContext,
        answer: Result<TokenGrant, String>,
        default_wait: Duration,
    ) -> (out: Result<TokenSuccess, TokenError>)
        requires
            answer is Err ==> old(context).consecutive_failures < u32::MAX,
        ensures
            match answer {
                Ok(grant) => {
                    &&& out matches Ok(success)
                    &&& success.token == grant.access_token
                    &&& is_fetch_after(grant.lifetime, default_wait, success.fetch_after)
                    &&& final(context).consecutive_failures == 0
                },
                Err(message) => {
                    &&& out matches Err(error)
                    &&& error.error_message == message
                    &&& nanos_of(error.retry_after) == RETRY_SECS * NANOS_PER_SEC
                    &&& final(context).consecutive_failures == old(context).consecutive_failures
                        + 1
                },
            },
    {
        match answer {
            Ok(grant) => {
                context.consecutive_failures = 0;
                let fetch_after = Self::fetch_after(grant.lifetime, default_wait);
                Ok(TokenSuccess { token: grant.access_token, fetch_after })
            },
            Err(message) => {
                context.consecutive_failures += 1;
                let retry_after = Duration::from_secs(RETRY_SECS);
                Err(TokenError { error_message: message, retry_after })
            },
        }
    }
}

} // verus!
