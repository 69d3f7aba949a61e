//! The token cell over a whole run of the worker: what a reader can see after
//! any number of cycles, given the outcomes of their fetches in order.
//!
//! The worker is the only writer of the cell, and each cycle applies its
//! outcome as [`installed`] says, so the cell after a run is the fold of
//! `installed` over the outcomes.

use super::fetch_strategy::{installed, TokenError, TokenSuccess};
use vstd::prelude::*;

verus! {

/// The outcome of one fetch.
pub type Outcome = Result<TokenSuccess, TokenError>;

/// The cell after the cycles with these outcomes, in this order, on a cell
/// that held `start`.
pub open spec fn cell_after(start: Option<Seq<char>>, outcomes: Seq<Outcome>) -> Option<Seq<char>>
    decreases outcomes.len(),
{
    if outcomes.len() == 0 {
        start
    } else {
        installed(cell_after(start, outcomes.drop_last()), outcomes.last())
    }
}

/// The tokens that the successful fetches among `outcomes` produced, in
/// order.
pub open spec fn tokens(outcomes: Seq<Outcome>) -> Seq<Seq<char>>
    decreases outcomes.len(),
{
    if outcomes.len() == 0 {
        Seq::empty()
    } else {
        match outcomes.last() {
            Ok(success) => tokens(outcomes.drop_last()).push(success.token@),
            Err(_) => tokens(outcomes.drop_last()),
        }
    }
}

/// The last of `tokens`, or nothing where there is none.
pub open spec fn latest(tokens: Seq<Seq<char>>) -> Option<Seq<char>> {
    if tokens.len() == 0 {
        None
    } else {
        Some(tokens.last())
    }
}

/// A cell that starts empty holds the token of the latest successful fetch,
/// and nothing as long as no fetch has succeeded.
pub proof fn lemma_cell_holds_latest(outcomes: Seq<Outcome>)
    ensures
        cell_after(None, outcomes) == latest(tokens(outcomes)),
    decreases outcomes.len(),
{
    if outcomes.len() > 0 {
        lemma_cell_holds_latest(outcomes.drop_last());
    }
}

/// Before the first cycle the cell is empty, and it stays empty as long as
/// every fetch fails.
pub proof fn lemma_empty_before_first_success(outcomes: Seq<Outcome>)
    requires
        forall|k: int| 0 <= k < outcomes.len() ==> outcomes[k] is Err,
    ensures
        cell_after(None, outcomes) is None,
    decreases outcomes.len(),
{
    if outcomes.len() > 0 {
        lemma_empty_before_first_success(outcomes.drop_last());
    }
}

/// A failing fetch leaves the cell as the cycles before it left it: the last
/// good token stays in place.
pub proof fn lemma_failure_preserves_token(
    start: Option<Seq<char>>,
    outcomes: Seq<Outcome>,
    failure: TokenError,
)
    ensures
        cell_after(start, outcomes.push(Err(failure))) == cell_after(start, outcomes),
{
    let longer = outcomes.push(Err(failure));
    assert(longer.drop_last() == outcomes);
}

/// After a successful fetch the cell holds its token, whatever it held
/// before, and a failing fetch that follows does not change that.
pub proof fn lemma_success_then_failure(
    start: Option<Seq<char>>,
    outcomes: Seq<Outcome>,
    success: TokenSuccess,
    failure: TokenError,
)
    ensures
        cell_after(start, outcomes.push(Ok(success))) == Some(success.token@),
        cell_after(start, outcomes.push(Ok(success)).push(Err(failure))) == Some(success.token@),
{
    let with_success = outcomes.push(Ok(success));
    assert(with_success.drop_last() == outcomes);
    lemma_failure_preserves_token(start, with_success, failure);
}

/// A cell that holds a token is never emptied again.
pub proof fn lemma_never_emptied(start: Option<Seq<char>>, outcomes: Seq<Outcome>)
    requires
        start is Some,
    ensures
        cell_after(start, outcomes) is Some,
    decreases outcomes.len(),
{
    if outcomes.len() > 0 {
        lemma_never_emptied(start, outcomes.drop_last());
    }
}

/// The tokens produced up to an earlier moment are the first of those
/// produced up to a later one.
pub proof fn lemma_tokens_grow(outcomes: Seq<Outcome>, earlier: int, later: int)
    requires
        0 <= earlier <= later <= outcomes.len(),
    ensures
        tokens(outcomes.take(earlier)).len() <= tokens(outcomes.take(later)).len(),
        tokens(outcomes.take(later)).take(tokens(outcomes.take(earlier)).len() as int) == tokens(
            outcomes.take(earlier),
        ),
    decreases later - earlier,
{
    let first = tokens(outcomes.take(earlier));
    if earlier == later {
        assert(first.take(first.len() as int) == first);
    } else {
        lemma_tokens_grow(outcomes, earlier, later - 1);
        let shorter = outcomes.take(later - 1);
        let longer = outcomes.take(later);
        assert(longer.drop_last() == shorter);
        match longer.last() {
            Ok(success) => {
                assert(tokens(longer) == tokens(shorter).push(success.token@));
                assert(tokens(longer).take(first.len() as int) == tokens(shorter).take(
                    first.len() as int,
                ));
            },
            Err(_) => {
                assert(tokens(longer) == tokens(shorter));
            },
        }
    }
}

/// Monotonic replacement: a reader never goes back to an older token.
///
/// Let the successful fetches of a run produce the tokens `tokens(outcomes)`.
/// A reader who looks after `earlier` cycles sees the token that stands at
/// place `seen_earlier` of that list (counting from one; nothing at place
/// zero), one who looks after `later` cycles the token at place
/// `seen_later`, and the place never decreases with time.
pub proof fn lemma_monotonic_replacement(outcomes: Seq<Outcome>, earlier: int, later: int)
    requires
        0 <= earlier <= later <= outcomes.len(),
    ensures
        ({
            let seen_earlier = tokens(outcomes.take(earlier)).len() as int;
            let seen_later = tokens(outcomes.take(later)).len() as int;
            &&& 0 <= seen_earlier <= seen_later <= tokens(outcomes).len()
            &&& cell_after(None, outcomes.take(earlier)) == latest(
                tokens(outcomes).take(seen_earlier),
            )
            &&& cell_after(None, outcomes.take(later)) == latest(tokens(outcomes).take(seen_later))
        }),
{
    let all = outcomes.len() as int;
    assert(outcomes.take(all) == outcomes);
    lemma_tokens_grow(outcomes, earlier, later);
    lemma_tokens_grow(outcomes, earlier, all);
    lemma_tokens_grow(outcomes, later, all);
    lemma_cell_holds_latest(outcomes.take(earlier));
    lemma_cell_holds_latest(outcomes.take(later));
}

} // verus!
