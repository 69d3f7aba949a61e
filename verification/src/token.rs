//! Tokens as values: an optional string, seen as the sequence of its
//! characters.

use vstd::prelude::*;

verus! {

/// An optional token as the sequence of its characters.
pub open spec fn token_view(token: Option<String>) -> Option<Seq<char>> {
    match token {
        Some(text) => Some(text@),
        None => None,
    }
}

/// An owned copy of an optional token.
pub fn copy_token(token: &Option<String>) -> (copy: Option<String>)
    ensures
        copy == *token,
{
    match token {
        Some(text) => Some(text.clone()),
        None => None,
    }
}

} // verus!
