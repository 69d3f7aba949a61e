//! A small credential source for the snapshot engine: it connects, refreshes
//! from then on, and connects again after a lost connection, always to the
//! same token.

use crate::token_fetch::Handlers;
use vstd::prelude::*;

verus! {

/// Where the connection stands.
#[derive(Debug, Clone)]
pub enum States {
    /// Nothing has been attempted yet.
    Init,
    /// Connected, with the token that was handed out.
    Connected(String),
    /// The connection was lost.
    Disconnected,
}

/// What the source can do next.
#[derive(Debug, Copy, Clone)]
pub enum Actions {
    Connect,
    Refresh,
}

/// The configuration of the source: it has no settings.
#[derive(Debug)]
pub struct ConnectionConfiguration {}

/// The source itself.
pub struct DefaultHandler;

impl Default for States {
    fn default() -> (state: Self)
        ensures
            state == States::Init,
    {
        States::Init
    }
}

impl Default for ConnectionConfiguration {
    fn default() -> (config: Self)
        ensures
            config == (ConnectionConfiguration {  }),
    {
        ConnectionConfiguration {  }
    }
}

/// The token that every connection hands out.
pub open spec fn handed_out() -> Seq<char> {
    "123456"@
}

/// The action that follows `current_state`: a source that is connected
/// refreshes, and one that has not connected yet, or has lost its connection,
/// connects.
pub open spec fn action_after(current_state: States) -> Actions {
    match current_state {
        States::Connected(_) => Actions::Refresh,
        _ => Actions::Connect,
    }
}

/// The token that `state` holds, if it holds one.
pub open spec fn token_of(state: States) -> Option<Seq<char>> {
    match state {
        States::Connected(token) => Some(token@),
        _ => None,
    }
}

impl Handlers for DefaultHandler {
    type Config = ConnectionConfiguration;

    type States = States;

    type Actions = Actions;

    /// Connects: the state to be in afterwards.
    fn connect(config: &ConnectionConfiguration) -> (state: States)
        ensures
            token_of(state) == Some(handed_out()),
    {
        States::Connected("123456".to_owned())
    }

    /// Refreshes the connection: the state to be in afterwards.
    fn refresh(config: &ConnectionConfiguration) -> (state: States)
        ensures
            token_of(state) == Some(handed_out()),
    {
        States::Connected("123456".to_owned())
    }

    /// Chooses the next action from the current state alone, whatever that
    /// state is: a worker that has lost its connection connects again.
    fn choose_action(previous_state: &States, current_state: &States) -> (action: Actions)
        ensures
            action == action_after(*current_state),
    {
        match current_state {
            States::Connected(_) => Actions::Refresh,
            _ => Actions::Connect,
        }
    }

    /// Carries `action` out.
    fn execute(config: &ConnectionConfiguration, action: Actions) -> (state: States)
        ensures
            token_of(state) == Some(handed_out()),
    {
        match action {
            Actions::Connect => Self::connect(config),
            Actions::Refresh => Self::refresh(config),
        }
    }

    /// The token of a connected state; nothing for any other state.
    fn get_token_from_state(state: &States) -> (token: Option<&str>)
        ensures
            match token {
                Some(text) => token_of(*state) == Some(text@),
                None => token_of(*state) is None,
            },
    {
        match state {
            States::Connected(token) => Some(token.as_str()),
            _ => None,
        }
    }
}

} // verus!
