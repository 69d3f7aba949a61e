//! The refresh engine on a read/write lock: the credential source it calls,
//! the lock policy, the refresh cycle and the handle that readers hold.

pub mod background;
pub mod connection_handler;
pub mod fetch_strategy;
pub mod history;
pub mod lock_around;
pub mod token_cell;
pub mod two_stage_lock;
