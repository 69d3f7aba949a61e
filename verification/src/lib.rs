//! Background credential refresh.
//!
//! A worker keeps one access token valid by calling a pluggable fetch
//! operation; any number of readers look at the current token through a lock.
//! This crate holds the rules of that engine: what a refresh cycle does with a
//! control signal and with the outcome of a fetch, in which order the write
//! lock and the fetch are taken, and what a reader is handed.

pub mod api_connector;
pub mod channel;
pub mod default_handler;
pub mod mutex_cell;
pub mod oauth;
pub mod timing;
pub mod token;
pub mod token_fetch;
