//! Verified core of a trading gateway: the account roster, the decisions of
//! the request router and of the HTTP front, and the response envelope.

pub mod codec;
pub mod config;
pub mod envelope;
pub mod error;
pub mod executor;
pub mod front;
pub mod keys;
pub mod types;
