//! Decision logic for named duplex byte channels and the events that await
//! their asynchronous operations.
//!
//! Platform calls are made by the caller; this crate classifies what they
//! returned and keeps each endpoint's connection state.

pub mod codes;
pub mod error;
pub mod connect;
pub mod endpoint;
pub mod event;
pub mod name;
