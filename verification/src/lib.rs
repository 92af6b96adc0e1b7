//! Channel statistics reporting: decoding channel counters, choosing the
//! most-viewed and the most recently published video of a channel, building
//! the request addresses and rendering the log entry.

pub mod channel;
pub mod config;
pub mod decimal;
pub mod error;
pub mod order;
pub mod report;
pub mod request;
pub mod video;
