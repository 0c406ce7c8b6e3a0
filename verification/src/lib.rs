//! Retry decisions for outbound HTTP requests: an exponential backoff schedule
//! with a bounded attempt budget, optional jitter, and request replication.

pub mod backoff;
pub mod engine;
pub mod jitter;
pub mod laws;
pub mod multiplier;
pub mod outcome;
mod random;
pub mod request;
pub mod syntax;
