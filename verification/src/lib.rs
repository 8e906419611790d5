//! A governance engine: proposals of several kinds, stake-weighted votes
//! inside a voting window, and the closing of each proposal into an outcome.

pub mod config;
pub mod dao;
pub mod decimal;
pub mod error;
pub mod laws;
pub mod proposal;
pub mod store;
pub mod tally;
pub mod time;
pub mod vote;
pub mod voting;
