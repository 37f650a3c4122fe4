//! A library for resolving short video identifiers ("BV ids") to the account
//! identifier ("mid") that owns them.  It keeps a persistent cache of resolved
//! pairs, deduplicates in-flight lookups, bounds the number of concurrent
//! remote fetches, supports pausing and resuming outbound traffic, and sweeps
//! stale cache entries.  The scheduling glue (async runtime, HTTP listener,
//! timers) lives outside this crate; the decisions and the bookkeeping live
//! here, each with a verified contract.

pub mod config;
pub mod db;
pub mod logs;
pub mod server;
pub mod spider;
pub mod state;
pub mod sweeper;
pub mod text;
