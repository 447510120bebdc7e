//! The daemon's side: the aggregation store and the reporting backends.

pub mod backend;
pub mod backends;
pub mod buckets;
pub mod config;
pub mod daemon;
