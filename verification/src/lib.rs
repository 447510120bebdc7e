//! A statsd metrics aggregator: the wire grammar, the aggregation store with
//! its management commands, and the text that the reporting backends emit.
//!
//! All text is handled as bytes. Sample values are carried as the bit pattern
//! of an IEEE-754 double; the library stores and moves them and leaves their
//! arithmetic to the caller.

pub mod caller;
pub mod client;
pub mod clock;
pub mod metric;
pub mod server;
pub mod table;
pub mod text;
