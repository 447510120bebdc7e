//! The reporting backends.

pub mod console;
pub mod graphite;
