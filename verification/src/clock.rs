//! The clocks. Each function here asks the `time` crate; what it answers
//! depends on the moment of the call, so nothing is claimed of it.

use vstd::prelude::*;

verus! {

/// A moment of the wall clock: whole seconds since the epoch, and the
/// nanoseconds into that second.
#[derive(Clone, Copy, Debug, PartialEq, Eq)]
pub struct Timestamp {
    pub sec: i64,
    pub nsec: i32,
}

/// The present moment, read with `time::get_time`. Trusted; the contract
/// claims nothing of the moment returned.
#[verifier::external_body]
pub(crate) fn now() -> (r: Timestamp) {
    let t = time::get_time();
    Timestamp { sec: t.sec, nsec: t.nsec }
}

/// The present moment in UTC as RFC 3339 text, made by `time::now_utc` and
/// `Tm::rfc3339`. Trusted; the contract claims nothing of the text returned.
#[verifier::external_body]
pub(crate) fn utc_stamp() -> (r: Vec<u8>) {
    time::now_utc().rfc3339().to_string().into_bytes()
}

/// The reading of the high-resolution counter in nanoseconds, from
/// `time::precise_time_ns`. Trusted; the contract claims nothing of the
/// reading returned.
#[verifier::external_body]
pub(crate) fn precise_ns() -> (r: u64) {
    time::precise_time_ns()
}

} // verus!
