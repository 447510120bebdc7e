//! How contracts speak of the functions that a caller hands in.
//!
//! The library holds no floating point. Where a number has to be read,
//! rendered or summed, it calls a function of the caller's, and its
//! contracts say which arguments that function was given and that the
//! result is one the function may return.

use vstd::prelude::*;

verus! {

/// That `number` may answer `out` when it is given the text `text`.
pub open spec fn reads_as<F: Fn(Vec<u8>) -> Option<u64>>(
    number: F,
    text: Seq<u8>,
    out: Option<u64>,
) -> bool {
    exists|t: Vec<u8>| t@ == text && number.ensures((t,), out)
}

/// That `show` may answer the text `text` for the double `bits`.
pub open spec fn shows_as<F: Fn(u64) -> Vec<u8>>(show: F, bits: u64, text: Seq<u8>) -> bool {
    exists|t: Vec<u8>| t@ == text && show.ensures((bits,), t)
}

/// That `emit` may have been given the text `text`.
pub open spec fn emitted<O: FnOnce(Vec<u8>)>(emit: O, text: Seq<u8>) -> bool {
    exists|t: Vec<u8>| t@ == text && emit.ensures((t,), ())
}

} // verus!
