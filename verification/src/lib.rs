//! Verified core of a publish/subscribe benchmarking harness.
//!
//! The crate models the three cooperating roles of the harness — a producer
//! that emits a numbered message stream, a relay that forwards parameter
//! changes, and an analyser that sweeps a matrix of (delivery guarantee,
//! publish delay) combinations while measuring throughput, loss, reordering
//! and inter-arrival latency.  Everything that decides or computes lives here
//! with a proved contract; the message-bus plumbing around it stays outside.

pub mod analyser;
pub mod control;
pub mod digits;
pub mod producer;
pub mod stats;
pub mod sweep;

use vstd::prelude::*;

verus! {

/// Character-wise equality of two strings.
pub fn str_eq(a: &str, b: &str) -> (r: bool)
    ensures
        r == (a@ == b@),
{
    let sa = String::from_str(a);
    let sb = String::from_str(b);
    sa == sb
}

} // verus!
