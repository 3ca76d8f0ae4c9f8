//! Batch submission engine for locally-defined simulation jobs.
//!
//! The engine discovers jobs in a root directory, lets the user review and
//! select them in an interactive session, and drives each selected job
//! through a multi-stage remote submission pipeline while aggregating
//! progress and supporting mid-flight cancellation.  Everything here is
//! pure logic over plain values: the surrounding binary owns the terminal,
//! the filesystem and the network, and feeds the engine discrete events.

use vstd::prelude::*;

pub mod account;
pub mod discovery;
pub mod fmt;
pub mod job;
pub mod params;
pub mod picker;
pub mod pipeline;
pub mod session;
pub mod types;

verus! {

/// Adds two byte counters without overflowing, clamping at the maximum.
pub fn saturating_add_bytes(a: u64, b: u64) -> (r: u64)
    ensures
        r == if a + b <= u64::MAX { a + b } else { u64::MAX as int },
{
    if a <= u64::MAX - b {
        a + b
    } else {
        u64::MAX
    }
}

} // verus!
