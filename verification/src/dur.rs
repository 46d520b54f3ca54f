//! A plain-value span of time, used for every configurable timeout, keepalive
//! interval and rate-limit window. Seconds and nanoseconds are carried
//! separately, with the nanoseconds always below one second.

use vstd::prelude::*;

verus! {

/// A non-negative span of time: `secs` whole seconds plus `nanos`
/// nanoseconds, where `nanos` stays below one second.
#[derive(Debug, Clone, Copy, PartialEq, Eq, Structural)]
pub struct TimeSpan {
    pub secs: u64,
    pub nanos: u32,
}

pub const NANOS_PER_SEC: u32 = 1_000_000_000;

pub const NANOS_PER_MILLI: u32 = 1_000_000;

impl TimeSpan {
    /// The nanosecond part never reaches a whole second.
    pub open spec fn wf(&self) -> bool {
        self.nanos < NANOS_PER_SEC
    }

    pub fn from_secs(secs: u64) -> (t: TimeSpan)
        ensures
            t.wf(),
            t.secs == secs,
            t.nanos == 0,
    {
        TimeSpan { secs, nanos: 0 }
    }

    pub fn from_millis(millis: u64) -> (t: TimeSpan)
        ensures
            t.wf(),
            t.secs == millis / 1000,
            t.nanos == (millis % 1000) * NANOS_PER_MILLI,
    {
        let secs: u64 = millis / 1000;
        let rem: u64 = millis % 1000;
        TimeSpan { secs, nanos: (rem as u32) * NANOS_PER_MILLI }
    }
}

} // verus!
