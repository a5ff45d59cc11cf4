//! Spans of time as plain values, and the clock.

use std::time::{Duration, Instant};
use vstd::prelude::*;

verus! {

/// `std::time::Instant`, a reading of the monotonic clock. It is carried
/// from a client's admission to the record of its session and is opaque in
/// between.
#[verifier::external_type_specification]
#[verifier::external_body]
pub struct ExInstant(std::time::Instant);

/// A span of time: whole seconds, and the nanoseconds beyond them.
#[derive(Clone, Copy, Debug, PartialEq, Eq, Structural)]
pub struct TimeSpan {
    pub secs: u64,
    pub nanos: u32,
}

impl TimeSpan {
    /// The whole milliseconds in this span.
    pub open spec fn millis(self) -> nat {
        self.secs as nat * 1000 + self.nanos as nat / 1_000_000
    }

    /// The span of `millis` milliseconds.
    pub open spec fn of_millis(millis: u64) -> TimeSpan {
        TimeSpan { secs: millis / 1000, nanos: ((millis % 1000) * 1_000_000) as u32 }
    }

    /// The span of `millis` milliseconds.
    pub fn from_millis(millis: u64) -> (span: TimeSpan)
        ensures
            span == TimeSpan::of_millis(millis),
            span.millis() == millis,
            span.nanos < 1_000_000_000,
    {
        let below: u64 = millis % 1000;
        let nanos: u32 = (below * 1_000_000) as u32;
        TimeSpan { secs: millis / 1000, nanos }
    }

    /// The whole seconds in this span.
    pub fn as_secs(&self) -> (secs: u64)
        ensures
            secs == self.secs,
    {
        self.secs
    }

    /// The whole milliseconds in this span.
    pub fn as_millis(&self) -> (millis: u128)
        ensures
            millis == self.millis(),
    {
        self.secs as u128 * 1000 + (self.nanos / 1_000_000) as u128
    }
}

/// `Instant::now` reads the monotonic clock. The reading depends on when the
/// call is made: nothing is claimed of it.
pub assume_specification[ Instant::now ]() -> (reading: Instant);

/// `Instant::saturating_duration_since` gives the time that passed from
/// `earlier` to the instant it is called on, and zero where `earlier` is the
/// later of the two. Both instants are opaque, so nothing is claimed of the
/// result.
pub assume_specification[ Instant::saturating_duration_since ](
    later: &Instant,
    earlier: Instant,
) -> (passed: Duration);

/// `Duration::as_secs` gives the whole seconds of a duration. A duration is
/// opaque here, so nothing is claimed of the number.
pub assume_specification[ Duration::as_secs ](duration: &Duration) -> (seconds: u64);

/// `Duration::subsec_nanos` gives the part of a duration below one second, in
/// nanoseconds. A duration is opaque here, so nothing is claimed of the
/// number.
pub assume_specification[ Duration::subsec_nanos ](duration: &Duration) -> (nanos: u32);

/// The time that has passed since `trace` was read from the clock.
pub(crate) fn elapsed_since(trace: Instant) -> TimeSpan {
    let passed = Instant::now().saturating_duration_since(trace);
    TimeSpan { secs: passed.as_secs(), nanos: passed.subsec_nanos() }
}

} // verus!
