//! Timestamps as plain values: seconds and nanoseconds since the Unix
//! epoch, UTC. This is the fixed wire representation that crosses the
//! service boundary; the clock itself is read through a trusted wrapper.

use vstd::prelude::*;

verus! {

/// A point in time: whole seconds since the Unix epoch plus a
/// subsecond nanosecond part.
#[derive(Clone, Copy, Debug, PartialEq, Eq, Structural)]
pub struct Timestamp {
    pub seconds: i64,
    pub nanos: u32,
}

/// `a` is no later than `b`, comparing seconds first and the
/// nanosecond part on ties.
pub open spec fn ts_le(a: Timestamp, b: Timestamp) -> bool {
    a.seconds < b.seconds || (a.seconds == b.seconds && a.nanos <= b.nanos)
}

/// `a` is strictly earlier than `b`.
pub open spec fn ts_lt(a: Timestamp, b: Timestamp) -> bool {
    ts_le(a, b) && a != b
}

impl Timestamp {
    /// Whether `self` is no later than `other`.
    pub fn le(&self, other: &Timestamp) -> (r: bool)
        ensures
            r == ts_le(*self, *other),
    {
        self.seconds < other.seconds || (self.seconds == other.seconds && self.nanos
            <= other.nanos)
    }
}

/// Relies on `chrono::Utc::now` together with `DateTime::timestamp` and
/// `DateTime::timestamp_subsec_nanos`: the current time as seconds since
/// the Unix epoch and a subsecond nanosecond part. The nanosecond part is
/// below two billion (it exceeds one billion only while a leap second is
/// represented). The value depends on the clock, so nothing relates two
/// calls; every caller states only what holds of any reading.
#[verifier::external_body]
pub(crate) fn now_timestamp() -> (r: Timestamp)
    ensures
        r.nanos < 2_000_000_000,
{
    let now = chrono::Utc::now();
    Timestamp { seconds: now.timestamp(), nanos: now.timestamp_subsec_nanos() }
}

} // verus!
