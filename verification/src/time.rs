//! Points in time, spans of time, and the clock.

use chrono::Utc;
use vstd::prelude::*;

verus! {

/// How many nanoseconds make up a second.
pub const NANOS_PER_SECOND: u32 = 1_000_000_000;

/// A point in time: `seconds` whole seconds after the start of 1970 in UTC
/// (before it, where negative), and `nanos` nanoseconds more.
#[derive(Clone, Copy, Debug, PartialEq, Eq)]
pub struct Timestamp {
    pub seconds: i64,
    pub nanos: u32,
}

/// A span of time: `seconds` whole seconds and `nanos` nanoseconds more.
#[derive(Clone, Copy, Debug, PartialEq, Eq)]
pub struct Interval {
    pub seconds: u64,
    pub nanos: u32,
}

impl Timestamp {
    /// The point in time as nanoseconds after the start of 1970.
    pub open spec fn instant(self) -> int {
        self.seconds * NANOS_PER_SECOND + self.nanos
    }
}

impl Interval {
    /// The span in nanoseconds.
    pub open spec fn length(self) -> int {
        self.seconds * NANOS_PER_SECOND + self.nanos
    }
}

/// The nanoseconds from `earlier` to `later`; negative where `later` is the
/// earlier of the two.
pub open spec fn elapsed(earlier: Timestamp, later: Timestamp) -> int {
    later.instant() - earlier.instant()
}

/// Whether at least `interval` lies between `earlier` and `later`. A span
/// that is exactly `interval` long counts.
pub fn has_elapsed(earlier: Timestamp, later: Timestamp, interval: Interval) -> (enough: bool)
    ensures
        enough == (elapsed(earlier, later) >= interval.length()),
{
    let scale: i128 = NANOS_PER_SECOND as i128;
    let passed: i128 = (later.seconds as i128 - earlier.seconds as i128) * scale + (
    later.nanos as i128 - earlier.nanos as i128);
    let wanted: i128 = interval.seconds as i128 * scale + interval.nanos as i128;
    passed >= wanted
}

/// Calls `chrono`: reads the clock with `Utc::now` and takes the reading
/// apart with `DateTime::timestamp` and `DateTime::timestamp_subsec_nanos`.
///
/// Trusted, and nothing is claimed of the reading: two readings may come
/// out in any order. `Utc::now` panics on a machine whose clock stands
/// before 1970.
#[verifier::external_body]
pub(crate) fn utc_now() -> (now: Timestamp) {
    let now = Utc::now();
    Timestamp { seconds: now.timestamp(), nanos: now.timestamp_subsec_nanos() }
}

} // verus!
