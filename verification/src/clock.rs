//! Wall-clock instants as plain integers.

use vstd::prelude::*;

verus! {

/// Upper bound (exclusive) of the sub-second part: chrono keeps one extra
/// second of room to represent a leap second.
pub const NANOS_LIMIT: u32 = 2_000_000_000;

/// An instant in UTC: whole seconds since the Unix epoch and the nanoseconds
/// passed since that second began.
#[derive(Clone, Copy, Debug, PartialEq, Eq, Structural)]
pub struct Timestamp {
    pub seconds: i64,
    pub nanos: u32,
}

impl Timestamp {
    /// The sub-second part is one that chrono can hold.
    pub open spec fn well_formed(self) -> bool {
        self.nanos < NANOS_LIMIT
    }
}

/// Trusted: reads the system clock with `std::time::SystemTime::now`, turns
/// the reading into a `chrono::DateTime<Utc>` with chrono's `From<SystemTime>`
/// and splits it with `DateTime::timestamp` and
/// `DateTime::timestamp_subsec_nanos`. Nothing is claimed about which instant
/// comes back, only that its nanosecond part is in the range chrono
/// documents. A clock that stands before the Unix epoch gives negative
/// seconds. chrono gives up only on a reading outside the years it can
/// represent, some 262,000 to either side of the epoch.
#[verifier::external_body]
pub(crate) fn now() -> (t: Timestamp)
    ensures
        t.well_formed(),
{
    let instant = chrono::DateTime::<chrono::Utc>::from(std::time::SystemTime::now());
    Timestamp { seconds: instant.timestamp(), nanos: instant.timestamp_subsec_nanos() }
}

} // verus!
