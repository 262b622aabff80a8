//! Instants at millisecond precision.

use vstd::prelude::*;

verus! {

/// An instant in UTC, as milliseconds relative to 1970-01-01T00:00:00Z,
/// leap seconds not counted.
#[derive(Clone, Copy, Debug, PartialEq, Eq, Structural)]
pub struct Timestamp {
    pub millis: i64,
}

impl Timestamp {
    /// The current instant, truncated to the millisecond. Nothing is known
    /// of the value: two calls may give any two instants.
    pub fn now() -> Timestamp {
        Timestamp { millis: utc_now_millis() }
    }
}

/// Reads the system clock with `std::time::SystemTime::now`, converts the
/// instant with chrono's `From<SystemTime>` for `DateTime<Utc>` and counts
/// its milliseconds with `DateTime::timestamp_millis`. Nothing is claimed
/// of the value: a clock that stands before 1970 gives a negative count.
/// The conversion has a value for every instant within the range of dates
/// that chrono holds, some 262,000 years to either side of 1970.
#[verifier::external_body]
fn utc_now_millis() -> i64 {
    chrono::DateTime::<chrono::Utc>::from(std::time::SystemTime::now()).timestamp_millis()
}

} // verus!
