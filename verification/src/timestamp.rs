//! Points in time, kept as nanoseconds since the Unix epoch within the years
//! that a calendar date can name.

use vstd::prelude::*;

verus! {

/// The first representable instant: midnight at the start of the year -9999.
pub const MIN_UNIX_NANOS: i128 = -377_705_116_800_000_000_000;

/// The last representable instant: the last nanosecond of the year 9999.
pub const MAX_UNIX_NANOS: i128 = 253_402_300_799_999_999_999;

/// The nanoseconds in an hour.
pub const NANOS_PER_HOUR: i128 = 3_600_000_000_000;

/// The instant `hours` hours before `nanos`, but not before the first
/// representable instant.
pub open spec fn hours_before(nanos: int, hours: int) -> int {
    if nanos - hours * NANOS_PER_HOUR < MIN_UNIX_NANOS {
        MIN_UNIX_NANOS as int
    } else {
        nanos - hours * NANOS_PER_HOUR
    }
}

/// Builds the UTC `time::OffsetDateTime` of the Unix timestamp `nanos` with
/// `from_unix_timestamp_nanos`, subtracts `time::Duration::hours(hours)` from
/// it with `OffsetDateTime::saturating_sub`, and gives the Unix timestamp of
/// the result. The subtraction stops at the earliest date-time that the crate
/// can hold. A timestamp outside that range, which the first call refuses,
/// and a number of hours whose seconds do not fit in 64 bits, on which the
/// second panics, are left out.
#[verifier::external_body]
fn saturating_sub_hours(nanos: i128, hours: i64) -> (r: i128)
    requires
        MIN_UNIX_NANOS <= nanos <= MAX_UNIX_NANOS,
        0 <= hours <= 0xFFFF_FFFF,
    ensures
        r == hours_before(nanos as int, hours as int),
{
    time::OffsetDateTime::from_unix_timestamp_nanos(nanos).unwrap().saturating_sub(
        time::Duration::hours(hours),
    ).unix_timestamp_nanos()
}

/// An instant between the start of the year -9999 and the end of the year
/// 9999.
#[derive(Debug, Clone, Copy, PartialEq, Eq, Hash, Structural)]
pub struct Timestamp {
    nanos: i128,
}

impl View for Timestamp {
    type V = int;

    closed spec fn view(&self) -> int {
        self.nanos as int
    }
}

impl Timestamp {
    /// The instant is representable.
    #[verifier::type_invariant]
    pub closed spec fn in_range(&self) -> bool {
        MIN_UNIX_NANOS <= self.nanos <= MAX_UNIX_NANOS
    }

    /// The instant `nanos` nanoseconds after the Unix epoch, if it is
    /// representable.
    pub fn from_unix_nanos(nanos: i128) -> (r: Option<Timestamp>)
        ensures
            r is Some <==> MIN_UNIX_NANOS <= nanos <= MAX_UNIX_NANOS,
            r matches Some(t) ==> t@ == nanos,
    {
        if MIN_UNIX_NANOS <= nanos && nanos <= MAX_UNIX_NANOS {
            Some(Timestamp { nanos })
        } else {
            None
        }
    }

    /// The nanoseconds since the Unix epoch.
    pub fn unix_nanos(&self) -> (r: i128)
        ensures
            r == self@,
            MIN_UNIX_NANOS <= r <= MAX_UNIX_NANOS,
    {
        proof {
            use_type_invariant(self);
        }
        self.nanos
    }

    /// The instant `hours` hours earlier, or the first representable instant
    /// if that would be before it.
    pub fn saturating_sub_hours(&self, hours: u32) -> (r: Timestamp)
        ensures
            r@ == hours_before(self@, hours as int),
            MIN_UNIX_NANOS <= r@ <= self@,
    {
        proof {
            use_type_invariant(self);
        }
        Timestamp { nanos: saturating_sub_hours(self.nanos, hours as i64) }
    }
}

} // verus!
