//! Points in time, with nanosecond resolution, and the whole seconds between
//! two of them.

use vstd::prelude::*;

verus! {

/// Nanoseconds in one second.
pub const NANOS_PER_SECOND: u32 = 1_000_000_000;

/// The first second that has a date: the start of the year -262143.
pub const MIN_TIMESTAMP_SECS: i64 = -8_334_601_228_800;

/// The last second that has a date: the end of the year 262142.
pub const MAX_TIMESTAMP_SECS: i64 = 8_210_266_876_799;

/// Whether the timestamp made of `secs` whole seconds since the Unix epoch
/// and `nanos` nanoseconds after them is one that an `Instant` holds: the
/// second lies within the years -262143 to 262142, which are the years that
/// `chrono` has dates for, and the nanoseconds stay below one second.
pub open spec fn representable(secs: int, nanos: int) -> bool {
    &&& MIN_TIMESTAMP_SECS <= secs <= MAX_TIMESTAMP_SECS
    &&& 0 <= nanos < NANOS_PER_SECOND
}

/// The nanoseconds since the Unix epoch of the timestamp `(secs, nanos)`.
pub open spec fn timestamp_nanos(secs: int, nanos: int) -> int {
    secs * 1_000_000_000 + nanos
}

/// The whole seconds in a span of `nanos` nanoseconds, rounded towards zero.
pub open spec fn whole_seconds(nanos: int) -> int {
    if nanos >= 0 {
        nanos / 1_000_000_000
    } else {
        -((-nanos) / 1_000_000_000)
    }
}

/// Builds two `chrono::DateTime<Utc>` values with `DateTime::from_timestamp`,
/// subtracts them and takes `TimeDelta::num_seconds` of the difference.
/// `from_timestamp` takes every second of the years -262143 to 262142 with
/// nanoseconds below one second, so it refuses nothing that the
/// precondition admits. Between two timestamps without a leap-second
/// fraction the difference is exact, and `num_seconds` drops the fraction of
/// a second, towards zero.
#[verifier::external_body]
fn chrono_seconds_between(
    later_secs: i64,
    later_nanos: u32,
    earlier_secs: i64,
    earlier_nanos: u32,
) -> (seconds: i64)
    requires
        representable(later_secs as int, later_nanos as int),
        representable(earlier_secs as int, earlier_nanos as int),
    ensures
        seconds == whole_seconds(
            timestamp_nanos(later_secs as int, later_nanos as int) - timestamp_nanos(
                earlier_secs as int,
                earlier_nanos as int,
            ),
        ),
{
    let later = chrono::DateTime::from_timestamp(later_secs, later_nanos).unwrap();
    let earlier = chrono::DateTime::from_timestamp(earlier_secs, earlier_nanos).unwrap();
    (later - earlier).num_seconds()
}

/// A point in time: whole seconds since the Unix epoch and the nanoseconds
/// after them. Every value lies within the years that `chrono` has dates
/// for and has no leap-second fraction.
#[derive(Clone, Copy, Debug, PartialEq, Eq, Structural)]
pub struct Instant {
    secs: i64,
    nanos: u32,
}

impl View for Instant {
    type V = int;

    /// Nanoseconds since the Unix epoch.
    closed spec fn view(&self) -> int {
        timestamp_nanos(self.secs as int, self.nanos as int)
    }
}

impl Instant {
    #[verifier::type_invariant]
    spec fn well_formed(self) -> bool {
        representable(self.secs as int, self.nanos as int)
    }

    /// The instant `nanos` nanoseconds after `secs` whole seconds since the
    /// Unix epoch, or `None` where `nanos` reaches a full second or the
    /// second lies outside the years that have a date.
    pub fn new(secs: i64, nanos: u32) -> (instant: Option<Instant>)
        ensures
            instant.is_some() <==> representable(secs as int, nanos as int),
            instant matches Some(t) ==> t@ == timestamp_nanos(secs as int, nanos as int),
    {
        if nanos < NANOS_PER_SECOND && MIN_TIMESTAMP_SECS <= secs && secs <= MAX_TIMESTAMP_SECS {
            Some(Instant { secs, nanos })
        } else {
            None
        }
    }

    /// Whole seconds since the Unix epoch, rounded down.
    pub fn secs(&self) -> (secs: i64)
        ensures
            secs == self@ / 1_000_000_000,
    {
        proof {
            use_type_invariant(self);
        }
        self.secs
    }

    /// Nanoseconds since the last whole second.
    pub fn subsec_nanos(&self) -> (nanos: u32)
        ensures
            nanos == self@ % 1_000_000_000,
    {
        proof {
            use_type_invariant(self);
        }
        self.nanos
    }

    /// Whether this instant lies strictly after `other`.
    pub fn is_after(&self, other: &Instant) -> (after: bool)
        ensures
            after == (self@ > other@),
    {
        proof {
            use_type_invariant(self);
            use_type_invariant(other);
        }
        self.secs > other.secs || (self.secs == other.secs && self.nanos > other.nanos)
    }

    /// The whole seconds from `earlier` to this instant, rounded towards
    /// zero; negative where this instant comes first.
    pub fn whole_seconds_since(&self, earlier: &Instant) -> (seconds: i64)
        ensures
            seconds == whole_seconds(self@ - earlier@),
    {
        proof {
            use_type_invariant(self);
            use_type_invariant(earlier);
        }
        chrono_seconds_between(self.secs, self.nanos, earlier.secs, earlier.nanos)
    }
}

} // verus!
