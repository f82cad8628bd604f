//! Instants on the UTC time line, in the range that `chrono::DateTime<Utc>`
//! can hold.

use vstd::prelude::*;

verus! {

/// Timestamp of the first second that `chrono` can represent:
/// midnight of 1 January of the year -262143.
pub const MIN_SECONDS: i64 = -8_334_601_228_800;

/// Timestamp of the last second that `chrono` can represent:
/// 23:59:59 of 31 December of the year 262142.
pub const MAX_SECONDS: i64 = 8_210_266_876_799;

pub const NANOS_PER_SECOND: u32 = 1_000_000_000;

pub const SECONDS_PER_MINUTE: i64 = 60;

pub const SECONDS_PER_DAY: i64 = 86_400;

/// Whether a count of seconds since the Unix epoch names a representable
/// second.
pub open spec fn seconds_in_range(secs: int) -> bool {
    MIN_SECONDS <= secs <= MAX_SECONDS
}

/// A point in time: whole seconds since 1970-01-01T00:00:00Z and the
/// nanoseconds into that second.
#[derive(Clone, Copy, Debug, PartialEq, Eq, Structural)]
pub struct Instant {
    pub secs: i64,
    pub nanos: u32,
}

/// Calls `chrono::DateTime::<Utc>::checked_add_signed` on the instant with
/// the given timestamp, with a `TimeDelta` of `offset` whole seconds.
///
/// Trusted: the sum is returned as a timestamp, with the nanoseconds
/// untouched, exactly when it lies between `MIN_SECONDS` and `MAX_SECONDS`,
/// the timestamps of `DateTime::<Utc>::MIN_UTC` and `MAX_UTC`; otherwise
/// `chrono` refuses the delta or the resulting date, and the answer is `None`.
#[verifier::external_body]
fn chrono_add_seconds(secs: i64, nanos: u32, offset: i64) -> (r: Option<(i64, u32)>)
    requires
        seconds_in_range(secs as int),
        nanos < NANOS_PER_SECOND,
    ensures
        seconds_in_range(secs + offset) ==> r == Some(((secs + offset) as i64, nanos)),
        !seconds_in_range(secs + offset) ==> r.is_none(),
{
    let start = chrono::DateTime::from_timestamp(secs, nanos)?;
    let delta = chrono::TimeDelta::try_seconds(offset)?;
    let end = start.checked_add_signed(delta)?;
    Some((end.timestamp(), end.timestamp_subsec_nanos()))
}

impl Instant {
    /// An instant is well formed when `chrono` can represent it and it is not
    /// inside a leap second.
    pub open spec fn wf(self) -> bool {
        seconds_in_range(self.secs as int) && self.nanos < NANOS_PER_SECOND
    }

    /// The instant `offset` seconds away from `self`, where there is one.
    pub open spec fn shifted(self, offset: int) -> Option<Instant> {
        if seconds_in_range(self.secs + offset) {
            Some(Instant { secs: (self.secs + offset) as i64, nanos: self.nanos })
        } else {
            None
        }
    }

    /// Builds an instant from a timestamp, or `None` where the timestamp is
    /// out of range or the nanoseconds do not lie within one second.
    pub fn new(secs: i64, nanos: u32) -> (r: Option<Instant>)
        ensures
            r == if seconds_in_range(secs as int) && nanos < NANOS_PER_SECOND {
                Some(Instant { secs, nanos })
            } else {
                None
            },
            r matches Some(t) ==> t.wf(),
    {
        if MIN_SECONDS <= secs && secs <= MAX_SECONDS && nanos < NANOS_PER_SECOND {
            Some(Instant { secs, nanos })
        } else {
            None
        }
    }

    /// Whether `self` comes before `other` on the time line.
    pub open spec fn is_before(self, other: Instant) -> bool {
        self.secs < other.secs || (self.secs == other.secs && self.nanos < other.nanos)
    }

    /// Tells whether `self` comes before `other`.
    pub fn before(&self, other: &Instant) -> (r: bool)
        ensures
            r == self.is_before(*other),
    {
        self.secs < other.secs || (self.secs == other.secs && self.nanos < other.nanos)
    }

    /// Adds a signed number of seconds, or returns `None` where the result
    /// would leave the representable range.
    pub fn checked_add_seconds(self, offset: i64) -> (r: Option<Instant>)
        requires
            self.wf(),
        ensures
            r == self.shifted(offset as int),
            r matches Some(t) ==> t.wf(),
    {
        match chrono_add_seconds(self.secs, self.nanos, offset) {
            Some((secs, nanos)) => Some(Instant { secs, nanos }),
            None => None,
        }
    }
}

} // verus!
