//! Instants on the UTC time line, and the system clock.

use vstd::prelude::*;

verus! {

/// The largest number of seconds, in absolute value, that the clock reports.
pub const CLOCK_MAX_SECS: i64 = 0x1_0000_0000_0000;

/// Nanoseconds in one second.
pub const NANOS_PER_SEC: u32 = 1_000_000_000;

/// An instant: whole seconds since 1970-01-01T00:00:00 UTC and the
/// nanoseconds past that second. Instants are ordered by seconds first and
/// by nanoseconds second.
#[derive(Clone, Copy, Debug, PartialEq, Eq, Structural)]
pub struct Timestamp {
    pub secs: i64,
    pub nanos: u32,
}

impl Timestamp {
    /// `self` lies strictly before `other`.
    pub open spec fn is_before(self, other: Timestamp) -> bool {
        self.secs < other.secs || (self.secs == other.secs && self.nanos < other.nanos)
    }

    /// The instant `minutes` minutes after `self`, where there is one (see
    /// `can_advance`).
    pub open spec fn plus_minutes(self, minutes: int) -> Timestamp
        recommends
            self.can_advance(minutes),
    {
        Timestamp { secs: (self.secs + 60 * minutes) as i64, nanos: self.nanos }
    }

    /// `self` advanced by `minutes` minutes is still an instant of this type.
    pub open spec fn can_advance(self, minutes: int) -> bool {
        i64::MIN <= self.secs + 60 * minutes <= i64::MAX
    }

    /// The instant is one that the system clock can report.
    pub open spec fn from_clock(self) -> bool {
        -CLOCK_MAX_SECS <= self.secs <= CLOCK_MAX_SECS && self.nanos < NANOS_PER_SEC
    }

    pub fn new(secs: i64, nanos: u32) -> (t: Timestamp)
        ensures
            t.secs == secs,
            t.nanos == nanos,
    {
        Timestamp { secs, nanos }
    }

    /// Whether `self` lies strictly before `other`.
    pub fn before(&self, other: &Timestamp) -> (b: bool)
        ensures
            b == self.is_before(*other),
    {
        self.secs < other.secs || (self.secs == other.secs && self.nanos < other.nanos)
    }

    /// The instant `minutes` minutes later.
    pub fn plus(&self, minutes: i64) -> (t: Timestamp)
        requires
            self.can_advance(minutes as int),
        ensures
            t == self.plus_minutes(minutes as int),
    {
        let secs: i128 = self.secs as i128 + 60 * (minutes as i128);
        Timestamp { secs: secs as i64, nanos: self.nanos }
    }

    /// The instant `minutes` minutes later, or `None` where the seconds would
    /// leave `i64`.
    pub fn advance(&self, minutes: i64) -> (t: Option<Timestamp>)
        ensures
            self.can_advance(minutes as int) ==> t == Some(self.plus_minutes(minutes as int)),
            !self.can_advance(minutes as int) ==> t is None,
    {
        let secs: i128 = self.secs as i128 + 60 * (minutes as i128);
        if secs < i64::MIN as i128 || secs > i64::MAX as i128 {
            None
        } else {
            Some(self.plus(minutes))
        }
    }
}

/// Reads the system clock through `chrono::Utc::now`, and takes the seconds
/// and nanoseconds of the `DateTime` it returns (`timestamp`,
/// `timestamp_subsec_nanos`). Not proved: that the seconds stay within
/// `CLOCK_MAX_SECS` (chrono builds the value with `from_timestamp`, which
/// refuses a day number outside `i32`) and that the nanoseconds are below one
/// second (they come from `Duration::subsec_nanos`). Nothing is claimed of
/// which instant it is. chrono panics where the system clock stands before
/// 1970.
#[verifier::external_body]
pub(crate) fn utc_now() -> (now: Timestamp)
    ensures
        now.from_clock(),
{
    let now = chrono::Utc::now();
    Timestamp { secs: now.timestamp(), nanos: now.timestamp_subsec_nanos() }
}

} // verus!
