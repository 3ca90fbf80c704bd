//! Points in time, as seconds and nanoseconds since the Unix epoch.

use vstd::prelude::*;

verus! {

/// Nanoseconds in one second.
pub const NANOS_PER_SECOND: u32 = 1_000_000_000;

/// Seconds in seven days, the lifetime of a queued vouch.
pub const SECONDS_PER_WEEK: u64 = 604_800;

/// An instant in UTC: whole seconds since the Unix epoch and the nanoseconds
/// within that second.
#[derive(Clone, Copy, Debug, PartialEq, Eq, Structural)]
pub struct Timestamp {
    pub secs: i64,
    pub nanos: u32,
}

impl Timestamp {
    /// The nanosecond part is below one second.
    pub open spec fn wf(&self) -> bool {
        self.nanos < NANOS_PER_SECOND
    }

    /// Nanoseconds since the Unix epoch.
    pub open spec fn as_nanos(&self) -> int {
        self.secs * 1_000_000_000 + self.nanos
    }

    /// The instant `seconds` after this one, held at the last representable
    /// second where the sum would pass it.
    pub open spec fn spec_plus_seconds(&self, seconds: u64) -> Timestamp {
        if self.secs + seconds > i64::MAX {
            Timestamp { secs: i64::MAX, nanos: self.nanos }
        } else {
            Timestamp { secs: (self.secs + seconds) as i64, nanos: self.nanos }
        }
    }

    /// Builds an instant; `None` where `nanos` is not below one second.
    pub fn new(secs: i64, nanos: u32) -> (r: Option<Timestamp>)
        ensures
            r == if nanos < NANOS_PER_SECOND {
                Some(Timestamp { secs, nanos })
            } else {
                None::<Timestamp>
            },
    {
        if nanos < NANOS_PER_SECOND {
            Some(Timestamp { secs, nanos })
        } else {
            None
        }
    }

    /// Whether the nanosecond part is below one second.
    pub fn is_valid(&self) -> (r: bool)
        ensures
            r == self.wf(),
    {
        self.nanos < NANOS_PER_SECOND
    }

    /// Whether this instant is at or before `other`.
    pub fn at_or_before(&self, other: &Timestamp) -> (r: bool)
        requires
            self.wf(),
            other.wf(),
        ensures
            r == (self.as_nanos() <= other.as_nanos()),
    {
        self.secs < other.secs || (self.secs == other.secs && self.nanos <= other.nanos)
    }

    /// Whether more than `seconds` have passed between `earlier` and this
    /// instant.
    pub fn elapsed_exceeds(&self, earlier: &Timestamp, seconds: u64) -> (r: bool)
        requires
            self.wf(),
            earlier.wf(),
        ensures
            r == (self.as_nanos() - earlier.as_nanos() > seconds * 1_000_000_000),
    {
        let now_secs: i128 = self.secs as i128;
        let then_secs: i128 = earlier.secs as i128;
        let whole: i128 = now_secs - then_secs;
        let limit: i128 = seconds as i128;
        if whole > limit {
            // A full second beyond the limit outweighs any nanosecond part.
            true
        } else if whole == limit {
            self.nanos > earlier.nanos
        } else {
            false
        }
    }

    /// Whether at least `seconds` have passed between `earlier` and this
    /// instant.
    pub fn elapsed_at_least(&self, earlier: &Timestamp, seconds: u64) -> (r: bool)
        requires
            self.wf(),
            earlier.wf(),
        ensures
            r == (self.as_nanos() - earlier.as_nanos() >= seconds * 1_000_000_000),
    {
        let now_secs: i128 = self.secs as i128;
        let then_secs: i128 = earlier.secs as i128;
        let whole: i128 = now_secs - then_secs;
        let limit: i128 = seconds as i128;
        if whole > limit {
            true
        } else if whole == limit {
            self.nanos >= earlier.nanos
        } else {
            false
        }
    }

    /// The instant `seconds` later, saturating at the last representable second.
    pub fn plus_seconds(&self, seconds: u64) -> (r: Timestamp)
        ensures
            r == self.spec_plus_seconds(seconds),
            self.wf() ==> r.wf(),
    {
        let sum: i128 = self.secs as i128 + seconds as i128;
        if sum > i64::MAX as i128 {
            Timestamp { secs: i64::MAX, nanos: self.nanos }
        } else {
            Timestamp { secs: sum as i64, nanos: self.nanos }
        }
    }
}

} // verus!
