//! Points in time and lengths of time, counted in nanoseconds, and the one
//! place where the system clock is read.

use std::time::{Duration, SystemTime, UNIX_EPOCH};
use vstd::prelude::*;

verus! {

/// Nanoseconds in one second.
pub const NANOS_PER_SEC: u128 = 1_000_000_000;

/// A length of time in whole nanoseconds.
#[derive(Clone, Copy, Debug, PartialEq, Eq, Structural)]
pub struct Span {
    pub nanos: u128,
}

/// A point in time: the nanoseconds that have passed since the Unix epoch.
/// A clock reading before the epoch counts as the epoch itself.
#[derive(Clone, Copy, Debug, PartialEq, Eq, Structural)]
pub struct Timestamp {
    pub nanos: u128,
}

impl Span {
    /// Whether this span is at least as long as `other`.
    pub open spec fn at_least(self, other: Span) -> bool {
        self.nanos >= other.nanos
    }

    pub fn from_secs(secs: u64) -> (s: Span)
        ensures
            s.nanos == secs * NANOS_PER_SEC,
    {
        Span { nanos: secs as u128 * NANOS_PER_SEC }
    }

    pub fn is_at_least(&self, other: &Span) -> (r: bool)
        ensures
            r == self.at_least(*other),
    {
        self.nanos >= other.nanos
    }
}

impl Timestamp {
    /// The whole seconds since the epoch, cut down to their low 32 bits.
    pub open spec fn low_seconds(self) -> u32 {
        ((self.nanos / NANOS_PER_SEC) % 0x1_0000_0000) as u32
    }

    /// The time from `earlier` to `self`, or nothing if `earlier` is the
    /// later of the two.
    pub open spec fn span_since(self, earlier: Timestamp) -> Span {
        if self.nanos >= earlier.nanos {
            Span { nanos: (self.nanos - earlier.nanos) as u128 }
        } else {
            Span { nanos: 0 }
        }
    }

    pub fn from_secs(secs: u64) -> (t: Timestamp)
        ensures
            t.nanos == secs * NANOS_PER_SEC,
            t.low_seconds() == secs % 0x1_0000_0000,
    {
        let t = Timestamp { nanos: secs as u128 * NANOS_PER_SEC };
        assert(t.nanos / NANOS_PER_SEC == secs) by (nonlinear_arith)
            requires
                t.nanos == secs * NANOS_PER_SEC,
        ;
        t
    }

    pub fn seconds_low_bits(&self) -> (n: u32)
        ensures
            n == self.low_seconds(),
    {
        ((self.nanos / NANOS_PER_SEC) % 0x1_0000_0000) as u32
    }

    pub fn since(&self, earlier: &Timestamp) -> (s: Span)
        ensures
            s == self.span_since(*earlier),
    {
        if self.nanos >= earlier.nanos {
            Span { nanos: self.nanos - earlier.nanos }
        } else {
            Span { nanos: 0 }
        }
    }

    /// Reads the system clock. Nothing is known of the result: two readings
    /// may even go backwards.
    pub fn now() -> Timestamp {
        let reading = system_now();
        let since_epoch = match since_unix_epoch(&reading) {
            Some(d) => Some(whole_nanos(&d)),
            None => None,
        };
        Timestamp::from_reading(since_epoch)
    }

    /// The point in time that a clock reading stands for: the nanoseconds the
    /// clock counts since the epoch, or the epoch itself where the clock
    /// stands before it.
    pub open spec fn of_reading(since_epoch: Option<u128>) -> Timestamp {
        match since_epoch {
            Some(nanos) => Timestamp { nanos },
            None => Timestamp { nanos: 0 },
        }
    }

    /// Makes a point in time of what the clock said: `since_epoch` is the
    /// time it counts since the epoch, `None` where it stands before it.
    pub fn from_reading(since_epoch: Option<u128>) -> (t: Timestamp)
        ensures
            t == Timestamp::of_reading(since_epoch),
    {
        match since_epoch {
            Some(nanos) => Timestamp { nanos },
            None => Timestamp { nanos: 0 },
        }
    }
}

/// `std::time::SystemTime`, a reading of the system clock. It is only handed
/// from one call to the next.
#[verifier::external_type_specification]
#[verifier::external_body]
pub struct ExSystemTime(std::time::SystemTime);

/// `SystemTime::now`: the current reading of the system clock. The reading
/// depends on the machine, so nothing is claimed of it.
#[verifier::external_body]
fn system_now() -> SystemTime {
    SystemTime::now()
}

/// `SystemTime::duration_since` against `UNIX_EPOCH`: the time passed since
/// the epoch, or `None` where the reading lies before it. Nothing is claimed
/// of the value.
#[verifier::external_body]
fn since_unix_epoch(reading: &SystemTime) -> Option<Duration> {
    reading.duration_since(UNIX_EPOCH).ok()
}

/// `Duration::as_nanos`: the length in whole nanoseconds. Nothing is claimed
/// of the value.
#[verifier::external_body]
fn whole_nanos(d: &Duration) -> u128 {
    d.as_nanos()
}

} // verus!
