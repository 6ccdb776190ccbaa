//! Capture times and inter-packet delays with nanosecond resolution.

use vstd::prelude::*;

verus! {

pub const NANOS_PER_SEC: u128 = 1_000_000_000;

pub const NANOS_PER_MICRO: u128 = 1_000;

pub const NANOS_PER_MILLI: u128 = 1_000_000;

/// The number of nanoseconds in `secs` seconds and `micros` microseconds.
pub open spec fn nanos_of(secs: u64, micros: u64) -> nat {
    (secs as nat) * 1_000_000_000 + (micros as nat) * 1_000
}

/// A non-negative span of time. Its view is its length in nanoseconds.
#[derive(Clone, Copy, Debug, PartialEq, Eq, Hash, Structural)]
pub struct TimeSpan {
    nanos: u128,
}

impl View for TimeSpan {
    type V = nat;

    closed spec fn view(&self) -> nat {
        self.nanos as nat
    }
}

impl TimeSpan {
    /// The empty span.
    pub fn zero() -> (t: TimeSpan)
        ensures
            t@ == 0,
    {
        TimeSpan { nanos: 0 }
    }

    /// The span of `nanos` nanoseconds.
    pub fn from_nanos(nanos: u128) -> (t: TimeSpan)
        ensures
            t@ == nanos,
    {
        TimeSpan { nanos }
    }

    /// The span of `millis` milliseconds.
    pub fn from_millis(millis: u64) -> (t: TimeSpan)
        ensures
            t@ == millis * 1_000_000,
    {
        TimeSpan { nanos: (millis as u128) * NANOS_PER_MILLI }
    }

    /// The span from the epoch to a capture timestamp given as whole seconds
    /// and microseconds. The microseconds may exceed one second.
    pub fn from_capture(secs: u64, micros: u64) -> (t: TimeSpan)
        ensures
            t@ == nanos_of(secs, micros),
    {
        let whole: u128 = (secs as u128) * NANOS_PER_SEC;
        let part: u128 = (micros as u128) * NANOS_PER_MICRO;
        TimeSpan { nanos: whole + part }
    }

    /// The length in nanoseconds.
    pub fn as_nanos(&self) -> (n: u128)
        ensures
            n == self@,
    {
        self.nanos
    }

    /// The whole seconds of the span.
    pub fn as_secs(&self) -> (s: u128)
        ensures
            s == self@ / 1_000_000_000,
    {
        self.nanos / NANOS_PER_SEC
    }

    /// What is left of the span beyond its whole seconds, in nanoseconds.
    pub fn subsec_nanos(&self) -> (n: u32)
        ensures
            n == self@ % 1_000_000_000,
    {
        (self.nanos % NANOS_PER_SEC) as u32
    }

    /// Whether the span is empty.
    pub fn is_zero(&self) -> (yes: bool)
        ensures
            yes == (self@ == 0),
    {
        self.nanos == 0
    }

    /// The span from `earlier` to `self`, or `None` if `earlier` is the later
    /// of the two.
    pub fn checked_sub(&self, earlier: &TimeSpan) -> (d: Option<TimeSpan>)
        ensures
            match d {
                Some(span) => earlier@ <= self@ && span@ == self@ - earlier@,
                None => self@ < earlier@,
            },
    {
        if self.nanos >= earlier.nanos {
            Some(TimeSpan { nanos: self.nanos - earlier.nanos })
        } else {
            None
        }
    }
}

} // verus!
