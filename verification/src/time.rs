use vstd::prelude::*;

verus! {

/// Nanoseconds in one second.
pub const NANOS_PER_SEC: u128 = 1_000_000_000;

/// A length of time, or a moment counted from an agreed origin, in whole
/// nanoseconds. Every value of the field is a valid span.
#[derive(Debug, Clone, Copy, PartialEq, Eq, Structural)]
pub struct TimeSpan {
    pub nanos: u128,
}

impl TimeSpan {
    /// The span of `secs` whole seconds.
    pub fn from_secs(secs: u64) -> (span: TimeSpan)
        ensures
            span.nanos == secs * NANOS_PER_SEC,
    {
        let wide: u128 = secs as u128;
        TimeSpan { nanos: wide * NANOS_PER_SEC }
    }

    /// The span of `millis` milliseconds.
    pub fn from_millis(millis: u64) -> (span: TimeSpan)
        ensures
            span.nanos == millis * 1_000_000,
    {
        let wide: u128 = millis as u128;
        TimeSpan { nanos: wide * 1_000_000 }
    }

    /// The span of `nanos` nanoseconds.
    pub fn from_nanos(nanos: u128) -> (span: TimeSpan)
        ensures
            span.nanos == nanos,
    {
        TimeSpan { nanos }
    }

    /// The length in nanoseconds.
    pub fn as_nanos(&self) -> (nanos: u128)
        ensures
            nanos == self.nanos,
    {
        self.nanos
    }

    /// The whole seconds in the span; the fraction of a second is dropped.
    pub fn as_secs(&self) -> (secs: u128)
        ensures
            secs == self.nanos / NANOS_PER_SEC,
    {
        self.nanos / NANOS_PER_SEC
    }

    /// The time from `earlier` to `self`, or nothing if `earlier` is the later
    /// of the two.
    pub fn saturating_sub(&self, earlier: TimeSpan) -> (gap: TimeSpan)
        ensures
            gap.nanos == spec_gap(*self, earlier),
    {
        if self.nanos >= earlier.nanos {
            TimeSpan { nanos: self.nanos - earlier.nanos }
        } else {
            TimeSpan { nanos: 0 }
        }
    }

    /// Whether `self` is strictly longer than `other`.
    pub fn exceeds(&self, other: TimeSpan) -> (longer: bool)
        ensures
            longer == (self.nanos > other.nanos),
    {
        self.nanos > other.nanos
    }
}

/// The time that passed from `earlier` until `now`: zero where the clock
/// reading `now` lies before `earlier`.
pub open spec fn spec_gap(now: TimeSpan, earlier: TimeSpan) -> nat {
    if now.nanos >= earlier.nanos {
        (now.nanos - earlier.nanos) as nat
    } else {
        0
    }
}

} // verus!
