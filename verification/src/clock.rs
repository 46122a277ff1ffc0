//! Time as plain numbers: spans and moments counted in nanoseconds, and the
//! monotonic clock that hands out moments.

use vstd::prelude::*;
use std::time::Duration;
use std::time::Instant;

verus! {

/// The nanoseconds of one second.
pub const NANOS_PER_SEC: u128 = 1_000_000_000;

/// The nanoseconds of one millisecond.
pub const NANOS_PER_MILLI: u128 = 1_000_000;

/// A length of time in nanoseconds.
#[derive(Clone, Copy, Debug, PartialEq, Eq, Structural)]
pub struct TimeSpan {
    pub nanos: u128,
}

impl TimeSpan {
    /// The span of so many nanoseconds.
    pub fn from_nanos(nanos: u128) -> (span: Self)
        ensures
            span.nanos == nanos,
    {
        TimeSpan { nanos }
    }

    /// The span of so many milliseconds.
    pub fn from_millis(millis: u64) -> (span: Self)
        ensures
            span.nanos == millis * NANOS_PER_MILLI,
    {
        assert(millis * NANOS_PER_MILLI <= u128::MAX) by (nonlinear_arith)
            requires
                millis <= u64::MAX,
                NANOS_PER_MILLI == 1_000_000,
        ;
        TimeSpan { nanos: (millis as u128) * NANOS_PER_MILLI }
    }

    /// The span of so many seconds.
    pub fn from_secs(secs: u64) -> (span: Self)
        ensures
            span.nanos == secs * NANOS_PER_SEC,
    {
        assert(secs * NANOS_PER_SEC <= u128::MAX) by (nonlinear_arith)
            requires
                secs <= u64::MAX,
                NANOS_PER_SEC == 1_000_000_000,
        ;
        TimeSpan { nanos: (secs as u128) * NANOS_PER_SEC }
    }

    /// The nanoseconds of the span.
    pub fn as_nanos(&self) -> (nanos: u128)
        ensures
            nanos == self.nanos,
    {
        self.nanos
    }
}

/// A point in time: the nanoseconds that a clock had counted when it was read.
#[derive(Clone, Copy, Debug, PartialEq, Eq, Structural)]
pub struct Moment {
    pub nanos: u128,
}

/// The time from `earlier` to `later`, zero where `earlier` is not the earlier
/// of the two.
pub open spec fn elapsed(earlier: Moment, later: Moment) -> nat {
    if later.nanos >= earlier.nanos {
        (later.nanos - earlier.nanos) as nat
    } else {
        0
    }
}

impl Moment {
    /// The moment at which the clock had counted so many nanoseconds.
    pub fn from_nanos(nanos: u128) -> (moment: Self)
        ensures
            moment.nanos == nanos,
    {
        Moment { nanos }
    }

    /// The moment at which the clock had counted so many milliseconds.
    pub fn from_millis(millis: u64) -> (moment: Self)
        ensures
            moment.nanos == millis * NANOS_PER_MILLI,
    {
        Moment { nanos: TimeSpan::from_millis(millis).nanos }
    }

    /// The time from `earlier` to this moment.
    pub fn since(&self, earlier: Moment) -> (span: TimeSpan)
        ensures
            span.nanos == elapsed(earlier, *self),
    {
        if self.nanos >= earlier.nanos {
            TimeSpan { nanos: self.nanos - earlier.nanos }
        } else {
            TimeSpan { nanos: 0 }
        }
    }

    /// The later of two moments.
    pub fn latest(self, other: Moment) -> (moment: Moment)
        ensures
            moment == later_of(self, other),
    {
        if self.nanos >= other.nanos {
            self
        } else {
            other
        }
    }
}

/// The later of two moments.
pub open spec fn later_of(a: Moment, b: Moment) -> Moment {
    if a.nanos >= b.nanos {
        a
    } else {
        b
    }
}

/// `Instant` of the standard library, carried through and never looked into.
#[verifier::external_type_specification]
#[verifier::external_body]
pub struct ExInstant(std::time::Instant);

/// A monotonic clock that counts from the moment it was started.
pub struct Clock {
    origin: Instant,
}

/// `Instant::now` of the standard library. Nothing is believed of the value.
#[verifier::external_body]
fn instant_now() -> (instant: Instant) {
    Instant::now()
}

/// `Instant::elapsed` of the standard library. Nothing is believed of the value.
#[verifier::external_body]
fn instant_elapsed(instant: &Instant) -> (span: Duration) {
    instant.elapsed()
}

/// `Duration::as_nanos` of the standard library. Nothing is believed of the value.
#[verifier::external_body]
fn duration_as_nanos(span: &Duration) -> (nanos: u128) {
    span.as_nanos()
}

impl Clock {
    /// A clock that starts counting now.
    pub fn start() -> (clock: Self) {
        Clock { origin: instant_now() }
    }

    /// The present moment. Two readings may be any two moments: what a caller
    /// does with one is stated for every value of it.
    pub fn now(&self) -> (moment: Moment) {
        let span = instant_elapsed(&self.origin);
        Moment { nanos: duration_as_nanos(&span) }
    }
}

} // verus!
