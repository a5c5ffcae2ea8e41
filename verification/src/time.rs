//! Instants and durations with nanosecond resolution.
//!
//! A [`Duration`] spans at most `u64::MAX` seconds and 999,999,999 nanoseconds.
//! An [`Instant`] is a count of nanoseconds on the monotonic clock; its seconds
//! fit an `i64`.

use vstd::prelude::*;

verus! {

/// Nanoseconds in a second.
pub const NANOS_PER_SEC: u128 = 1_000_000_000;

/// The longest duration: `u64::MAX` seconds and 999,999,999 nanoseconds.
pub const MAX_DURATION_NANOS: u128 = 18_446_744_073_709_551_615_999_999_999;

/// The latest instant: `i64::MAX` seconds and 999,999,999 nanoseconds.
pub const MAX_INSTANT_NANOS: i128 = 9_223_372_036_854_775_807_999_999_999;

/// The earliest instant: `i64::MIN` seconds.
pub const MIN_INSTANT_NANOS: i128 = -9_223_372_036_854_775_808_000_000_000;

/// A span of time.
#[derive(Clone, Copy, Debug, PartialEq, Eq, PartialOrd, Ord, Hash, Structural)]
pub struct Duration {
    nanos: u128,
}

impl View for Duration {
    type V = nat;

    /// The duration in nanoseconds.
    closed spec fn view(&self) -> nat {
        self.nanos as nat
    }
}

impl Duration {
    #[verifier::type_invariant]
    spec fn in_range(self) -> bool {
        self.nanos <= MAX_DURATION_NANOS
    }

    /// The duration of `secs` seconds.
    pub fn from_secs(secs: u64) -> (d: Duration)
        ensures
            d@ == secs * 1_000_000_000,
    {
        Duration { nanos: secs as u128 * 1_000_000_000 }
    }

    /// The duration of `millis` milliseconds.
    pub fn from_millis(millis: u64) -> (d: Duration)
        ensures
            d@ == millis * 1_000_000,
    {
        Duration { nanos: millis as u128 * 1_000_000 }
    }

    /// The duration of `micros` microseconds.
    pub fn from_micros(micros: u64) -> (d: Duration)
        ensures
            d@ == micros * 1_000,
    {
        Duration { nanos: micros as u128 * 1_000 }
    }

    /// The duration of `nanos` nanoseconds.
    pub fn from_nanos(nanos: u64) -> (d: Duration)
        ensures
            d@ == nanos,
    {
        Duration { nanos: nanos as u128 }
    }

    /// The duration of `secs` seconds and `nanos` nanoseconds, where the
    /// nanoseconds stay below one second.
    pub fn from_parts(secs: u64, nanos: u32) -> (d: Duration)
        requires
            nanos < 1_000_000_000,
        ensures
            d@ == secs * 1_000_000_000 + nanos,
    {
        Duration { nanos: secs as u128 * 1_000_000_000 + nanos as u128 }
    }

    /// Whether the duration is empty.
    pub fn is_zero(&self) -> (b: bool)
        ensures
            b == (self@ == 0),
    {
        self.nanos == 0
    }

    /// The whole seconds of the duration.
    pub fn as_secs(&self) -> (s: u64)
        ensures
            s == self@ / 1_000_000_000,
    {
        proof {
            use_type_invariant(self);
        }
        (self.nanos / 1_000_000_000) as u64
    }

    /// The nanoseconds past the last whole second.
    pub fn subsec_nanos(&self) -> (n: u32)
        ensures
            n == self@ % 1_000_000_000,
    {
        (self.nanos % 1_000_000_000) as u32
    }

    /// The whole microseconds of the duration.
    pub fn as_micros(&self) -> (m: u128)
        ensures
            m == self@ / 1_000,
    {
        self.nanos / 1_000
    }

    /// The whole milliseconds of the duration.
    pub fn as_millis(&self) -> (m: u128)
        ensures
            m == self@ / 1_000_000,
    {
        self.nanos / 1_000_000
    }

    /// The duration in nanoseconds.
    pub fn as_nanos(&self) -> (n: u128)
        ensures
            n == self@,
    {
        self.nanos
    }
}

/// A point in time on the monotonic clock.
#[derive(Clone, Copy, Debug, PartialEq, Eq, PartialOrd, Ord, Hash, Structural)]
pub struct Instant {
    nanos: i128,
}

impl View for Instant {
    type V = int;

    /// Nanoseconds since the clock's origin.
    closed spec fn view(&self) -> int {
        self.nanos as int
    }
}

/// Whether `nanos` is a point in time that an [`Instant`] can hold.
pub open spec fn is_instant(nanos: int) -> bool {
    MIN_INSTANT_NANOS <= nanos <= MAX_INSTANT_NANOS
}

impl Instant {
    #[verifier::type_invariant]
    spec fn in_range(self) -> bool {
        MIN_INSTANT_NANOS <= self.nanos <= MAX_INSTANT_NANOS
    }

    /// The instant `nanos` nanoseconds after the clock's origin, or `None` where
    /// no instant can hold it.
    pub fn from_nanos(nanos: i128) -> (i: Option<Instant>)
        ensures
            i is Some == is_instant(nanos as int),
            i matches Some(i) ==> i@ == nanos,
    {
        if MIN_INSTANT_NANOS <= nanos && nanos <= MAX_INSTANT_NANOS {
            Some(Instant { nanos })
        } else {
            None
        }
    }

    /// Nanoseconds since the clock's origin.
    pub fn as_nanos(&self) -> (n: i128)
        ensures
            n == self@,
            is_instant(n as int),
    {
        proof {
            use_type_invariant(self);
        }
        self.nanos
    }

    /// The instant `duration` later, or `None` where no instant can hold it.
    pub fn checked_add(&self, duration: Duration) -> (i: Option<Instant>)
        ensures
            i is Some == is_instant(self@ + duration@),
            i matches Some(i) ==> i@ == self@ + duration@,
    {
        proof {
            use_type_invariant(self);
            use_type_invariant(&duration);
        }
        let sum: i128 = self.nanos + duration.nanos as i128;
        Instant::from_nanos(sum)
    }

    /// The time from `earlier` to this instant, or `None` where `earlier` is later.
    pub fn checked_duration_since(&self, earlier: Instant) -> (d: Option<Duration>)
        ensures
            d is Some == (earlier@ <= self@),
            d matches Some(d) ==> d@ == self@ - earlier@,
    {
        proof {
            use_type_invariant(self);
            use_type_invariant(&earlier);
        }
        if earlier.nanos <= self.nanos {
            Some(Duration { nanos: (self.nanos - earlier.nanos) as u128 })
        } else {
            None
        }
    }

    /// The time from `earlier` to this instant, zero where `earlier` is later.
    pub fn saturating_duration_since(&self, earlier: Instant) -> (d: Duration)
        ensures
            d@ == (if earlier@ <= self@ { self@ - earlier@ } else { 0 }),
    {
        match self.checked_duration_since(earlier) {
            Some(d) => d,
            None => Duration::from_secs(0),
        }
    }

    /// Whether this instant is not later than `other`.
    pub fn at_or_before(&self, other: Instant) -> (b: bool)
        ensures
            b == (self@ <= other@),
    {
        self.nanos <= other.nanos
    }

    /// Two instants at the same point in time are the same instant.
    pub proof fn lemma_view_injective(a: Instant, b: Instant)
        requires
            a@ == b@,
        ensures
            a == b,
    {
    }
}

} // verus!
