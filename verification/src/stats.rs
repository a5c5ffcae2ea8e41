//! Counters of a runtime thread.

use vstd::prelude::*;

verus! {

/// What the thread did so far, and what it has in flight.
#[derive(Clone, Copy, Debug, PartialEq, Eq, Structural)]
pub struct URingStats {
    /// Operations handed to the ring that did not complete yet.
    pub in_flight_io: u64,
    /// The same for the polled ring.
    pub in_flight_io_poll: u64,
    /// Tasks taken from the I/O queue, modulo 2^64.
    pub tasks_polled_io: u64,
    /// Tasks taken from the CPU queue, modulo 2^64.
    pub tasks_polled_cpu: u64,
}

impl URingStats {
    /// All counters at zero.
    pub fn new() -> (s: URingStats)
        ensures
            s == (URingStats {
                in_flight_io: 0,
                in_flight_io_poll: 0,
                tasks_polled_io: 0,
                tasks_polled_cpu: 0,
            }),
    {
        URingStats { in_flight_io: 0, in_flight_io_poll: 0, tasks_polled_io: 0, tasks_polled_cpu: 0 }
    }

    /// The operations in flight on the polled ring or on the other one.
    pub open spec fn in_flight(self, iopoll: bool) -> u64 {
        if iopoll {
            self.in_flight_io_poll
        } else {
            self.in_flight_io
        }
    }

    /// The counters with `n` operations in flight on the given ring.
    pub open spec fn with_in_flight(self, iopoll: bool, n: u64) -> URingStats {
        if iopoll {
            URingStats { in_flight_io_poll: n, ..self }
        } else {
            URingStats { in_flight_io: n, ..self }
        }
    }

    /// Counts `n` operations handed to a ring.
    pub fn increment_in_flight(&mut self, iopoll: bool, n: u64)
        requires
            old(self).in_flight(iopoll) + n <= u64::MAX,
        ensures
            *final(self) == old(self).with_in_flight(
                iopoll,
                (old(self).in_flight(iopoll) + n) as u64,
            ),
    {
        if iopoll {
            self.in_flight_io_poll = self.in_flight_io_poll + n;
        } else {
            self.in_flight_io = self.in_flight_io + n;
        }
    }

    /// Counts `n` completions taken from a ring.
    pub fn decrement_in_flight(&mut self, iopoll: bool, n: u64)
        requires
            n <= old(self).in_flight(iopoll),
        ensures
            *final(self) == old(self).with_in_flight(
                iopoll,
                (old(self).in_flight(iopoll) - n) as u64,
            ),
    {
        if iopoll {
            self.in_flight_io_poll = self.in_flight_io_poll - n;
        } else {
            self.in_flight_io = self.in_flight_io - n;
        }
    }
}

/// How long calls into the kernel took, in timer ticks.
#[derive(Clone, Copy, Debug, PartialEq, Eq, Structural)]
pub struct EnterStats {
    /// Total duration.
    pub sum: u64,
    /// Number of calls.
    pub count: u64,
    /// Shortest call, `u64::MAX` before the first.
    pub min: u64,
    /// Longest call, 0 before the first.
    pub max: u64,
    /// When the running call began.
    pub start: u64,
}

impl EnterStats {
    /// No calls yet.
    pub fn new() -> (s: EnterStats)
        ensures
            s == (EnterStats { sum: 0, count: 0, min: u64::MAX, max: 0, start: 0 }),
    {
        EnterStats { sum: 0, count: 0, min: u64::MAX, max: 0, start: 0 }
    }

    /// A call begins at `now`.
    pub fn start(&mut self, now: u64)
        ensures
            *final(self) == (EnterStats { start: now, ..*old(self) }),
    {
        self.start = now;
    }

    /// The statistics after the running call ended at `now`.
    pub open spec fn stopped(self, now: u64) -> EnterStats {
        let elapsed = (now - self.start) as u64;
        EnterStats {
            sum: (self.sum + elapsed) as u64,
            count: (self.count + 1) as u64,
            min: if elapsed < self.min {
                elapsed
            } else {
                self.min
            },
            max: if elapsed > self.max {
                elapsed
            } else {
                self.max
            },
            start: self.start,
        }
    }

    /// The running call ends at `now`.
    pub fn stop(&mut self, now: u64)
        requires
            old(self).start <= now,
            old(self).sum + (now - old(self).start) <= u64::MAX,
            old(self).count < u64::MAX,
        ensures
            *final(self) == old(self).stopped(now),
    {
        let elapsed: u64 = now - self.start;
        self.sum = self.sum + elapsed;
        self.count = self.count + 1;
        if elapsed < self.min {
            self.min = elapsed;
        }
        if elapsed > self.max {
            self.max = elapsed;
        }
    }

    /// Whether the figures to report can be held.
    pub open spec fn fits(self, ticks_per_us: u64) -> bool {
        self.count > 0 ==> {
            &&& 1000 * self.sum <= u64::MAX
            &&& 1000 * self.sum / ticks_per_us as int * self.count <= u64::MAX
            &&& 1000 * self.min <= u64::MAX
            &&& 1000 * self.max <= u64::MAX
        }
    }

    /// Whether the figures to report can be held.
    pub fn can_report(&self, ticks_per_us: u64) -> (b: bool)
        requires
            ticks_per_us > 0,
        ensures
            b == self.fits(ticks_per_us),
    {
        if self.count == 0 {
            return true;
        }
        let limit: u64 = u64::MAX / 1000;
        if self.sum > limit || self.min > limit || self.max > limit {
            return false;
        }
        let sum_ns: u64 = 1000 * self.sum / ticks_per_us;
        sum_ns.checked_mul(self.count).is_some()
    }

    /// Whether `r` holds the figures to report, on a timer with `ticks_per_us` ticks in a
    /// microsecond: there are none before the first call.
    pub open spec fn reports(self, ticks_per_us: u64, r: Option<EnterReport>) -> bool {
        &&& r is Some == (self.count > 0)
        &&& r matches Some(r) ==> {
            &&& r.count == self.count
            &&& r.sum_ns == 1000 * self.sum / ticks_per_us as int
            &&& r.avg_ns == 1000 * self.sum / ticks_per_us as int * self.count
            &&& r.min_ns == 1000 * self.min / ticks_per_us as int
            &&& r.max_ns == 1000 * self.max / ticks_per_us as int
        }
    }

    /// The figures to report, in nanoseconds, on a timer with `ticks_per_us` ticks in
    /// a microsecond. `None` before the first call.
    pub fn report(&self, ticks_per_us: u64) -> (r: Option<EnterReport>)
        requires
            ticks_per_us > 0,
            self.fits(ticks_per_us),
        ensures
            self.reports(ticks_per_us, r),
    {
        if self.count > 0 {
            let sum_ns: u64 = 1000 * self.sum / ticks_per_us;
            Some(
                EnterReport {
                    count: self.count,
                    sum_ns,
                    avg_ns: sum_ns * self.count,
                    min_ns: 1000 * self.min / ticks_per_us,
                    max_ns: 1000 * self.max / ticks_per_us,
                },
            )
        } else {
            None
        }
    }
}

/// The figures of an [`EnterStats`], in nanoseconds.
#[derive(Clone, Copy, Debug, PartialEq, Eq, Structural)]
pub struct EnterReport {
    /// The number of calls.
    pub count: u64,
    /// Their total duration.
    pub sum_ns: u64,
    /// What is shown as their average: the total times the number of calls.
    pub avg_ns: u64,
    /// The shortest.
    pub min_ns: u64,
    /// The longest.
    pub max_ns: u64,
}

} // verus!
