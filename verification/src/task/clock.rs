//! The virtual clock of a thread.

use vstd::prelude::*;

use crate::model::{
    law_wake_all_keeps_valid, Cqe, StateView, TaskReadyState, TaskRun, TaskView, Waker,
};
use crate::time::{is_instant, Duration, Instant};
use crate::virtual_clock::{wakers_of, ClockView, TimerId, VirtualClockState};

use super::TaskState;

verus! {

impl StateView {
    /// With another clock, or none.
    pub open spec fn with_clock(self, clock: Option<ClockView<Waker, u64>>) -> Self {
        StateView { clock, ..self }
    }

    /// After the virtual clock moved to `target` and woke what the expired timers wake.
    pub open spec fn clock_advanced_to(self, target: Instant) -> Self {
        let c = self.clock->0;
        self.with_clock(Some(c.advance_to(target))).wake_all(wakers_of(c.fired(target)))
    }
}

impl TaskState {
    /// Wakes everything in `wakers`, in order.
    pub fn wake_wakers(&mut self, wakers: &Vec<Waker>)
        requires
            old(self)@.valid(),
        ensures
            final(self)@.valid(),
            final(self)@ == old(self)@.wake_all(wakers@),
    {
        let mut i: usize = 0;
        assert(wakers@.take(0) =~= Seq::<Waker>::empty());
        while i < wakers.len()
            invariant
                i <= wakers@.len(),
                self@.valid(),
                self@ == old(self)@.wake_all(wakers@.take(i as int)),
            decreases wakers@.len() - i,
        {
            self.wake(wakers[i]);
            proof {
                let n = wakers@.take(i + 1);
                assert(n.drop_last() =~= wakers@.take(i as int));
                assert(n.last() == wakers@[i as int]);
            }
            i = i + 1;
        }
        assert(wakers@.take(i as int) =~= wakers@);
    }

    /// Whether the thread has a virtual clock.
    pub fn has_clock(&self) -> (b: bool)
        ensures
            b == self@.clock is Some,
    {
        self.clock.is_some()
    }

    /// The virtual clock of the thread.
    pub fn clock(&self) -> (c: Option<&VirtualClockState<Waker, u64>>)
        ensures
            c is Some == self@.clock is Some,
            c matches Some(c) ==> c@ == self@.clock->0,
    {
        match &self.clock {
            Some(c) => Some(c),
            None => None,
        }
    }

    /// Gives the thread a virtual clock that starts at `start`, or takes it away. A
    /// thread that has one keeps it, with its timers.
    pub fn enable_clock(&mut self, enabled: bool, start: Instant)
        requires
            old(self)@.valid(),
        ensures
            final(self)@.valid(),
            final(self)@ == old(self)@.with_clock(
                if !enabled {
                    None
                } else if old(self)@.clock is Some {
                    old(self)@.clock
                } else {
                    Some(ClockView::start(start))
                },
            ),
    {
        if enabled {
            if self.clock.is_none() {
                self.clock = Some(VirtualClockState::new(start));
            }
        } else {
            self.clock = None;
        }
    }

    /// Whether the virtual clock can move by `duration`.
    pub fn can_advance_clock(&self, duration: Duration) -> (b: bool)
        ensures
            b == (self@.clock is Some && is_instant(self@.clock->0.target_nanos(duration))),
    {
        match &self.clock {
            Some(c) => c.can_advance(duration),
            None => false,
        }
    }

    /// Moves the virtual clock to `target` and wakes what the expired timers wake.
    /// Returns how many timers expired.
    pub fn advance_clock_to(&mut self, target: Instant) -> (fired: usize)
        requires
            old(self)@.valid(),
            old(self)@.clock is Some,
        ensures
            final(self)@.valid(),
            fired == old(self)@.clock->0.fired(target).len(),
            final(self)@ == old(self)@.clock_advanced_to(target),
    {
        let mut fired: usize = 0;
        if let Some(mut clock) = self.clock.take() {
            let (n, wakers) = clock.advance_to(target);
            self.clock = Some(clock);
            fired = n;
            assert(self@.valid());
            self.wake_wakers(&wakers);
        }
        fired
    }

    /// Moves the virtual clock by `duration`, by a century where no instant can hold
    /// that, and wakes what the expired timers wake. Returns how many timers expired.
    pub fn advance_clock(&mut self, duration: Duration) -> (fired: usize)
        requires
            old(self)@.valid(),
            old(self)@.clock is Some,
            is_instant(old(self)@.clock->0.target_nanos(duration)),
        ensures
            final(self)@.valid(),
            final(self)@.clock is Some,
            final(self)@.clock->0.current@ == old(self)@.clock->0.target_nanos(duration),
            final(self)@ == old(self)@.clock_advanced_to(final(self)@.clock->0.current),
            fired == old(self)@.clock->0.fired(final(self)@.clock->0.current).len(),
    {
        let mut fired: usize = 0;
        if let Some(mut clock) = self.clock.take() {
            let (n, wakers) = clock.advance(duration);
            self.clock = Some(clock);
            fired = n;
            assert(self@.valid());
            proof {
                law_wake_all_keeps_valid(self@, wakers@);
            }
            self.wake_wakers(&wakers);
        }
        fired
    }

    /// Registers a timer with the virtual clock.
    pub fn register_timer(&mut self, deadline: Instant, waker: Waker) -> (id: TimerId)
        requires
            old(self)@.valid(),
            old(self)@.clock is Some,
            old(self)@.clock->0.next_timer_id < u64::MAX,
        ensures
            final(self)@.valid(),
            id == TimerId(old(self)@.clock->0.next_timer_id),
            final(self)@ == old(self)@.with_clock(
                Some(old(self)@.clock->0.register(deadline, waker)),
            ),
    {
        let mut id = TimerId(0);
        if let Some(mut clock) = self.clock.take() {
            id = clock.register_timer(deadline, waker);
            self.clock = Some(clock);
        }
        id
    }

    /// Cancels a timer of the virtual clock; without one there is nothing to cancel.
    pub fn cancel_timer(&mut self, id: TimerId)
        requires
            old(self)@.valid(),
        ensures
            final(self)@.valid(),
            final(self)@ == old(self)@.timer_canceled(Some(id)),
    {
        if let Some(mut clock) = self.clock.take() {
            clock.cancel_timer(id);
            self.clock = Some(clock);
        }
    }

    /// Installs, replaces or clears the callback that is asked at idle points.
    pub fn set_idle_advance(&mut self, callback: Option<u64>)
        requires
            old(self)@.valid(),
            old(self)@.clock is Some,
        ensures
            final(self)@.valid(),
            final(self)@ == old(self)@.with_clock(
                Some(old(self)@.clock->0.set_idle_advance(callback)),
            ),
    {
        if let Some(mut clock) = self.clock.take() {
            clock.set_idle_advance_fn(callback);
            self.clock = Some(clock);
        }
    }

    /// Whether a callback for idle points is installed.
    pub fn has_idle_advance(&self) -> (b: bool)
        ensures
            b == self@.has_idle_advance(),
    {
        match &self.clock {
            Some(c) => c.has_idle_advance_fn(),
            None => false,
        }
    }

    /// Takes the callback for idle points out, to be called.
    pub fn take_idle_advance(&mut self) -> (callback: Option<u64>)
        requires
            old(self)@.valid(),
            old(self)@.clock is Some,
        ensures
            final(self)@.valid(),
            callback == old(self)@.clock->0.idle_advance_fn,
            final(self)@ == old(self)@.with_clock(
                Some(old(self)@.clock->0.take_idle_advance()),
            ),
    {
        let mut callback: Option<u64> = None;
        if let Some(mut clock) = self.clock.take() {
            callback = clock.take_idle_advance_fn();
            self.clock = Some(clock);
        }
        callback
    }

    /// Puts the callback back after its call, unless it was replaced or cleared
    /// meanwhile, or the clock is gone. Returns whether it was replaced or cleared.
    pub fn restore_idle_advance(&mut self, callback: u64) -> (replaced: bool)
        requires
            old(self)@.valid(),
        ensures
            final(self)@.valid(),
            replaced == (old(self)@.clock is Some && old(self)@.clock->0.idle_advance_dirty),
            final(self)@ == old(self)@.idle_advance_restored(callback),
    {
        if let Some(mut clock) = self.clock.take() {
            let replaced = clock.restore_idle_advance_fn(callback);
            self.clock = Some(clock);
            replaced
        } else {
            false
        }
    }
}

impl StateView {
    /// Whether a callback for idle points is installed.
    pub open spec fn has_idle_advance(self) -> bool {
        self.clock is Some && self.clock->0.idle_advance_fn is Some
    }

    /// After a callback for idle points was offered back.
    pub open spec fn idle_advance_restored(self, callback: u64) -> Self {
        match self.clock {
            Some(c) => self.with_clock(Some(c.restore_idle_advance(callback))),
            None => self,
        }
    }

    /// After a timer was canceled, where there is one and a clock.
    pub open spec fn timer_canceled(self, id: Option<TimerId>) -> Self {
        match (id, self.clock) {
            (Some(id), Some(c)) => self.with_clock(Some(c.cancel(id))),
            _ => self,
        }
    }
}

/// Wake-ups leave the clock alone.
pub proof fn lemma_wake_all_keeps_clock(s: StateView, wakers: Seq<Waker>)
    ensures
        s.wake_all(wakers).clock == s.clock,
    decreases wakers.len(),
{
    if wakers.len() > 0 {
        lemma_wake_all_keeps_clock(s, wakers.drop_last());
    }
}

/// A move of the thread's clock is a move of the clock: what it wakes does not touch it.
pub proof fn law_thread_clock_moves(s: StateView, target: Instant)
    requires
        s.clock is Some,
    ensures
        s.clock_advanced_to(target).clock == Some(s.clock->0.advance_to(target)),
{
    lemma_wake_all_keeps_clock(
        s.with_clock(Some(s.clock->0.advance_to(target))),
        wakers_of(s.clock->0.fired(target)),
    );
}

/// Virtual time stands still while tasks are scheduled, woken, polled and completed, and
/// while the kernel reports what it did.
pub proof fn law_running_tasks_takes_no_virtual_time(
    s: StateView,
    key: u64,
    waker: Waker,
    wakers: Seq<Waker>,
    waits: Seq<u64>,
    run: TaskRun,
    complete: bool,
    cpu: u16,
    cqe: Cqe,
)
    ensures
        s.schedule_io(key).clock == s.clock,
        s.schedule_cpu(key).clock == s.clock,
        s.wake(waker).clock == s.clock,
        s.wake_all(wakers).clock == s.clock,
        s.wake_waits(waits).clock == s.clock,
        s.prepare_cohort().clock == s.clock,
        s.get_ready().clock == s.clock,
        s.poll_begun(key).clock == s.clock,
        s.poll_ended(run, complete, cpu).clock == s.clock,
        s.io_completed(cqe).clock == s.clock,
        s.cancel_completion(key).clock == s.clock,
{
    lemma_wake_all_keeps_clock(s, wakers);
    lemma_wake_waits_keeps_clock(s, waits);
    let t = s.tasks[run.key];
    let done = TaskView { ready: TaskReadyState::Complete, joining: Seq::empty(), ..t };
    lemma_wake_waits_keeps_clock(s.with_task(run.key, done), t.joining);
}

proof fn lemma_wake_waits_keeps_clock(s: StateView, ids: Seq<u64>)
    ensures
        s.wake_waits(ids).clock == s.clock,
    decreases ids.len(),
{
    if ids.len() > 0 {
        lemma_wake_waits_keeps_clock(s, ids.drop_last());
    }
}

} // verus!
