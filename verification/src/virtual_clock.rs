//! A clock that moves only when it is told to.
//!
//! Timers that a move of the clock overtakes are handed back in deadline order,
//! those with equal deadlines in the order in which they were registered. The
//! caller wakes what was handed back once it holds no borrow of the clock.

use vstd::prelude::*;

use crate::seqs::{
    lemma_filter_all, lemma_filter_has, lemma_filter_keeps, lemma_filter_one_out,
    lemma_filter_prefix,
};
use crate::time::{is_instant, Duration, Instant};

verus! {

/// Identifies a registered timer.
#[derive(Clone, Copy, Debug, PartialEq, Eq, Hash, Structural)]
pub struct TimerId(pub u64);

/// A registered timer: when it fires, and what to wake then.
pub struct VirtualTimer<W> {
    pub id: TimerId,
    pub deadline: Instant,
    pub waker: W,
}

/// Seconds in a century of 365-day years: how far [`VirtualClockState::advance`]
/// moves where the duration leads past the latest instant.
pub const CENTURY_SECS: u64 = 3_153_600_000;

/// Whether timer `a` fires before timer `b` when both have expired.
pub open spec fn fires_before<W>(a: VirtualTimer<W>, b: VirtualTimer<W>) -> bool {
    a.deadline@ < b.deadline@ || (a.deadline@ == b.deadline@ && a.id.0 < b.id.0)
}

/// Whether the timers stand in the order in which they fire.
pub open spec fn in_firing_order<W>(timers: Seq<VirtualTimer<W>>) -> bool {
    forall|i: int, j: int|
        0 <= i < j < timers.len() ==> fires_before(#[trigger] timers[i], #[trigger] timers[j])
}

/// Timers due at `now`.
pub open spec fn due<W>(now: int) -> spec_fn(VirtualTimer<W>) -> bool {
    |t: VirtualTimer<W>| t.deadline@ <= now
}

/// Timers not yet due at `now`.
pub open spec fn not_due<W>(now: int) -> spec_fn(VirtualTimer<W>) -> bool {
    |t: VirtualTimer<W>| t.deadline@ > now
}

/// Timers other than `id`.
pub open spec fn other_than<W>(id: TimerId) -> spec_fn(VirtualTimer<W>) -> bool {
    |t: VirtualTimer<W>| t.id != id
}

/// What the timers wake, in the same order.
pub open spec fn wakers_of<W>(timers: Seq<VirtualTimer<W>>) -> Seq<W> {
    timers.map_values(|t: VirtualTimer<W>| t.waker)
}

/// The model of a virtual clock.
#[verifier::ext_equal]
pub struct ClockView<W, F> {
    pub epoch: Instant,
    pub current: Instant,
    /// The pending timers, in the order in which they fire.
    pub timers: Seq<VirtualTimer<W>>,
    pub next_timer_id: u64,
    pub idle_advance_fn: Option<F>,
    pub idle_advance_dirty: bool,
}

impl<W, F> ClockView<W, F> {
    /// Every clock: its timers stand in firing order, under identifiers that were
    /// given out.
    pub open spec fn valid(self) -> bool {
        &&& in_firing_order(self.timers)
        &&& forall|i: int|
            0 <= i < self.timers.len() ==> 1 <= (#[trigger] self.timers[i]).id.0
                < self.next_timer_id
        &&& forall|i: int, j: int|
            0 <= i < j < self.timers.len() ==> (#[trigger] self.timers[i]).id != (
            #[trigger] self.timers[j]).id
        &&& self.next_timer_id >= 1
    }

    /// The clock that starts at `start`.
    pub open spec fn start(start: Instant) -> Self {
        ClockView {
            epoch: start,
            current: start,
            timers: Seq::empty(),
            next_timer_id: 1,
            idle_advance_fn: None,
            idle_advance_dirty: false,
        }
    }

    /// The timers that a move to `target` makes fire, in firing order.
    pub open spec fn fired(self, target: Instant) -> Seq<VirtualTimer<W>> {
        if target@ < self.current@ {
            Seq::empty()
        } else {
            self.timers.filter(due(target@))
        }
    }

    /// The clock after a move to `target`: one to an earlier time changes nothing.
    pub open spec fn advance_to(self, target: Instant) -> Self {
        if target@ < self.current@ {
            self
        } else {
            ClockView { current: target, timers: self.timers.filter(not_due(target@)), ..self }
        }
    }

    /// The timer that a registration for `deadline` makes.
    pub open spec fn new_timer(self, deadline: Instant, waker: W) -> VirtualTimer<W> {
        VirtualTimer { id: TimerId(self.next_timer_id), deadline, waker }
    }

    /// The clock after a timer was registered. The new timer has the highest
    /// identifier, so it goes behind all that are due when it is.
    pub open spec fn register(self, deadline: Instant, waker: W) -> Self {
        ClockView {
            timers: self.timers.filter(due(deadline@)).push(self.new_timer(deadline, waker))
                + self.timers.filter(not_due(deadline@)),
            next_timer_id: (self.next_timer_id + 1) as u64,
            ..self
        }
    }

    /// The clock without timer `id`.
    pub open spec fn cancel(self, id: TimerId) -> Self {
        ClockView { timers: self.timers.filter(other_than(id)), ..self }
    }

    /// The clock after its idle callback was replaced by `f`.
    pub open spec fn set_idle_advance(self, f: Option<F>) -> Self {
        ClockView { idle_advance_fn: f, idle_advance_dirty: true, ..self }
    }

    /// The clock whose idle callback was taken out.
    pub open spec fn take_idle_advance(self) -> Self {
        ClockView { idle_advance_fn: None, idle_advance_dirty: false, ..self }
    }

    /// The clock after `f` was offered back to it.
    pub open spec fn restore_idle_advance(self, f: F) -> Self {
        if self.idle_advance_dirty {
            self
        } else {
            ClockView { idle_advance_fn: Some(f), ..self }
        }
    }

    /// The earliest pending deadline.
    pub open spec fn next_deadline(self) -> Option<Instant> {
        if self.timers.len() == 0 {
            None
        } else {
            Some(self.timers[0].deadline)
        }
    }

    /// Where a move by `duration` leads: that much later, or a century later where
    /// no instant can hold that.
    pub open spec fn target_nanos(self, duration: Duration) -> int {
        if is_instant(self.current@ + duration@) {
            self.current@ + duration@
        } else {
            self.current@ + CENTURY_SECS * 1_000_000_000
        }
    }
}

/// Virtual time, the timers that wait for it, and the callback that may move it
/// when the runtime is idle.
///
/// `W` is what an expired timer wakes; `F` is the idle callback.
pub struct VirtualClockState<W, F> {
    epoch: Instant,
    current: Instant,
    // Last to fire first, so that the next timer to fire is popped.
    timers: Vec<VirtualTimer<W>>,
    next_timer_id: u64,
    idle_advance_fn: Option<F>,
    idle_advance_dirty: bool,
}

impl<W, F> View for VirtualClockState<W, F> {
    type V = ClockView<W, F>;

    closed spec fn view(&self) -> ClockView<W, F> {
        ClockView {
            epoch: self.epoch,
            current: self.current,
            timers: self.timers@.reverse(),
            next_timer_id: self.next_timer_id,
            idle_advance_fn: self.idle_advance_fn,
            idle_advance_dirty: self.idle_advance_dirty,
        }
    }
}

impl<W, F> VirtualClockState<W, F> {
    /// A clock that starts at `start`, with no timers and no callback.
    pub fn new(start: Instant) -> (clock: Self)
        ensures
            clock@ == ClockView::<W, F>::start(start),
            clock@.valid(),
    {
        let clock = VirtualClockState {
            epoch: start,
            current: start,
            timers: Vec::new(),
            next_timer_id: 1,
            idle_advance_fn: None,
            idle_advance_dirty: false,
        };
        assert(clock@.timers =~= Seq::<VirtualTimer<W>>::empty());
        clock
    }

    /// The time at which this clock started.
    pub fn epoch(&self) -> (t: Instant)
        ensures
            t == self@.epoch,
    {
        self.epoch
    }

    /// The current virtual time: that of the last move.
    pub fn now(&self) -> (t: Instant)
        ensures
            t == self@.current,
    {
        self.current
    }

    /// Whether the clock can move by `duration`: an instant can hold where that leads.
    pub fn can_advance(&self, duration: Duration) -> (b: bool)
        ensures
            b == is_instant(self@.target_nanos(duration)),
    {
        match self.current.checked_add(duration) {
            Some(_) => true,
            None => self.current.checked_add(Duration::from_secs(CENTURY_SECS)).is_some(),
        }
    }

    /// Moves virtual time forward by `duration`, by a century where that leads past
    /// the latest instant, and hands back what the expired timers wake.
    pub fn advance(&mut self, duration: Duration) -> (r: (usize, Vec<W>))
        requires
            old(self)@.valid(),
            is_instant(old(self)@.target_nanos(duration)),
        ensures
            final(self)@.valid(),
            final(self)@.current@ == old(self)@.target_nanos(duration),
            final(self)@ == old(self)@.advance_to(final(self)@.current),
            r.1@ == wakers_of(old(self)@.fired(final(self)@.current)),
            r.0 == r.1@.len(),
    {
        let target = match self.current.checked_add(duration) {
            Some(t) => t,
            None => match self.current.checked_add(Duration::from_secs(CENTURY_SECS)) {
                Some(t) => t,
                None => self.current,
            },
        };
        let r = self.advance_to(target);
        proof {
            if self.current != target {
                Instant::lemma_view_injective(self.current, target);
            }
        }
        r
    }

    /// Moves virtual time to `target`, and hands back what the timers wake whose deadline
    /// is then reached, in firing order, with their number. Where `target` is before the
    /// current time, no timer fires and the time stays.
    pub fn advance_to(&mut self, target: Instant) -> (r: (usize, Vec<W>))
        requires
            old(self)@.valid(),
        ensures
            final(self)@.valid(),
            final(self)@ == old(self)@.advance_to(target),
            r.1@ == wakers_of(old(self)@.fired(target)),
            r.0 == r.1@.len(),
    {
        if !self.current.at_or_before(target) {
            return (0, Vec::new());
        }
        self.current = target;
        let ghost all = old(self)@.timers;
        let ghost now = self.current@;
        let mut expired: Vec<W> = Vec::new();
        while self.timers.len() > 0 && self.timers[self.timers.len() - 1].deadline.at_or_before(
            self.current,
        )
            invariant
                all == old(self)@.timers,
                in_firing_order(all),
                now == self.current@,
                self.epoch == old(self).epoch,
                self.current == target,
                target@ >= old(self)@.current@,
                self.next_timer_id == old(self).next_timer_id,
                self.idle_advance_fn == old(self).idle_advance_fn,
                self.idle_advance_dirty == old(self).idle_advance_dirty,
                expired@.len() + self.timers@.len() == all.len(),
                self.timers@.reverse() == all.skip(expired@.len() as int),
                expired@ == wakers_of(all.take(expired@.len() as int)),
                forall|i: int| 0 <= i < expired@.len() ==> (#[trigger] all[i]).deadline@ <= now,
            decreases self.timers@.len(),
        {
            let ghost before = self.timers@;
            let ghost k = expired@.len() as int;
            assert(before.reverse()[0] == all.skip(k)[0]);
            assert(before[before.len() - 1] == all[k]);
            if let Some(timer) = self.timers.pop() {
                expired.push(timer.waker);
                assert(self.timers@.reverse() =~= before.reverse().skip(1));
                assert(all.skip(k).skip(1) =~= all.skip(k + 1));
                assert(wakers_of(all.take(k)).push(all[k].waker) =~= wakers_of(all.take(k + 1)));
            }
        }
        let fired: usize = expired.len();
        proof {
            let k = expired@.len() as int;
            if self.timers@.len() > 0 {
                assert(self.timers@.reverse()[0] == all.skip(k)[0]);
                assert(self.timers@[self.timers@.len() - 1] == all[k]);
                assert forall|i: int| k <= i < all.len() implies (#[trigger] all[i]).deadline@
                    > now by {
                    if i > k {
                        assert(fires_before(all[k], all[i]));
                    }
                }
            }
            lemma_filter_prefix(all, due::<W>(now), not_due::<W>(now), k);
            assert(self@.valid());
        }
        (fired, expired)
    }

    /// The deadline of the next timer to fire, `None` where none is pending.
    pub fn next_deadline(&self) -> (d: Option<Instant>)
        ensures
            d == self@.next_deadline(),
    {
        let n: usize = self.timers.len();
        if n == 0 {
            None
        } else {
            assert(self@.timers[0] == self.timers@[n - 1]);
            Some(self.timers[n - 1].deadline)
        }
    }

    /// The number of pending timers.
    pub fn pending_timers(&self) -> (n: usize)
        ensures
            n == self@.timers.len(),
    {
        self.timers.len()
    }

    /// Registers a timer for `deadline`. Its identifier was never given out before.
    pub fn register_timer(&mut self, deadline: Instant, waker: W) -> (id: TimerId)
        requires
            old(self)@.valid(),
            old(self)@.next_timer_id < u64::MAX,
        ensures
            final(self)@.valid(),
            id == TimerId(old(self)@.next_timer_id),
            final(self)@ == old(self)@.register(deadline, waker),
    {
        let id = TimerId(self.next_timer_id);
        self.next_timer_id = self.next_timer_id + 1;
        let ghost all = old(self)@.timers;
        let ghost t = old(self)@.new_timer(deadline, waker);
        let mut at: usize = 0;
        while at < self.timers.len() && !self.timers[at].deadline.at_or_before(deadline)
            invariant
                at <= self.timers@.len(),
                forall|i: int|
                    0 <= i < at ==> (#[trigger] self.timers@[i]).deadline@ > deadline@,
            decreases self.timers@.len() - at,
        {
            at = at + 1;
        }
        let ghost stored = self.timers@;
        let ghost k = stored.len() - at;
        proof {
            assert forall|i: int| 0 <= i < k implies (#[trigger] all[i]).deadline@ <= deadline@ by {
                if i < k - 1 {
                    assert(fires_before(all[i], all[k - 1]));
                }
                assert(all[k - 1] == stored[at as int]);
            }
            assert forall|i: int| k <= i < all.len() implies (#[trigger] all[i]).deadline@
                > deadline@ by {
                assert(all[i] == stored[stored.len() - 1 - i]);
            }
            lemma_filter_prefix(all, due::<W>(deadline@), not_due::<W>(deadline@), k);
        }
        self.timers.insert(at, VirtualTimer { id, deadline, waker });
        proof {
            assert(self.timers@.reverse() =~= all.take(k).push(t) + all.skip(k));
            let now = self@.timers;
            assert forall|i: int, j: int| 0 <= i < j < now.len() implies fires_before(
                #[trigger] now[i],
                #[trigger] now[j],
            ) by {
                if i < k && j > k {
                    assert(fires_before(all[i], all[j - 1]));
                } else if i > k {
                    assert(fires_before(all[i - 1], all[j - 1]));
                } else if j < k {
                    assert(fires_before(all[i], all[j]));
                }
            }
        }
        id
    }

    /// Cancels a timer. One that fired already, or never was, changes nothing.
    pub fn cancel_timer(&mut self, id: TimerId)
        requires
            old(self)@.valid(),
        ensures
            final(self)@.valid(),
            final(self)@ == old(self)@.cancel(id),
    {
        let ghost all = self@.timers;
        let mut at: usize = 0;
        while at < self.timers.len() && self.timers[at].id.0 != id.0
            invariant
                at <= self.timers@.len(),
                forall|i: int| 0 <= i < at ==> (#[trigger] self.timers@[i]).id != id,
            decreases self.timers@.len() - at,
        {
            at = at + 1;
        }
        let n: usize = self.timers.len();
        let ghost stored = self.timers@;
        if at < n {
            let ghost k = n - 1 - at;
            proof {
                assert(all[k] == stored[at as int]);
                assert forall|i: int| 0 <= i < all.len() implies other_than::<W>(id)(
                    #[trigger] all[i],
                ) == (i != k) by {
                    if i < k {
                        assert(fires_before(all[i], all[k]));
                        assert(all[i] == stored[n - 1 - i]);
                    } else if i > k {
                        assert(fires_before(all[k], all[i]));
                        assert(all[i] == stored[n - 1 - i]);
                    }
                }
                lemma_filter_one_out(all, other_than::<W>(id), k);
            }
            let _removed = self.timers.remove(at);
            assert(self.timers@.reverse() =~= all.remove(k));
        } else {
            proof {
                assert forall|i: int| 0 <= i < all.len() implies other_than::<W>(id)(
                    #[trigger] all[i],
                ) by {
                    assert(all[i] == stored[n - 1 - i]);
                }
                lemma_filter_all(all, other_than::<W>(id));
            }
        }
    }

    /// Installs, replaces or (with `None`) clears the callback that the runtime asks
    /// at each idle point how far to move the clock.
    pub fn set_idle_advance_fn(&mut self, f: Option<F>)
        ensures
            final(self)@ == old(self)@.set_idle_advance(f),
    {
        self.idle_advance_fn = f;
        self.idle_advance_dirty = true;
    }

    /// Whether a callback is installed.
    pub fn has_idle_advance_fn(&self) -> (b: bool)
        ensures
            b == (self@.idle_advance_fn is Some),
    {
        self.idle_advance_fn.is_some()
    }

    /// Takes the callback out, to be called while the clock is not borrowed.
    pub fn take_idle_advance_fn(&mut self) -> (f: Option<F>)
        ensures
            f == old(self)@.idle_advance_fn,
            final(self)@ == old(self)@.take_idle_advance(),
    {
        self.idle_advance_dirty = false;
        self.idle_advance_fn.take()
    }

    /// Puts the callback back after its call, unless another one was installed or
    /// the callback was cleared meanwhile. Returns whether that happened.
    pub fn restore_idle_advance_fn(&mut self, f: F) -> (replaced: bool)
        ensures
            replaced == old(self)@.idle_advance_dirty,
            final(self)@ == old(self)@.restore_idle_advance(f),
    {
        if !self.idle_advance_dirty {
            self.idle_advance_fn = Some(f);
            false
        } else {
            true
        }
    }
}

/// In a valid clock the timers due at `now` are the first ones.
proof fn lemma_due_first<W, F>(clock: ClockView<W, F>, now: int) -> (n: int)
    requires
        clock.valid(),
    ensures
        0 <= n <= clock.timers.len(),
        forall|i: int| 0 <= i < n ==> (#[trigger] clock.timers[i]).deadline@ <= now,
        forall|i: int| n <= i < clock.timers.len() ==> (#[trigger] clock.timers[i]).deadline@ > now,
        clock.timers.filter(due(now)) == clock.timers.take(n),
        clock.timers.filter(not_due(now)) == clock.timers.skip(n),
{
    let n = count_due(clock.timers, now);
    lemma_count_due(clock.timers, now);
    lemma_filter_prefix(clock.timers, due::<W>(now), not_due::<W>(now), n);
    n
}

/// How many timers at the front are due at `now`.
spec fn count_due<W>(timers: Seq<VirtualTimer<W>>, now: int) -> int
    decreases timers.len(),
{
    if timers.len() > 0 && timers.last().deadline@ > now {
        count_due(timers.drop_last(), now)
    } else {
        timers.len() as int
    }
}

proof fn lemma_count_due<W>(timers: Seq<VirtualTimer<W>>, now: int)
    requires
        in_firing_order(timers),
    ensures
        0 <= count_due(timers, now) <= timers.len(),
        forall|i: int|
            0 <= i < count_due(timers, now) ==> (#[trigger] timers[i]).deadline@ <= now,
        forall|i: int|
            count_due(timers, now) <= i < timers.len() ==> (#[trigger] timers[i]).deadline@ > now,
    decreases timers.len(),
{
    if timers.len() > 0 && timers.last().deadline@ > now {
        let front = timers.drop_last();
        lemma_count_due(front, now);
        assert forall|i: int| 0 <= i < timers.len() - 1 implies front[i] == #[trigger] timers[i] by {
        }
    } else {
        assert forall|i: int| 0 <= i < timers.len() implies (#[trigger] timers[i]).deadline@
            <= now by {
            if i < timers.len() - 1 {
                assert(fires_before(timers[i], timers[timers.len() - 1]));
            }
        }
    }
}

/// No timer is lost or fires twice: those that fire and those that stay pending
/// are together the timers that there were, in the same order.
pub proof fn law_timers_fire_once<W, F>(clock: ClockView<W, F>, target: Instant)
    requires
        clock.valid(),
    ensures
        clock.fired(target) + clock.advance_to(target).timers == clock.timers,
{
    let fired = clock.fired(target);
    let left = clock.advance_to(target).timers;
    let n: int = if target@ < clock.current@ {
        0
    } else {
        lemma_due_first(clock, target@)
    };
    assert(fired == clock.timers.take(n)) by {
        if target@ < clock.current@ {
            assert(clock.timers.take(0) =~= Seq::empty());
        }
    }
    assert(left == clock.timers.skip(n)) by {
        if target@ < clock.current@ {
            assert(clock.timers.skip(0) =~= clock.timers);
        }
    }
    lemma_take_skip(clock.timers, n);
}

proof fn lemma_take_skip<A>(s: Seq<A>, n: int)
    requires
        0 <= n <= s.len(),
    ensures
        s.take(n) + s.skip(n) == s,
{
    assert(s.take(n) + s.skip(n) =~= s);
}

/// No timer fires early, none that is due stays pending, and those that fire do
/// so by deadline, equal deadlines in the order of registration.
pub proof fn law_timers_fire_on_time<W, F>(clock: ClockView<W, F>, target: Instant)
    requires
        clock.valid(),
    ensures
        in_firing_order(clock.fired(target)),
        forall|i: int|
            0 <= i < clock.fired(target).len() ==> (#[trigger] clock.fired(target)[i]).deadline@
                <= clock.advance_to(target).current@,
        target@ >= clock.current@ ==> forall|i: int|
            0 <= i < clock.advance_to(target).timers.len() ==> (
            #[trigger] clock.advance_to(target).timers[i]).deadline@ > clock.advance_to(
                target,
            ).current@,
{
    if target@ >= clock.current@ {
        let n = lemma_due_first(clock, target@);
    }
}

/// The clock never moves back: a move to an earlier time changes nothing, and no timer
/// fires.
pub proof fn law_time_is_monotonic<W, F>(clock: ClockView<W, F>, target: Instant)
    ensures
        clock.advance_to(target).current@ >= clock.current@,
        clock.advance_to(target).current@ >= target@,
        target@ < clock.current@ ==> clock.advance_to(target) == clock && clock.fired(target).len()
            == 0,
{
}

/// Moving in two steps is moving at once: the same timers fire in the same order,
/// and the clock ends up the same.
pub proof fn law_advance_in_steps<W, F>(clock: ClockView<W, F>, mid: Instant, target: Instant)
    requires
        clock.valid(),
        mid@ <= target@,
    ensures
        clock.advance_to(mid).advance_to(target) == clock.advance_to(target),
        clock.fired(mid) + clock.advance_to(mid).fired(target) == clock.fired(target),
{
    let first = clock.advance_to(mid);
    if mid@ < clock.current@ {
        assert(clock.fired(mid) + clock.fired(target) =~= clock.fired(target));
    } else {
        let n = lemma_due_first(clock, mid@);
        assert(first.valid());
        let m = lemma_due_first(clock, target@);
        let k = lemma_due_first(first, target@);
        assert(n <= m) by {
            if m < n {
                assert(clock.timers[m].deadline@ > target@);
            }
        }
        assert(n + k == m) by {
            if n + k < m {
                assert(first.timers[k] == clock.timers[n + k]);
            } else if m < n + k {
                assert(first.timers[m - n] == clock.timers[m]);
            }
        }
        assert(clock.timers.skip(n).skip(k) =~= clock.timers.skip(m));
        assert(clock.timers.take(n) + clock.timers.skip(n).take(k) =~= clock.timers.take(m));
    }
}

/// A canceled timer never fires.
pub proof fn law_canceled_timer_never_fires<W, F>(
    clock: ClockView<W, F>,
    id: TimerId,
    target: Instant,
)
    requires
        clock.valid(),
    ensures
        forall|i: int|
            0 <= i < clock.cancel(id).fired(target).len() ==> (#[trigger] clock.cancel(id).fired(
                target,
            )[i]).id != id,
{
    let left = clock.timers.filter(other_than(id));
    let now = target@;
    assert forall|i: int| 0 <= i < left.filter(due(now)).len() implies (#[trigger] left.filter(
        due(now),
    )[i]).id != id by {
        let t = left.filter(due::<W>(now))[i];
        lemma_filter_keeps(left, due::<W>(now), i);
        let j = choose|j: int| 0 <= j < left.len() && left[j] == t;
        lemma_filter_keeps(clock.timers, other_than::<W>(id), j);
    }
}

/// A timer for a deadline that has passed fires on the next move that is not back, however
/// small.
pub proof fn law_past_deadline_fires_next<W, F>(
    clock: ClockView<W, F>,
    deadline: Instant,
    waker: W,
    target: Instant,
)
    requires
        clock.valid(),
        deadline@ <= clock.current@,
        clock.current@ <= target@,
    ensures
        clock.register(deadline, waker).fired(target).contains(clock.new_timer(deadline, waker)),
{
    let t = clock.new_timer(deadline, waker);
    let with = clock.register(deadline, waker);
    let k = clock.timers.filter(due(deadline@)).len() as int;
    assert(with.timers[k] == t);
    lemma_filter_has(with.timers, due::<W>(target@), k);
}

/// Of two timers for the same deadline the one registered first comes first among
/// the pending ones, and so fires first.
pub proof fn law_equal_deadlines_in_registration_order<W, F>(
    clock: ClockView<W, F>,
    deadline: Instant,
    first: W,
    second: W,
)
    requires
        clock.valid(),
        clock.next_timer_id < u64::MAX - 1,
    ensures
        ({
            let once = clock.register(deadline, first);
            let twice = once.register(deadline, second);
            exists|i: int, j: int|
                0 <= i < j < twice.timers.len() && #[trigger] twice.timers[i] == clock.new_timer(
                    deadline,
                    first,
                ) && #[trigger] twice.timers[j] == once.new_timer(deadline, second)
        }),
{
    let once = clock.register(deadline, first);
    let twice = once.register(deadline, second);
    let t = clock.new_timer(deadline, first);
    let k = clock.timers.filter(due(deadline@)).len() as int;
    assert(once.timers[k] == t);
    lemma_filter_has(once.timers, due::<W>(deadline@), k);
    let front = once.timers.filter(due(deadline@));
    let i = choose|i: int| 0 <= i < front.len() && front[i] == t;
    let j = front.len() as int;
    assert(twice.timers[i] == t);
    assert(twice.timers[j] == once.new_timer(deadline, second));
}

/// A callback that nobody touched during its call is back in place afterwards; one
/// that was replaced or cleared during its call gives way to what was put there.
pub proof fn law_idle_callback_survives_its_call<W, F>(
    clock: ClockView<W, F>,
    f: F,
    other: Option<F>,
)
    requires
        clock.idle_advance_fn == Some(f),
    ensures
        clock.take_idle_advance().restore_idle_advance(f).idle_advance_fn == Some(f),
        clock.take_idle_advance().set_idle_advance(other).restore_idle_advance(
            f,
        ).idle_advance_fn == other,
{
}

/// Registering a timer keeps the clock valid, and puts the timer at its place.
pub proof fn lemma_register<W, F>(clock: ClockView<W, F>, deadline: Instant, waker: W) -> (k: int)
    requires
        clock.valid(),
    ensures
        0 <= k <= clock.timers.len(),
        clock.register(deadline, waker).timers == clock.timers.insert(
            k,
            clock.new_timer(deadline, waker),
        ),
        forall|i: int| 0 <= i < k ==> (#[trigger] clock.timers[i]).deadline@ <= deadline@,
        forall|i: int|
            k <= i < clock.timers.len() ==> (#[trigger] clock.timers[i]).deadline@ > deadline@,
        clock.next_timer_id < u64::MAX ==> clock.register(deadline, waker).valid(),
{
    let k = lemma_due_first(clock, deadline@);
    let t = clock.new_timer(deadline, waker);
    let after = clock.register(deadline, waker);
    let all = clock.timers;
    let now = after.timers;
    assert(now =~= all.insert(k, t));
    if clock.next_timer_id < u64::MAX {
        assert forall|i: int, j: int| 0 <= i < j < now.len() implies fires_before(
            #[trigger] now[i],
            #[trigger] now[j],
        ) by {
            if i < k && j > k {
                assert(fires_before(all[i], all[j - 1]));
            } else if i > k {
                assert(fires_before(all[i - 1], all[j - 1]));
            } else if j < k {
                assert(fires_before(all[i], all[j]));
            }
        }
        assert forall|i: int| 0 <= i < now.len() implies 1 <= (#[trigger] now[i]).id.0
            < after.next_timer_id by {
            if i < k {
                assert(now[i] == all[i]);
            } else if i > k {
                assert(now[i] == all[i - 1]);
            }
        }
        assert forall|i: int, j: int| 0 <= i < j < now.len() implies (#[trigger] now[i]).id != (
        #[trigger] now[j]).id by {
            assert(i < k ==> now[i] == all[i]);
            assert(j < k ==> now[j] == all[j]);
            assert(i > k ==> now[i] == all[i - 1]);
            assert(j > k ==> now[j] == all[j - 1]);
        }
    }
    k
}

/// A timer that is registered is one more under an identifier that no pending timer has;
/// the next deadline is the earlier of its own and the one before; and neither the time
/// moves nor does anything fire, even for a deadline that has passed.
pub proof fn law_registration_adds_one_timer<W, F>(
    clock: ClockView<W, F>,
    deadline: Instant,
    waker: W,
)
    requires
        clock.valid(),
    ensures
        ({
            let after = clock.register(deadline, waker);
            let t = clock.new_timer(deadline, waker);
            &&& clock.next_timer_id < u64::MAX ==> after.valid()
            &&& after.timers.len() == clock.timers.len() + 1
            &&& after.timers.contains(t)
            &&& forall|i: int| 0 <= i < clock.timers.len() ==> (#[trigger] clock.timers[i]).id != t.id
            &&& after.current == clock.current
            &&& after.epoch == clock.epoch
            &&& after.next_deadline() is Some
            &&& after.next_deadline()->0@ == (match clock.next_deadline() {
                None => deadline@,
                Some(m) => if deadline@ < m@ {
                    deadline@
                } else {
                    m@
                },
            })
        }),
{
    let k = lemma_register(clock, deadline, waker);
    let after = clock.register(deadline, waker);
    assert(after.timers[k] == clock.new_timer(deadline, waker));
    if k > 0 {
        assert(after.timers[0] == clock.timers[0]);
    }
}

/// Canceling a pending timer takes that one out, and keeps the clock valid.
pub proof fn lemma_cancel<W, F>(clock: ClockView<W, F>, k: int)
    requires
        clock.valid(),
        0 <= k < clock.timers.len(),
    ensures
        clock.cancel(clock.timers[k].id).timers == clock.timers.remove(k),
        clock.cancel(clock.timers[k].id).valid(),
{
    let id = clock.timers[k].id;
    let all = clock.timers;
    assert forall|i: int| 0 <= i < all.len() implies other_than::<W>(id)(#[trigger] all[i]) == (i
        != k) by {
        if i < k {
            assert(all[i].id != all[k].id);
        } else if i > k {
            assert(all[k].id != all[i].id);
        }
    }
    lemma_filter_one_out(all, other_than::<W>(id), k);
    let left = all.remove(k);
    assert forall|i: int| 0 <= i < left.len() implies #[trigger] left[i] == (if i < k {
        all[i]
    } else {
        all[i + 1]
    }) by {}
}

/// Replacing the timer of a wait by one for another waker leaves as many timers as there
/// were, and the new one among them.
pub proof fn lemma_rearm<W, F>(clock: ClockView<W, F>, k: int, waker: W)
    requires
        clock.valid(),
        clock.next_timer_id < u64::MAX,
        0 <= k < clock.timers.len(),
    ensures
        ({
            let old_timer = clock.timers[k];
            let after = clock.cancel(old_timer.id).register(old_timer.deadline, waker);
            &&& after.valid()
            &&& after.timers.len() == clock.timers.len()
            &&& after.timers.contains(clock.new_timer(old_timer.deadline, waker))
        }),
{
    lemma_cancel(clock, k);
    law_registration_adds_one_timer(
        clock.cancel(clock.timers[k].id),
        clock.timers[k].deadline,
        waker,
    );
}

/// A call that changes a virtual clock.
#[allow(inconsistent_fields)]
pub enum ClockCall<W, F> {
    /// A move by a duration, which leads to `target`.
    Advance { by: Duration, target: Instant },
    AdvanceTo { target: Instant },
    Register { deadline: Instant, waker: W },
    Cancel { id: TimerId },
    SetIdleAdvance { callback: Option<F> },
    TakeIdleAdvance,
    RestoreIdleAdvance { callback: F },
}

impl<W, F> ClockView<W, F> {
    /// The clock after a call.
    pub open spec fn called(self, call: ClockCall<W, F>) -> Self {
        match call {
            ClockCall::Advance { by: _, target } => self.advance_to(target),
            ClockCall::AdvanceTo { target } => self.advance_to(target),
            ClockCall::Register { deadline, waker } => self.register(deadline, waker),
            ClockCall::Cancel { id } => self.cancel(id),
            ClockCall::SetIdleAdvance { callback } => self.set_idle_advance(callback),
            ClockCall::TakeIdleAdvance => self.take_idle_advance(),
            ClockCall::RestoreIdleAdvance { callback } => self.restore_idle_advance(callback),
        }
    }

    /// Whether a call can be made: the clock can hold where a move by a duration leads, and
    /// an identifier is left for a timer.
    pub open spec fn callable(self, call: ClockCall<W, F>) -> bool {
        match call {
            ClockCall::Advance { by, target } => target@ == self.current@ + by@,
            ClockCall::Register { .. } => self.next_timer_id < u64::MAX,
            _ => true,
        }
    }

    /// The clock after calls, in order.
    pub open spec fn called_all(self, calls: Seq<ClockCall<W, F>>) -> Self
        decreases calls.len(),
    {
        if calls.len() == 0 {
            self
        } else {
            self.called_all(calls.drop_last()).called(calls.last())
        }
    }

    /// Whether the calls can be made, in order.
    pub open spec fn all_callable(self, calls: Seq<ClockCall<W, F>>) -> bool
        decreases calls.len(),
    {
        calls.len() == 0 || self.all_callable(calls.drop_last()) && self.called_all(
            calls.drop_last(),
        ).callable(calls.last())
    }
}

/// The sum of the durations by which calls move a clock.
pub open spec fn total_moves<W, F>(calls: Seq<ClockCall<W, F>>) -> int
    decreases calls.len(),
{
    if calls.len() == 0 {
        0
    } else {
        total_moves(calls.drop_last()) + match calls.last() {
            ClockCall::Advance { by, target: _ } => by@ as int,
            _ => 0,
        }
    }
}

/// Over any calls the epoch stays and the time never goes back; and where none of them
/// moves the clock to an instant, the time is what it was plus the durations by which it
/// was moved.
pub proof fn law_time_is_the_epoch_and_the_moves<W, F>(
    clock: ClockView<W, F>,
    calls: Seq<ClockCall<W, F>>,
)
    requires
        clock.all_callable(calls),
    ensures
        clock.called_all(calls).epoch == clock.epoch,
        clock.called_all(calls).current@ >= clock.current@,
        (forall|i: int| 0 <= i < calls.len() ==> !(#[trigger] calls[i] is AdvanceTo))
            ==> clock.called_all(calls).current@ == clock.current@ + total_moves(calls),
        (forall|i: int|
            0 <= i < calls.len() ==> !(#[trigger] calls[i] is AdvanceTo) && !(calls[i] is Advance))
            ==> clock.called_all(calls).current == clock.current,
    decreases calls.len(),
{
    if calls.len() > 0 {
        let front = calls.drop_last();
        law_time_is_the_epoch_and_the_moves(clock, front);
        assert forall|i: int| 0 <= i < front.len() implies front[i] == #[trigger] calls[i] by {}
        assert(calls[calls.len() - 1] == calls.last());
    }
}

/// Over any calls the clock stays valid, and the identifiers that it gives out grow.
pub proof fn law_calls_keep_the_clock_valid<W, F>(
    clock: ClockView<W, F>,
    calls: Seq<ClockCall<W, F>>,
)
    requires
        clock.valid(),
        clock.all_callable(calls),
    ensures
        clock.called_all(calls).valid(),
        clock.called_all(calls).next_timer_id >= clock.next_timer_id,
        forall|i: int|
            0 <= i < calls.len() && (#[trigger] calls[i]) is Register ==> clock.called_all(
                calls.take(i),
            ).next_timer_id < clock.called_all(calls).next_timer_id,
    decreases calls.len(),
{
    if calls.len() > 0 {
        let front = calls.drop_last();
        law_calls_keep_the_clock_valid(clock, front);
        let c = clock.called_all(front);
        match calls.last() {
            ClockCall::Advance { by: _, target } => {
                lemma_advance_to_valid(c, target);
            },
            ClockCall::AdvanceTo { target } => {
                lemma_advance_to_valid(c, target);
            },
            ClockCall::Register { deadline, waker } => {
                let k = lemma_register(c, deadline, waker);
            },
            ClockCall::Cancel { id } => {
                lemma_cancel_valid(c, id);
            },
            _ => {},
        }
        assert forall|i: int|
            0 <= i < calls.len() && (#[trigger] calls[i]) is Register implies clock.called_all(
            calls.take(i),
        ).next_timer_id < clock.called_all(calls).next_timer_id by {
            if i < front.len() {
                assert(front[i] == calls[i]);
                assert(front.take(i) =~= calls.take(i));
            } else {
                assert(calls.take(i) =~= front);
            }
        }
    }
}

proof fn lemma_advance_to_valid<W, F>(clock: ClockView<W, F>, target: Instant)
    requires
        clock.valid(),
    ensures
        clock.advance_to(target).valid(),
{
    if target@ >= clock.current@ {
        let n = lemma_due_first(clock, target@);
        let left = clock.timers.skip(n);
        assert forall|i: int| 0 <= i < left.len() implies #[trigger] left[i] == clock.timers[i
            + n] by {}
    }
}

proof fn lemma_cancel_valid<W, F>(clock: ClockView<W, F>, id: TimerId)
    requires
        clock.valid(),
    ensures
        clock.cancel(id).valid(),
{
    if exists|k: int| 0 <= k < clock.timers.len() && (#[trigger] clock.timers[k]).id == id {
        let k = choose|k: int|
            0 <= k < clock.timers.len() && (#[trigger] clock.timers[k]).id == id;
        lemma_cancel(clock, k);
    } else {
        lemma_filter_all(clock.timers, other_than::<W>(id));
    }
}

/// The identifier of a timer differs from every one that the clock gave out before, for
/// timers that fired or were canceled too.
pub proof fn law_timer_ids_are_never_reused<W, F>(
    clock: ClockView<W, F>,
    calls: Seq<ClockCall<W, F>>,
    i: int,
    j: int,
)
    requires
        clock.valid(),
        clock.all_callable(calls),
        0 <= i < j < calls.len(),
        calls[i] is Register,
        calls[j] is Register,
    ensures
        clock.called_all(calls.take(i)).next_timer_id < clock.called_all(
            calls.take(j),
        ).next_timer_id,
    decreases calls.len(),
{
    let front = calls.drop_last();
    if j == calls.len() - 1 {
        assert(calls.take(j) =~= front);
        law_calls_keep_the_clock_valid(clock, front);
        assert(front[i] == calls[i]);
        assert(front.take(i) =~= calls.take(i));
    } else {
        assert(front.take(i) =~= calls.take(i));
        assert(front.take(j) =~= calls.take(j));
        law_timer_ids_are_never_reused(clock, front, i, j);
    }
}

} // verus!
