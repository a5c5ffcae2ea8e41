//! The virtual clock and the sleeps on it.

use vstd::prelude::*;

use crate::errno::Errno;
use crate::laws::scheduling::{law_every_wake_arrives, law_no_wake_no_change};
use crate::model::{StateView, TaskReadyState, Waker};
use crate::requests::{is_time_left, time_left, IoRequest};
use crate::seqs::{lemma_filter_has, lemma_filter_keeps};
use crate::sleep::{
    sleep_deadline, thread_now, timeout_poll, SleepFuture, SleepFutureInner, VirtualSleepFuture,
};
use crate::task_future::Poll;
use crate::time::{is_instant, Duration, Instant};
use crate::virtual_clock::{
    due, lemma_cancel, lemma_register, not_due, other_than, wakers_of, ClockView, TimerId,
};

verus! {

/// A move of the clock that is not back fires exactly the timers whose deadline it reaches:
/// those fire and are pending no more, all others stay pending. The clock then reads the
/// target.
pub proof fn law_reached_deadlines_fire<W, F>(clock: ClockView<W, F>, target: Instant, i: int)
    requires
        0 <= i < clock.timers.len(),
        clock.current@ <= target@,
    ensures
        ({
            let t = clock.timers[i];
            let after = clock.advance_to(target);
            &&& clock.fired(target).contains(t) == (t.deadline@ <= target@)
            &&& after.timers.contains(t) == (t.deadline@ > target@)
            &&& after.current == target
            &&& after.epoch == clock.epoch
            &&& after.next_timer_id == clock.next_timer_id
            &&& after.idle_advance_fn == clock.idle_advance_fn
            &&& after.idle_advance_dirty == clock.idle_advance_dirty
        }),
{
    let t = clock.timers[i];
    let now = target@;
    let fired = clock.timers.filter(due::<W>(now));
    let left = clock.timers.filter(not_due::<W>(now));
    if t.deadline@ <= now {
        lemma_filter_has(clock.timers, due::<W>(now), i);
        if left.contains(t) {
            let j = choose|j: int| 0 <= j < left.len() && left[j] == t;
            lemma_filter_keeps(clock.timers, not_due::<W>(now), j);
        }
    } else {
        lemma_filter_has(clock.timers, not_due::<W>(now), i);
        if fired.contains(t) {
            let j = choose|j: int| 0 <= j < fired.len() && fired[j] == t;
            lemma_filter_keeps(clock.timers, due::<W>(now), j);
        }
    }
}

/// Timers fire by deadline, and those of equal deadlines in the order in which they were
/// registered; each wakes what it was registered for. Nothing fires that was not pending.
pub proof fn law_timers_fire_in_order<W, F>(clock: ClockView<W, F>, target: Instant, i: int, j: int)
    requires
        clock.valid(),
        0 <= i < j < clock.fired(target).len(),
    ensures
        ({
            let f = clock.fired(target);
            &&& f[i].deadline@ <= f[j].deadline@
            &&& f[i].deadline@ == f[j].deadline@ ==> f[i].id.0 < f[j].id.0
            &&& f[j].deadline@ <= target@
            &&& clock.timers.contains(f[i])
            &&& clock.timers.contains(f[j])
            &&& wakers_of(f).len() == f.len()
            &&& wakers_of(f)[i] == f[i].waker
            &&& wakers_of(f)[j] == f[j].waker
        }),
{
    let f = clock.fired(target);
    assert(crate::virtual_clock::fires_before(f[i], f[j])) by {
        crate::virtual_clock::law_timers_fire_on_time(clock, target);
    }
    lemma_filter_keeps(clock.timers, due::<W>(target@), i);
    lemma_filter_keeps(clock.timers, due::<W>(target@), j);
}

/// The timers stand by deadline, equal ones in the order of registration, so the next
/// deadline is the earliest: no pending timer has an earlier one, and one has it. There is
/// none exactly where no timer is pending.
pub proof fn law_next_deadline_is_the_earliest<W, F>(clock: ClockView<W, F>)
    requires
        clock.valid(),
    ensures
        clock.next_deadline() is None == (clock.timers.len() == 0),
        clock.next_deadline() matches Some(d) ==> {
            &&& forall|i: int|
                0 <= i < clock.timers.len() ==> d@ <= (#[trigger] clock.timers[i]).deadline@
            &&& exists|i: int|
                0 <= i < clock.timers.len() && (#[trigger] clock.timers[i]).deadline == d
        },
        forall|i: int, j: int|
            0 <= i < j < clock.timers.len() ==> {
                let a = #[trigger] clock.timers[i];
                let b = #[trigger] clock.timers[j];
                a.deadline@ < b.deadline@ || (a.deadline@ == b.deadline@ && a.id.0 < b.id.0)
            },
{
    if clock.timers.len() > 0 {
        assert(clock.timers[0].deadline == clock.next_deadline()->0);
        assert forall|i: int| 0 <= i < clock.timers.len() implies clock.timers[0].deadline@ <= (
        #[trigger] clock.timers[i]).deadline@ by {
            if i > 0 {
                assert(crate::virtual_clock::fires_before(clock.timers[0], clock.timers[i]));
            }
        }
    }
    assert forall|i: int, j: int| 0 <= i < j < clock.timers.len() implies ({
        let a = #[trigger] clock.timers[i];
        let b = #[trigger] clock.timers[j];
        a.deadline@ < b.deadline@ || (a.deadline@ == b.deadline@ && a.id.0 < b.id.0)
    }) by {
        assert(crate::virtual_clock::fires_before(clock.timers[i], clock.timers[j]));
    }
}

/// A timer that is registered stands, under the next identifier and for the waker and the
/// deadline that were asked for, behind all timers that are due when it is and before all
/// others. Those keep their order, and neither the time nor the idle callback changes.
pub proof fn law_timer_takes_its_place<W, F>(clock: ClockView<W, F>, deadline: Instant, waker: W)
    requires
        clock.valid(),
        clock.next_timer_id < u64::MAX,
    ensures
        ({
            let after = clock.register(deadline, waker);
            &&& exists|k: int|
                #![trigger after.timers[k]]
                0 <= k <= clock.timers.len() && after.timers[k].id.0 == clock.next_timer_id
                    && after.timers[k].deadline == deadline && after.timers[k].waker == waker
                    && after.timers.remove(k) == clock.timers && (forall|i: int|
                    0 <= i < k ==> (#[trigger] clock.timers[i]).deadline@ <= deadline@) && (forall|
                    i: int,
                |
                    k <= i < clock.timers.len() ==> (#[trigger] clock.timers[i]).deadline@
                        > deadline@)
            &&& after.timers.len() == clock.timers.len() + 1
            &&& after.next_timer_id == clock.next_timer_id + 1
            &&& after.current == clock.current
            &&& after.epoch == clock.epoch
            &&& after.idle_advance_fn == clock.idle_advance_fn
            &&& after.idle_advance_dirty == clock.idle_advance_dirty
        }),
{
    let k = lemma_register(clock, deadline, waker);
    let after = clock.register(deadline, waker);
    assert(after.timers.remove(k) =~= clock.timers);
    assert(after.timers[k].id.0 == clock.next_timer_id);
}

/// A cancel takes out the timer that it names and no other; the others keep their order.
pub proof fn law_cancel_takes_one_timer_out<W, F>(clock: ClockView<W, F>, id: TimerId)
    requires
        clock.valid(),
    ensures
        ({
            let after = clock.cancel(id);
            &&& forall|k: int|
                0 <= k < clock.timers.len() && (#[trigger] clock.timers[k]).id == id
                    ==> after.timers == clock.timers.remove(k)
            &&& (forall|k: int|
                0 <= k < clock.timers.len() ==> (#[trigger] clock.timers[k]).id != id)
                ==> after.timers == clock.timers
            &&& after == (ClockView { timers: after.timers, ..clock })
        }),
{
    assert forall|k: int|
        0 <= k < clock.timers.len() && (#[trigger] clock.timers[k]).id
            == id implies clock.cancel(id).timers == clock.timers.remove(k) by {
        lemma_cancel(clock, k);
    }
    if forall|k: int| 0 <= k < clock.timers.len() ==> (#[trigger] clock.timers[k]).id != id {
        crate::seqs::lemma_filter_all(clock.timers, other_than::<W>(id));
    }
}

/// A clock starts at its epoch, without timers and without an idle callback.
pub proof fn law_clock_starts_at_its_epoch<W, F>(start: Instant)
    ensures
        ({
            let c = ClockView::<W, F>::start(start);
            &&& c.epoch == start
            &&& c.current == start
            &&& c.timers.len() == 0
            &&& c.idle_advance_fn is None
            &&& !c.idle_advance_dirty
            &&& c.next_timer_id == 1
        }),
{
}

/// The idle callback is out of the clock while it is called, and comes back unless it was
/// replaced or taken away meanwhile.
pub proof fn law_idle_callback_comes_back<W, F>(
    clock: ClockView<W, F>,
    f: F,
    other: Option<F>,
)
    ensures
        clock.set_idle_advance(other).idle_advance_fn == other,
        clock.take_idle_advance().idle_advance_fn is None,
        clock.take_idle_advance().restore_idle_advance(f).idle_advance_fn == Some(f),
        clock.take_idle_advance().set_idle_advance(other).restore_idle_advance(f).idle_advance_fn
            == other,
        clock.take_idle_advance().set_idle_advance(other).idle_advance_dirty,
        !clock.take_idle_advance().idle_advance_dirty,
        clock.set_idle_advance(other).current == clock.current,
        clock.set_idle_advance(other).timers == clock.timers,
        clock.take_idle_advance().current == clock.current,
        clock.take_idle_advance().timers == clock.timers,
        clock.restore_idle_advance(f).current == clock.current,
        clock.restore_idle_advance(f).timers == clock.timers,
        clock.restore_idle_advance(f).idle_advance_dirty == clock.idle_advance_dirty,
{
}

/// A move of the clock leads that much later, and a sleep ends that much later; a century
/// later, of a hundred years of 365 days, where no instant can hold that.
pub proof fn law_durations_are_counted_from_now<W, F>(
    clock: ClockView<W, F>,
    now: Instant,
    duration: Duration,
)
    ensures
        is_instant(clock.current@ + duration@) ==> clock.target_nanos(duration)
            == clock.current@ + duration@,
        !is_instant(clock.current@ + duration@) ==> clock.target_nanos(duration)
            == clock.current@ + 100 * 365 * 24 * 3600 * 1_000_000_000,
        is_instant(now@ + duration@) ==> sleep_deadline(now, duration) == now@ + duration@,
        !is_instant(now@ + duration@) ==> sleep_deadline(now, duration) == now@ + 100 * 365 * 24
            * 3600 * 1_000_000_000,
{
    assert(100 * 365 * 24 * 3600 * 1_000_000_000 == 3_153_600_000 * 1_000_000_000);
}

/// An instant holds the nanoseconds of as many seconds as an `i64` counts, and no others.
pub proof fn law_instants_hold_signed_seconds(nanos: int)
    ensures
        is_instant(nanos) == (i64::MIN * 1_000_000_000 <= nanos < (i64::MAX + 1) * 1_000_000_000),
{
    assert(i64::MIN * 1_000_000_000 == -9_223_372_036_854_775_808_000_000_000int);
    assert((i64::MAX + 1) * 1_000_000_000 == 9_223_372_036_854_775_808_000_000_000int);
}

/// The thread's time is that of its virtual clock, and that of the system where it has none.
pub proof fn law_virtual_time_comes_first(s: StateView, system_now: Instant)
    ensures
        s.clock matches Some(c) ==> thread_now(s, system_now) == c.current,
        s.clock is None ==> thread_now(s, system_now) == system_now,
{
}

/// How long an operation may still take that is to end by a deadline: what is left until
/// then, nothing at the deadline itself; after it, the operation is refused with `ETIMEDOUT`
/// (110). Without a deadline there is no limit.
pub proof fn law_deadline_leaves_the_rest(
    deadline: Instant,
    now: Instant,
    timeout: Option<Duration>,
    any: Option<Duration>,
)
    ensures
        deadline@ < now@ ==> time_left(Some(deadline), now) == Err::<Option<int>, Errno>(
            Errno { code: 110 },
        ),
        deadline@ >= now@ ==> time_left(Some(deadline), now) == Ok::<Option<int>, Errno>(
            Some(deadline@ - now@),
        ),
        time_left(None, now) == Ok::<Option<int>, Errno>(None),
        is_time_left(timeout, Some(deadline), now) ==> now@ <= deadline@ && timeout is Some
            && now@ + (timeout->0)@ == deadline@,
        is_time_left(any, None, now) == (any is None),
{
}

/// What the kernel reports of an operation is what its caller gets, but for a timeout by a
/// deadline: that is `ETIMEDOUT` (110) in the place of `ETIME` (62).
pub proof fn law_caller_gets_the_kernels_number(request: IoRequest, n: u32, e: Errno)
    ensures
        request.reported(Ok(n)) == Ok::<usize, Errno>(n as usize),
        e.code != 62 || !request.by_deadline ==> request.reported(Err(e)) == Err::<usize, Errno>(
            e,
        ),
        e.code == 62 && request.by_deadline ==> request.reported(Err(e)) == Err::<usize, Errno>(
            Errno { code: 110 },
        ),
{
}

/// The expiry of a timeout in the kernel (`ETIME`, 62) is the success of a sleep; any other
/// error is the sleep's, and a timeout that is pending leaves it pending.
pub proof fn law_expiry_is_success(e: Errno)
    ensures
        timeout_poll(Poll::Ready(Err(Errno { code: 62 }))) == Poll::Ready(Ok::<(), Errno>(())),
        e.code != 62 ==> timeout_poll(Poll::Ready(Err(e))) == Poll::Ready(Err::<(), Errno>(e)),
        timeout_poll(Poll::Pending) == Poll::<Result<(), Errno>>::Pending,
{
}

/// What a poll of a sleep on the virtual clock gives. A canceled sleep ends with `ECANCELED`
/// (125), whatever the time. One whose deadline is reached ends well, but not at its first
/// poll: that yields, and has the task polled again. Before the deadline it is pending, and
/// nobody is woken.
pub proof fn law_virtual_sleep_polls(f: VirtualSleepFuture, s: StateView, waker: Waker)
    requires
        s.clock is Some,
    ensures
        ({
            let r = f.poll_step(s, waker);
            let reached = f.deadline@ <= s.clock->0.current@;
            &&& f.canceled ==> {
                &&& r.poll == Poll::Ready(Err::<(), Errno>(Errno { code: 125 }))
                &&& r.sleep.completed
                &&& !r.sleep.canceled
                &&& r.state == s
            }
            &&& !f.canceled && reached && f.yielded_once ==> {
                &&& r.poll == Poll::Ready(Ok::<(), Errno>(()))
                &&& r.sleep.completed
                &&& r.sleep.timer_id is None
                &&& r.state == s
            }
            &&& !f.canceled && reached && !f.yielded_once ==> {
                &&& r.poll is Pending
                &&& r.sleep == (VirtualSleepFuture { yielded_once: true, ..f })
                &&& r.state == s.wake(waker)
            }
            &&& !f.canceled && !reached ==> {
                &&& r.poll is Pending
                &&& r.sleep.yielded_once
                &&& !r.sleep.canceled
                &&& r.sleep.completed == f.completed
                &&& r.sleep.timer_id is Some
                &&& r.sleep.cached_waker == Some(waker)
                &&& r.state == (StateView { clock: r.state.clock, ..s })
            }
            &&& r.sleep.deadline == f.deadline
        }),
{
}

/// Before its deadline a sleep has a timer for that deadline that wakes whoever polled it
/// last: the one it had, where that does so, else a new one, and the old one is gone.
pub proof fn law_sleep_arms_its_timer(f: VirtualSleepFuture, s: StateView, waker: Waker)
    requires
        s.clock is Some,
        !f.canceled,
        f.deadline@ > s.clock->0.current@,
    ensures
        ({
            let r = f.poll_step(s, waker);
            let c = s.clock->0;
            let keeps = f.timer_id is Some && f.cached_waker == Some(waker);
            let without = match f.timer_id {
                Some(id) => c.cancel(id),
                None => c,
            };
            &&& keeps ==> r.state == s && r.sleep.timer_id == f.timer_id
            &&& !keeps ==> {
                &&& r.sleep.timer_id == Some(TimerId(c.next_timer_id))
                &&& r.state.clock == Some(without.register(f.deadline, waker))
            }
        }),
{
}

/// A sleep begins without a timer, and neither canceled nor over.
pub proof fn law_sleep_begins_fresh(deadline: Instant)
    ensures
        ({
            let f = VirtualSleepFuture::fresh(deadline);
            &&& f.deadline == deadline
            &&& f.timer_id is None
            &&& f.cached_waker is None
            &&& !f.canceled
            &&& !f.completed
            &&& !f.yielded_once
        }),
{
}

/// What a poll of a sleep gives. To an instant in the past there is nothing to wait for. In
/// the kernel it ends well when the timeout expires, and with the kernel's error otherwise. A
/// canceled one ends with `ECANCELED` (125), once the kernel let go of its timeout. A sleep
/// that gave a result is over.
pub proof fn law_sleep_polls(
    f: SleepFuture,
    s: StateView,
    waker: Waker,
    kernel: Poll<Result<(), Errno>>,
)
    requires
        !f.over(),
    ensures
        ({
            let r = f.poll_step(s, waker, kernel);
            &&& f.inner matches SleepFutureInner::Past { canceled, terminated: _ } ==> {
                &&& canceled ==> r.poll == Poll::Ready(Err::<(), Errno>(Errno { code: 125 }))
                &&& !canceled ==> r.poll == Poll::Ready(Ok::<(), Errno>(()))
                &&& r.state == s
            }
            &&& f.inner matches SleepFutureInner::Real {
                duration,
                completion,
                canceled,
                terminated: _,
            } ==> {
                &&& !canceled && kernel == Poll::Ready(Err::<(), Errno>(Errno { code: 62 }))
                    ==> r.poll == Poll::Ready(Ok::<(), Errno>(()))
                &&& !canceled && kernel != Poll::Ready(Err::<(), Errno>(Errno { code: 62 }))
                    ==> r.poll == kernel
                &&& canceled && completion is Some && kernel is Pending ==> r.poll is Pending
                &&& canceled && (completion is None || kernel is Ready) ==> r.poll == Poll::Ready(
                    Err::<(), Errno>(Errno { code: 125 }),
                )
                &&& r.state == s
                &&& r.future.inner matches SleepFutureInner::Real {
                    duration: d,
                    completion: c,
                    canceled: x,
                    terminated: _,
                } && d == duration && c == completion && x == canceled
            }
            &&& f.inner matches SleepFutureInner::Virtual { sleep } ==> {
                &&& r.poll == sleep.poll_step(s, waker).poll
                &&& r.state == sleep.poll_step(s, waker).state
                &&& r.future.inner == (SleepFutureInner::Virtual {
                    sleep: sleep.poll_step(s, waker).sleep,
                })
            }
            &&& !(f.inner is Virtual) ==> r.future.over() == r.poll is Ready
        }),
{
}

/// A sleep is over when it gave a result.
pub proof fn law_sleep_is_over_when_it_gave_a_result(f: SleepFuture)
    ensures
        f.inner matches SleepFutureInner::Past { canceled: _, terminated } ==> f.over()
            == terminated,
        f.inner matches SleepFutureInner::Real {
            duration: _,
            completion: _,
            canceled: _,
            terminated,
        } ==> f.over() == terminated,
        f.inner matches SleepFutureInner::Virtual { sleep } ==> f.over() == sleep.completed,
{
}

/// A cancel of a sleep, from then on: a virtual one that is not over has no timer any more
/// and says at its next poll that it was canceled; the timeout of one in the kernel is
/// canceled there, and the sleep then ends with `ECANCELED` once the kernel let go of it; one
/// to the past, or one that the kernel never had, says so at its next poll.
pub proof fn law_canceled_sleep_says_so(
    f: SleepFuture,
    s: StateView,
    later: StateView,
    waker: Waker,
    kernel: Poll<Result<(), Errno>>,
)
    requires
        !f.over(),
        later.clock is Some || !(f.inner is Virtual),
    ensures
        ({
            let g = f.after_cancel();
            let r = g.poll_step(later, waker, kernel);
            let t = f.cancel_state(s);
            let held = f.inner is Real && f.inner->completion is Some;
            &&& !held || kernel is Ready ==> r.poll == Poll::Ready(
                Err::<(), Errno>(Errno { code: 125 }),
            )
            &&& held && kernel is Pending ==> r.poll is Pending
            &&& !g.over()
            &&& held ==> t == s.cancel_completion(f.inner->completion->0)
            &&& f.inner is Real && !held ==> t == s
            &&& f.inner is Past ==> t == s
            &&& f.inner matches SleepFutureInner::Virtual { sleep } ==> {
                &&& g.inner matches SleepFutureInner::Virtual { sleep: x } && x.timer_id is None
                    && x.deadline == sleep.deadline
                &&& sleep.timer_id is Some && s.clock is Some ==> t == (StateView {
                    clock: Some(s.clock->0.cancel(sleep.timer_id->0)),
                    ..s
                })
                &&& sleep.timer_id is None || s.clock is None ==> t == s
            }
        }),
{
}

/// A sleep that is over stays over when it is canceled, and a virtual one does not say that it
/// was.
pub proof fn law_sleep_that_is_over_is_not_canceled(f: SleepFuture)
    requires
        f.over(),
    ensures
        f.after_cancel().over(),
        f.inner matches SleepFutureInner::Virtual { sleep } ==> (
        f.after_cancel().inner matches SleepFutureInner::Virtual { sleep: x } && !x.canceled
            && x.timer_id is None),
{
}

/// The operation of a sleep is noted where the sleep is one in the kernel, and nothing else
/// of it changes.
pub proof fn law_sleep_notes_its_operation(f: SleepFuture, id: u64)
    ensures
        f.inner matches SleepFutureInner::Real {
            duration,
            completion: _,
            canceled,
            terminated,
        } ==> f.with_operation(id).inner == (SleepFutureInner::Real {
            duration,
            completion: Some(id),
            canceled,
            terminated,
        }),
        !(f.inner is Real) ==> f.with_operation(id) == f,
        f.held_by_kernel(Poll::Pending) == (f.inner is Real && f.inner->completion is Some),
        !f.held_by_kernel(Poll::Ready(Ok(()))),
{
}

/// A move of the thread's clock wakes the tasks whose timers' deadlines it reaches, and
/// leaves every task alone that no such timer is for.
pub proof fn law_reached_deadlines_wake_their_tasks(
    s: StateView,
    target: Instant,
    i: int,
    key: u64,
)
    requires
        s.valid(),
        s.clock is Some,
        s.clock->0.current@ <= target@,
        0 <= i < s.clock->0.timers.len(),
        s.clock->0.timers[i].waker == Waker::Task(key),
        s.tasks.contains_key(key),
        s.tasks[key].ready == TaskReadyState::Running || s.tasks[key].ready
            == TaskReadyState::Suspend,
    ensures
        ({
            let t = s.clock_advanced_to(target);
            &&& s.clock->0.timers[i].deadline@ <= target@ ==> {
                &&& t.tasks[key].ready == TaskReadyState::Ready
                &&& t.fill.contains(key) || t.ready_io.contains(key)
            }
            &&& (forall|j: int|
                0 <= j < s.clock->0.timers.len() && (#[trigger] s.clock->0.timers[j]).waker
                    == Waker::Task(key) ==> s.clock->0.timers[j].deadline@ > target@)
                ==> t.tasks[key] == s.tasks[key]
        }),
{
    let c = s.clock->0;
    let moved = s.with_clock(Some(c.advance_to(target)));
    let fired = c.fired(target);
    let wakers = wakers_of(fired);
    law_reached_deadlines_fire(c, target, i);
    if c.timers[i].deadline@ <= target@ {
        let j = choose|j: int| 0 <= j < fired.len() && fired[j] == c.timers[i];
        assert(wakers[j] == Waker::Task(key));
        law_every_wake_arrives(moved, wakers, j, key);
    }
    if forall|j: int|
        0 <= j < c.timers.len() && (#[trigger] c.timers[j]).waker == Waker::Task(key)
            ==> c.timers[j].deadline@ > target@ {
        assert forall|j: int| 0 <= j < wakers.len() implies #[trigger] wakers[j] != Waker::Task(
            key,
        ) by {
            lemma_filter_keeps(c.timers, due::<Waker>(target@), j);
            let m = choose|m: int| 0 <= m < c.timers.len() && c.timers[m] == fired[j];
            assert(c.timers[m].waker == wakers[j]);
        }
        law_no_wake_no_change(moved, wakers, key);
    }
}

/// A timer is canceled on the clock of the thread, where it has one; nothing else changes. A
/// callback is offered back to that clock.
pub proof fn law_thread_without_clock_has_no_timers(s: StateView, id: TimerId, callback: u64)
    ensures
        s.clock is None ==> s.timer_canceled(Some(id)) == s && s.idle_advance_restored(callback)
            == s && !s.has_idle_advance(),
        s.timer_canceled(None) == s,
        s.clock matches Some(c) ==> {
            &&& s.timer_canceled(Some(id)) == (StateView { clock: Some(c.cancel(id)), ..s })
            &&& s.idle_advance_restored(callback) == (StateView {
                clock: Some(c.restore_idle_advance(callback)),
                ..s
            })
            &&& s.has_idle_advance() == c.idle_advance_fn is Some
        },
{
}

} // verus!
