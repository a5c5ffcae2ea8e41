//! Events that tasks wait for.
//!
//! An event is set or reset. A task can wait until it is set, or until it is reset.
//! Setting it wakes all who wait, or only as many as the caller wants.

use vstd::prelude::*;

use crate::errno::{CanceledError, Errno, TimeoutError, ECANCELED};
use crate::model::{wait_drop, wait_poll, wait_pollable, StateView, WaitPoll, WaitStep, Waker};
use crate::task::waits::{WaitFuture, WaitList};
use crate::task::TaskState;
use crate::time::{is_instant, Duration, Instant};

verus! {

/// The model of an event.
#[verifier::ext_equal]
pub struct EventView {
    pub state: bool,
    /// The waits for the event, oldest first.
    pub waiting: Seq<u64>,
}

/// Waits of `s` that are for an event to be reset.
pub open spec fn for_reset(s: StateView) -> spec_fn(u64) -> bool {
    |id: u64| s.waits.contains_key(id) && !s.waits[id].expected
}

/// The other waits of `s`.
pub open spec fn not_for_reset(s: StateView) -> spec_fn(u64) -> bool {
    |id: u64| !(s.waits.contains_key(id) && !s.waits[id].expected)
}

/// An event that tasks can wait for.
pub struct AsyncEvent {
    state: bool,
    waiting_tasks: WaitList,
}

impl View for AsyncEvent {
    type V = EventView;

    closed spec fn view(&self) -> EventView {
        EventView { state: self.state, waiting: self.waiting_tasks@ }
    }
}

/// How a wait with a deadline goes on.
#[derive(Clone, Copy, Debug, PartialEq, Eq)]
pub enum DeadlineStep {
    /// Wait for the event and sleep this long, whichever ends first; then look again.
    Wait(Duration),
    /// The wait is over.
    Done(Result<(), TimeoutError>),
}

/// What ended one round of a wait with a deadline.
#[derive(Clone, Copy, Debug, PartialEq, Eq)]
pub enum DeadlineRound {
    /// The wait for the event.
    Waited(Result<(), CanceledError>),
    /// The sleep.
    Slept(Result<(), Errno>),
}

impl AsyncEvent {
    /// An event that is not set.
    pub fn new() -> (e: AsyncEvent)
        ensures
            e@ == (EventView { state: false, waiting: Seq::empty() }),
    {
        AsyncEvent::with_state(false)
    }

    /// An event with the given initial state.
    pub fn with_state(state: bool) -> (e: AsyncEvent)
        ensures
            e@ == (EventView { state, waiting: Seq::empty() }),
    {
        AsyncEvent { state, waiting_tasks: WaitList::new() }
    }

    /// Sets the event and wakes all who wait.
    pub fn set(&mut self, tasks: &mut TaskState)
        requires
            old(tasks)@.valid(),
        ensures
            final(tasks)@.valid(),
            final(self)@ == old(self)@.all_woken(),
            final(tasks)@ == old(tasks)@.wake_waits(old(self)@.waiting),
    {
        self.state = true;
        self.waiting_tasks.wake_all(tasks);
    }

    /// Whether the event is set.
    pub fn is_set(&self) -> (b: bool)
        ensures
            b == self@.state,
    {
        self.state
    }

    /// Sets the event and wakes the one who waits longest, if any.
    ///
    /// The others stay where they are though the event is set, unless they are polled
    /// for another reason. When in doubt, use [`AsyncEvent::set`].
    pub fn set_wake_one(&mut self, tasks: &mut TaskState)
        requires
            old(tasks)@.valid(),
        ensures
            final(tasks)@.valid(),
            final(self)@ == old(self)@.woken(1),
            final(tasks)@ == old(tasks)@.wake_waits(old(self)@.first(1)),
    {
        self.set_wake_n(1, tasks);
    }

    /// Sets the event and wakes at most `count` of those who wait, those who wait
    /// longest first.
    pub fn set_wake_n(&mut self, count: usize, tasks: &mut TaskState)
        requires
            old(tasks)@.valid(),
        ensures
            final(tasks)@.valid(),
            final(self)@ == old(self)@.woken(count as nat),
            final(tasks)@ == old(tasks)@.wake_waits(old(self)@.first(count as nat)),
    {
        self.state = true;
        let ghost all = old(self)@.waiting;
        let mut left: usize = count;
        assert(all.skip(0) =~= all);
        assert(all.take(0) =~= Seq::<u64>::empty());
        loop
            invariant_except_break
                count - left <= all.len(),
            invariant
                all == old(self)@.waiting,
                left <= count,
                count - left <= all.len(),
                self.state,
                tasks@.valid(),
                self.waiting_tasks@ == all.skip(count - left),
                tasks@ == old(tasks)@.wake_waits(all.take(count - left)),
            ensures
                left == 0 || count - left == all.len(),
            decreases left,
        {
            if left == 0 {
                break;
            }
            let woke = self.waiting_tasks.wake_one(tasks);
            if !woke {
                break;
            }
            proof {
                let n = count - left;
                assert(all.skip(n).drop_first() =~= all.skip(n + 1));
                assert(all.take(n + 1).drop_last() =~= all.take(n));
                assert(all.take(n + 1).last() == all.skip(n)[0]);
            }
            left = left - 1;
        }
    }

    /// Resets the event. Those who wait for it to be set are not affected; those who
    /// wait for it to be reset are woken.
    pub fn reset(&mut self, tasks: &mut TaskState)
        requires
            old(tasks)@.valid(),
        ensures
            final(tasks)@.valid(),
            final(self)@ == old(self)@.was_reset(old(tasks)@),
            final(tasks)@ == old(tasks)@.wake_waits(old(self)@.reset_wakes(old(tasks)@)),
    {
        self.state = false;
        let ghost all = old(self)@.waiting;
        let mut kept: Vec<u64> = Vec::new();
        let mut woken: Vec<u64> = Vec::new();
        let mut i: usize = 0;
        proof {
            assert(all.take(0) =~= Seq::<u64>::empty());
            reveal(Seq::filter);
        }
        while i < self.waiting_tasks.ids.len()
            invariant
                i <= all.len(),
                all == self.waiting_tasks@,
                tasks@ == old(tasks)@,
                !self.state,
                kept@ == all.take(i as int).filter(not_for_reset(old(tasks)@)),
                woken@ == all.take(i as int).filter(for_reset(old(tasks)@)),
            decreases all.len() - i,
        {
            let id: u64 = self.waiting_tasks.ids[i];
            proof {
                reveal(Seq::filter);
                assert(all.take(i + 1).drop_last() =~= all.take(i as int));
                assert(all.take(i + 1).last() == id);
            }
            if tasks.waits_for_reset(id) {
                woken.push(id);
            } else {
                kept.push(id);
            }
            i = i + 1;
        }
        assert(all.take(i as int) =~= all);
        self.waiting_tasks.ids = kept;
        tasks.wake_waits(&woken);
    }

    /// Begins a wait for the event to be set.
    pub fn wait(&self) -> (f: WaitAsyncEventFuture)
        ensures
            f.wait == (WaitFuture { alive: true, wait: None, expected: true }),
    {
        WaitAsyncEventFuture { wait: WaitFuture::new(true) }
    }

    /// Begins a wait for the event to be reset.
    pub fn wait_reset(&self) -> (f: WaitAsyncEventFuture)
        ensures
            f.wait == (WaitFuture { alive: true, wait: None, expected: false }),
    {
        WaitAsyncEventFuture { wait: WaitFuture::new(false) }
    }

    /// Whether anybody waits for the event.
    pub fn any_waiting(&self) -> (b: bool)
        ensures
            b == (self@.waiting.len() > 0),
    {
        self.waiting_tasks.any_waiting()
    }

    /// How long a wait that ends at `deadline` still lasts at `now`: `None` once the
    /// event is set or the deadline is reached.
    pub fn wait_remaining(&self, deadline: Instant, now: Instant) -> (d: Option<Duration>)
        ensures
            d is Some == (!self@.state && now@ < deadline@),
            d matches Some(d) ==> d@ == deadline@ - now@,
    {
        if self.state {
            return None;
        }
        match deadline.checked_duration_since(now) {
            Some(remaining) => if remaining.is_zero() {
                None
            } else {
                Some(remaining)
            },
            None => None,
        }
    }

    /// How a wait for the event that ends at `deadline` goes on at `now`.
    pub fn wait_with_deadline(&self, deadline: Instant, now: Instant) -> (step: DeadlineStep)
        ensures
            self@.goes_on(deadline, now, step),
    {
        match self.wait_remaining(deadline, now) {
            Some(remaining) => DeadlineStep::Wait(remaining),
            None => if self.state {
                DeadlineStep::Done(Ok(()))
            } else {
                DeadlineStep::Done(Err(TimeoutError::Timeout))
            },
        }
    }

    /// Whether the end of one round of a wait with a deadline ends the wait: only a
    /// cancellation does; otherwise the wait looks again.
    pub fn round_ended(round: DeadlineRound) -> (e: Option<TimeoutError>)
        ensures
            e == round_error(round),
    {
        match round {
            DeadlineRound::Waited(Err(_)) => Some(TimeoutError::Canceled),
            DeadlineRound::Slept(Err(e)) => if e.code == ECANCELED {
                Some(TimeoutError::Canceled)
            } else {
                None
            },
            _ => None,
        }
    }

    /// What a wait without a deadline reports.
    pub fn unbounded_result(result: Result<(), CanceledError>) -> (r: Result<(), TimeoutError>)
        ensures
            result is Ok ==> r == Ok::<(), TimeoutError>(()),
            result is Err ==> r == Err::<(), TimeoutError>(TimeoutError::Canceled),
    {
        match result {
            Ok(()) => Ok(()),
            Err(_) => Err(TimeoutError::Canceled),
        }
    }

    /// The deadline of a wait that lasts at most `timeout` from `now`.
    pub fn wait_with_timeout(timeout: Option<Duration>, now: Instant) -> (d: Option<Instant>)
        requires
            timeout matches Some(t) ==> is_instant(now@ + t@),
        ensures
            d is Some == timeout is Some,
            timeout matches Some(t) ==> d->0@ == now@ + t@,
    {
        match timeout {
            Some(t) => now.checked_add(t),
            None => None,
        }
    }
}

/// Why the end of one round of a wait with a deadline ends the wait, `None` where it looks
/// again.
pub open spec fn round_error(round: DeadlineRound) -> Option<TimeoutError> {
    if round is Waited && round->Waited_0 is Err || round is Slept && round->Slept_0 == Err::<
        (),
        Errno,
    >(Errno { code: ECANCELED }) {
        Some(TimeoutError::Canceled)
    } else {
        None
    }
}

impl EventView {
    /// Whether a wait for the event that ends at `deadline` goes on at `now` with `step`.
    pub open spec fn goes_on(self, deadline: Instant, now: Instant, step: DeadlineStep) -> bool {
        match step {
            DeadlineStep::Wait(d) => !self.state && now@ < deadline@ && d@ == deadline@ - now@,
            DeadlineStep::Done(Ok(())) => self.state,
            DeadlineStep::Done(Err(e)) => !self.state && deadline@ <= now@ && e
                == TimeoutError::Timeout,
        }
    }

    /// The event after it was set and all its waits were woken.
    pub open spec fn all_woken(self) -> Self {
        EventView { state: true, waiting: Seq::empty() }
    }

    /// The event after it was reset, on the thread `s`: waits for it to be set stay.
    pub open spec fn was_reset(self, s: StateView) -> Self {
        EventView { state: false, waiting: self.waiting.filter(not_for_reset(s)) }
    }

    /// The waits that a reset of the event wakes, on the thread `s`.
    pub open spec fn reset_wakes(self, s: StateView) -> Seq<u64> {
        self.waiting.filter(for_reset(s))
    }

    /// The waits that waking `count` of them reaches.
    pub open spec fn first(self, count: nat) -> Seq<u64> {
        if count <= self.waiting.len() {
            self.waiting.take(count as int)
        } else {
            self.waiting
        }
    }

    /// The event after it was set and `count` of its waits were woken.
    pub open spec fn woken(self, count: nat) -> Self {
        EventView {
            state: true,
            waiting: if count <= self.waiting.len() {
                self.waiting.skip(count as int)
            } else {
                Seq::empty()
            },
        }
    }
}

/// A wait for an event.
pub struct WaitAsyncEventFuture {
    pub wait: WaitFuture,
}

impl WaitAsyncEventFuture {
    /// Polls the wait from the running task: it ends once the event is in the state
    /// that is waited for.
    pub fn poll(
        &mut self,
        event: &mut AsyncEvent,
        tasks: &mut TaskState,
        waker: Waker,
        tag: u32,
    ) -> (outcome: WaitPoll)
        requires
            old(tasks)@.valid(),
            wait_pollable(old(tasks)@, old(self).wait.alive, old(self).wait.wait),
        ensures
            final(tasks)@.valid(),
            final(self).wait.expected == old(self).wait.expected,
            final(event)@.state == old(event)@.state,
            (WaitStep {
                state: final(tasks)@,
                list: final(event)@.waiting,
                alive: final(self).wait.alive,
                wait: final(self).wait.wait,
                outcome,
            }) == wait_poll(
                old(tasks)@,
                old(event)@.waiting,
                old(self).wait.alive,
                old(self).wait.wait,
                old(event)@.state == old(self).wait.expected,
                waker,
                tag,
                old(self).wait.expected,
            ),
    {
        let complete = event.state == self.wait.expected;
        self.wait.poll(&mut event.waiting_tasks, complete, tasks, waker, tag)
    }

    /// Whether the wait is over.
    pub fn is_terminated(&self) -> (b: bool)
        ensures
            b == !self.wait.alive,
    {
        self.wait.is_terminated()
    }

    /// Ends the future: a wait that is not over leaves the event's list.
    pub fn drop_wait(&mut self, event: &mut AsyncEvent, tasks: &mut TaskState)
        requires
            old(tasks)@.valid(),
        ensures
            final(tasks)@.valid(),
            final(self).wait == (WaitFuture { alive: false, wait: None, ..old(self).wait }),
            final(event)@.state == old(event)@.state,
            (final(tasks)@, final(event)@.waiting) == wait_drop(
                old(tasks)@,
                old(event)@.waiting,
                old(self).wait.alive,
                old(self).wait.wait,
            ),
    {
        self.wait.drop_wait(&mut event.waiting_tasks, tasks);
    }
}

/// Waking as many as wait, or more, is waking all.
pub proof fn law_wake_n_wakes_all(e: EventView, count: nat)
    requires
        count >= e.waiting.len(),
    ensures
        e.first(count) == e.waiting,
        e.woken(count).waiting == Seq::<u64>::empty(),
{
    assert(e.waiting.take(e.waiting.len() as int) =~= e.waiting);
    assert(e.waiting.skip(e.waiting.len() as int) =~= Seq::<u64>::empty());
}

/// Waking `a` and then `b` of those who wait is waking `a + b` of them.
pub proof fn law_wake_n_adds_up(e: EventView, a: nat, b: nat)
    requires
        a + b <= e.waiting.len(),
    ensures
        e.woken(a).woken(b) == e.woken(a + b),
        e.first(a) + e.woken(a).first(b) == e.first(a + b),
{
    assert(e.waiting.skip(a as int).skip(b as int) =~= e.waiting.skip((a + b) as int));
    assert(e.waiting.take(a as int) + e.waiting.skip(a as int).take(b as int) =~= e.waiting.take(
        (a + b) as int,
    ));
}

/// A wait for a set event ends at its next poll, unless it was canceled or its task
/// was aborted; so does a wait for a reset one.
pub proof fn law_wait_ends_when_state_matches(
    s: StateView,
    e: EventView,
    wait: Option<u64>,
    waker: Waker,
    tag: u32,
    expected: bool,
)
    requires
        wait_pollable(s, true, wait),
        !s.wait_canceled(wait),
        s.tasks[s.current_task->0].ready != crate::model::TaskReadyState::Aborted,
    ensures
        (wait_poll(s, e.waiting, true, wait, e.state == expected, waker, tag, expected).outcome
            == WaitPoll::Ready) == (e.state == expected),
{
}

} // verus!
