//! Sleeps, on the virtual clock or on the kernel's.

use vstd::prelude::*;

use crate::errno::{Errno, TimeoutError, ECANCELED, ETIME};
use crate::model::{StateView, Waker};
use crate::task::io::in_flight_room;
use crate::task::TaskState;
use crate::task_future::Poll;
use crate::time::{is_instant, Duration, Instant};
use crate::virtual_clock::{
    law_registration_adds_one_timer, lemma_rearm, TimerId, VirtualTimer, CENTURY_SECS,
};

verus! {

/// A sleep until the virtual clock reaches a deadline.
#[derive(Clone, Copy, Debug, PartialEq, Eq)]
pub struct VirtualSleepFuture {
    pub deadline: Instant,
    /// The timer that wakes the sleep, while one is registered.
    pub timer_id: Option<TimerId>,
    /// What that timer wakes.
    pub cached_waker: Option<Waker>,
    /// Whether the sleep was canceled and did not report that yet.
    pub canceled: bool,
    pub completed: bool,
    /// Whether a poll left the sleep pending. One always does, as a sleep on the kernel's clock
    /// would be; otherwise a loop of empty sleeps would keep other tasks from running.
    pub yielded_once: bool,
}

/// A poll of a virtual sleep: the sleep and the thread after it, and what it gives.
pub struct SleepStep {
    pub sleep: VirtualSleepFuture,
    pub state: StateView,
    pub poll: Poll<Result<(), Errno>>,
}

impl VirtualSleepFuture {
    /// A sleep that was not polled yet.
    pub open spec fn fresh(deadline: Instant) -> VirtualSleepFuture {
        VirtualSleepFuture {
            deadline,
            timer_id: None,
            cached_waker: None,
            canceled: false,
            completed: false,
            yielded_once: false,
        }
    }

    /// Whether a timer is registered that wakes `waker`.
    pub open spec fn armed(self, waker: Waker) -> bool {
        self.timer_id is Some && self.cached_waker == Some(waker)
    }

    /// A poll that finds the deadline ahead: the sleep keeps the timer that it has, so
    /// that its place among equal deadlines stays the same, unless that timer wakes
    /// something else.
    pub open spec fn wait_step(self, s: StateView, waker: Waker) -> SleepStep {
        if self.armed(waker) {
            SleepStep {
                sleep: VirtualSleepFuture { yielded_once: true, ..self },
                state: s,
                poll: Poll::Pending,
            }
        } else {
            let without = s.timer_canceled(self.timer_id);
            let c = without.clock->0;
            SleepStep {
                sleep: VirtualSleepFuture {
                    timer_id: Some(TimerId(c.next_timer_id)),
                    cached_waker: Some(waker),
                    yielded_once: true,
                    ..self
                },
                state: without.with_clock(Some(c.register(self.deadline, waker))),
                poll: Poll::Pending,
            }
        }
    }

    /// A poll of the sleep, to be woken through `waker`.
    pub open spec fn poll_step(self, s: StateView, waker: Waker) -> SleepStep {
        if self.canceled {
            SleepStep {
                sleep: VirtualSleepFuture { canceled: false, completed: true, ..self },
                state: s,
                poll: Poll::Ready(Err(Errno { code: ECANCELED })),
            }
        } else if s.clock->0.current@ >= self.deadline@ {
            if self.yielded_once {
                SleepStep {
                    sleep: VirtualSleepFuture { completed: true, timer_id: None, ..self },
                    state: s,
                    poll: Poll::Ready(Ok(())),
                }
            } else {
                SleepStep {
                    sleep: VirtualSleepFuture { yielded_once: true, ..self },
                    state: s.wake(waker),
                    poll: Poll::Pending,
                }
            }
        } else {
            self.wait_step(s, waker)
        }
    }

    /// A sleep until `deadline`.
    pub fn new(deadline: Instant) -> (f: VirtualSleepFuture)
        ensures
            f == VirtualSleepFuture::fresh(deadline),
    {
        VirtualSleepFuture {
            deadline,
            timer_id: None,
            cached_waker: None,
            canceled: false,
            completed: false,
            yielded_once: false,
        }
    }

    /// Cancels the sleep: its next poll reports the cancellation. One that is over stays
    /// as it is.
    pub fn cancel(&mut self, state: &mut TaskState)
        requires
            old(state)@.valid(),
        ensures
            final(state)@.valid(),
            *final(self) == (VirtualSleepFuture {
                timer_id: None,
                canceled: !old(self).completed,
                ..*old(self)
            }),
            final(state)@ == old(state)@.timer_canceled(old(self).timer_id),
    {
        if let Some(id) = self.timer_id.take() {
            state.cancel_timer(id);
        }
        self.canceled = !self.completed;
    }

    /// Whether the sleep is over.
    pub fn is_terminated(&self) -> (b: bool)
        ensures
            b == self.completed,
    {
        self.completed
    }

    /// Polls the sleep, to be woken through `waker`.
    pub fn poll(&mut self, state: &mut TaskState, waker: Waker) -> (p: Poll<Result<(), Errno>>)
        requires
            old(state)@.valid(),
            !old(self).completed,
            !old(self).canceled ==> old(state)@.clock is Some,
            old(state)@.clock matches Some(c) ==> c.next_timer_id < u64::MAX,
        ensures
            final(state)@.valid(),
            (SleepStep { sleep: *final(self), state: final(state)@, poll: p })
                == old(self).poll_step(old(state)@, waker),
    {
        if self.canceled {
            self.canceled = false;
            self.completed = true;
            return Poll::Ready(Err(Errno { code: ECANCELED }));
        }
        let now = match state.clock() {
            Some(clock) => clock.now(),
            None => self.deadline,
        };
        if self.deadline.at_or_before(now) {
            if !self.yielded_once {
                self.yielded_once = true;
                state.wake(waker);
                return Poll::Pending;
            }
            self.completed = true;
            self.timer_id = None;
            return Poll::Ready(Ok(()));
        }
        let armed = match (self.timer_id, self.cached_waker) {
            (Some(_), Some(w)) => w == waker,
            _ => false,
        };
        if !armed {
            if let Some(id) = self.timer_id {
                state.cancel_timer(id);
            }
            let id = state.register_timer(self.deadline, waker);
            self.timer_id = Some(id);
            self.cached_waker = Some(waker);
        }
        self.yielded_once = true;
        Poll::Pending
    }

    /// Ends the sleep: its timer does not fire any more.
    pub fn drop_sleep(&mut self, state: &mut TaskState)
        requires
            old(state)@.valid(),
        ensures
            final(state)@.valid(),
            *final(self) == (VirtualSleepFuture { timer_id: None, ..*old(self) }),
            final(state)@ == old(state)@.timer_canceled(old(self).timer_id),
    {
        if let Some(id) = self.timer_id.take() {
            state.cancel_timer(id);
        }
    }
}

/// What is behind a sleep.
#[derive(Clone, Copy, Debug, PartialEq, Eq)]
pub enum SleepFutureInner {
    /// A timeout in the kernel, under this operation once it was submitted.
    Real { duration: Duration, completion: Option<u64>, canceled: bool, terminated: bool },
    /// A timer of the virtual clock.
    Virtual { sleep: VirtualSleepFuture },
    /// To an instant that had passed when the sleep began: there is nothing to wait for.
    Past { canceled: bool, terminated: bool },
}

/// A sleep.
#[derive(Clone, Copy, Debug, PartialEq, Eq)]
pub struct SleepFuture {
    pub inner: SleepFutureInner,
}

/// What a poll of a timeout in the kernel means for a sleep: its expiry is the sleep's
/// success.
pub open spec fn timeout_poll(poll: Poll<Result<(), Errno>>) -> Poll<Result<(), Errno>> {
    if poll == Poll::Ready(Err::<(), Errno>(Errno { code: ETIME })) {
        Poll::Ready(Ok(()))
    } else {
        poll
    }
}

/// Turns a poll of a timeout in the kernel into one of a sleep. A timeout never
/// succeeds: it expires or fails.
pub fn map_timeout_poll(poll: Poll<Result<(), Errno>>) -> (p: Poll<Result<(), Errno>>)
    requires
        poll != Poll::Ready(Ok::<(), Errno>(())),
    ensures
        p == timeout_poll(poll),
{
    if let Poll::Ready(Err(e)) = &poll {
        if e.code == ETIME {
            return Poll::Ready(Ok(()));
        }
    }
    poll
}

/// The current time of the thread: that of the virtual clock where it has one, else
/// `system_now`.
pub open spec fn thread_now(s: StateView, system_now: Instant) -> Instant {
    match s.clock {
        Some(c) => c.current,
        None => system_now,
    }
}

/// The current time of the thread: that of the virtual clock where it has one, else
/// `system_now`, the time of the system.
pub fn clock_now(state: &TaskState, system_now: Instant) -> (now: Instant)
    ensures
        now == thread_now(state@, system_now),
{
    match state.clock() {
        Some(clock) => clock.now(),
        None => system_now,
    }
}

/// Where a sleep of `duration` from `now` ends: a century later where no instant can
/// hold that.
pub open spec fn sleep_deadline(now: Instant, duration: Duration) -> int {
    if is_instant(now@ + duration@) {
        now@ + duration@
    } else {
        now@ + CENTURY_SECS * 1_000_000_000
    }
}

/// A virtual sleep until `deadline`, where the thread has a virtual clock.
pub fn try_virtual_sleep(state: &TaskState, deadline: Instant) -> (f: Option<SleepFuture>)
    ensures
        f == (if state@.clock is Some {
            Some(
                SleepFuture {
                    inner: SleepFutureInner::Virtual { sleep: VirtualSleepFuture::fresh(deadline) },
                },
            )
        } else {
            None
        }),
{
    if state.has_clock() {
        Some(
            SleepFuture {
                inner: SleepFutureInner::Virtual { sleep: VirtualSleepFuture::new(deadline) },
            },
        )
    } else {
        None
    }
}

impl SleepFuture {
    /// Whether this is the sleep of `duration` that begins on the thread.
    pub open spec fn sleeps_for(self, s: StateView, duration: Duration, system_now: Instant) -> bool {
        match self.inner {
            SleepFutureInner::Virtual { sleep } => {
                &&& s.clock is Some
                &&& sleep.deadline@ == sleep_deadline(thread_now(s, system_now), duration)
                &&& sleep == VirtualSleepFuture::fresh(sleep.deadline)
            },
            SleepFutureInner::Real { duration: d, completion, canceled, terminated } => {
                &&& s.clock is None
                &&& d == duration
                &&& completion is None
                &&& !canceled
                &&& !terminated
            },
            SleepFutureInner::Past { .. } => false,
        }
    }

    /// Whether this is the sleep until `deadline` that begins on the thread.
    pub open spec fn sleeps_until(
        self,
        s: StateView,
        deadline: Instant,
        system_now: Instant,
    ) -> bool {
        match self.inner {
            SleepFutureInner::Past { canceled, terminated } => {
                &&& deadline@ < thread_now(s, system_now)@
                &&& !canceled
                &&& !terminated
            },
            SleepFutureInner::Virtual { sleep } => {
                &&& deadline@ >= thread_now(s, system_now)@
                &&& s.clock is Some
                &&& sleep == VirtualSleepFuture::fresh(deadline)
            },
            SleepFutureInner::Real { duration, completion, canceled, terminated } => {
                &&& deadline@ >= thread_now(s, system_now)@
                &&& s.clock is None
                &&& duration@ == deadline@ - system_now@
                &&& completion is None
                &&& !canceled
                &&& !terminated
            },
        }
    }
}

/// A sleep of at least `duration`, on the virtual clock where the thread has one; `system_now`
/// is the time of the system.
pub fn sleep(state: &TaskState, duration: Duration, system_now: Instant) -> (f: SleepFuture)
    requires
        is_instant(sleep_deadline(thread_now(state@, system_now), duration)),
    ensures
        f.sleeps_for(state@, duration, system_now),
{
    let now = clock_now(state, system_now);
    let deadline = match now.checked_add(duration) {
        Some(t) => t,
        None => match now.checked_add(Duration::from_secs(CENTURY_SECS)) {
            Some(t) => t,
            None => now,
        },
    };
    match try_virtual_sleep(state, deadline) {
        Some(f) => f,
        None => SleepFuture {
            inner: SleepFutureInner::Real { duration, completion: None, canceled: false, terminated: false },
        },
    }
}

/// A sleep until `deadline`, on the virtual clock where the thread has one, else for the
/// time that is left from `system_now`, the time of the system. One to an instant that
/// passed ends at its first poll.
pub fn sleep_until(state: &TaskState, deadline: Instant, system_now: Instant) -> (f: SleepFuture)
    ensures
        f.sleeps_until(state@, deadline, system_now),
{
    let now = clock_now(state, system_now);
    if !now.at_or_before(deadline) {
        return SleepFuture {
            inner: SleepFutureInner::Past { canceled: false, terminated: false },
        };
    }
    match try_virtual_sleep(state, deadline) {
        Some(f) => f,
        None => SleepFuture {
            inner: SleepFutureInner::Real {
                duration: deadline.saturating_duration_since(now),
                completion: None,
                canceled: false,
                terminated: false,
            },
        },
    }
}

/// A poll of a sleep: the sleep and the thread after it, and what it gives.
pub struct SleepFutureStep {
    pub future: SleepFuture,
    pub state: StateView,
    pub poll: Poll<Result<(), Errno>>,
}

impl SleepFuture {
    /// Whether the sleep is over.
    pub open spec fn over(self) -> bool {
        match self.inner {
            SleepFutureInner::Real { terminated, .. } => terminated,
            SleepFutureInner::Virtual { sleep } => sleep.completed,
            SleepFutureInner::Past { terminated, .. } => terminated,
        }
    }

    /// The sleep after its timeout was submitted to the kernel as operation `id`.
    pub open spec fn with_operation(self, id: u64) -> SleepFuture {
        match self.inner {
            SleepFutureInner::Real { duration, completion: _, canceled, terminated } => SleepFuture {
                inner: SleepFutureInner::Real {
                    duration,
                    completion: Some(id),
                    canceled,
                    terminated,
                },
            },
            _ => self,
        }
    }

    /// The sleep after it was canceled.
    pub open spec fn after_cancel(self) -> SleepFuture {
        SleepFuture {
            inner: match self.inner {
                SleepFutureInner::Real { duration, completion, canceled: _, terminated } => {
                    SleepFutureInner::Real { duration, completion, canceled: true, terminated }
                },
                SleepFutureInner::Virtual { sleep } => SleepFutureInner::Virtual {
                    sleep: VirtualSleepFuture {
                        timer_id: None,
                        canceled: !sleep.completed,
                        ..sleep
                    },
                },
                SleepFutureInner::Past { canceled: _, terminated } => SleepFutureInner::Past {
                    canceled: true,
                    terminated,
                },
            },
        }
    }

    /// The thread after the sleep was canceled: its operation is canceled, or its timer.
    pub open spec fn cancel_state(self, s: StateView) -> StateView {
        match self.inner {
            SleepFutureInner::Real { completion: Some(id), .. } => s.cancel_completion(id),
            SleepFutureInner::Virtual { sleep } => s.timer_canceled(sleep.timer_id),
            _ => s,
        }
    }

    /// Whether the kernel holds the timeout of the sleep, where `kernel` is what a poll of
    /// that gave.
    pub open spec fn held_by_kernel(self, kernel: Poll<Result<(), Errno>>) -> bool {
        self.inner matches SleepFutureInner::Real { completion: Some(_), .. } && kernel is Pending
    }

    /// A poll of the sleep, to be woken through `waker`, where `kernel` is what a poll of
    /// its timeout in the kernel gave. A canceled sleep waits until the kernel let go of
    /// its timeout.
    pub open spec fn poll_step(
        self,
        s: StateView,
        waker: Waker,
        kernel: Poll<Result<(), Errno>>,
    ) -> SleepFutureStep {
        match self.inner {
            SleepFutureInner::Past { canceled, terminated: _ } => SleepFutureStep {
                future: SleepFuture {
                    inner: SleepFutureInner::Past { canceled, terminated: true },
                },
                state: s,
                poll: Poll::Ready(
                    if canceled {
                        Err(Errno { code: ECANCELED })
                    } else {
                        Ok(())
                    },
                ),
            },
            SleepFutureInner::Real { duration, completion, canceled, terminated } => {
                let poll = if !canceled {
                    timeout_poll(kernel)
                } else if completion is Some && kernel is Pending {
                    Poll::Pending
                } else {
                    Poll::Ready(Err(Errno { code: ECANCELED }))
                };
                SleepFutureStep {
                    future: SleepFuture {
                        inner: SleepFutureInner::Real {
                            duration,
                            completion,
                            canceled,
                            terminated: terminated || poll is Ready,
                        },
                    },
                    state: s,
                    poll,
                }
            },
            SleepFutureInner::Virtual { sleep } => {
                let r = sleep.poll_step(s, waker);
                SleepFutureStep {
                    future: SleepFuture { inner: SleepFutureInner::Virtual { sleep: r.sleep } },
                    state: r.state,
                    poll: r.poll,
                }
            },
        }
    }

    /// Notes the operation under which the timeout was submitted to the kernel.
    pub fn submitted(&mut self, id: u64)
        ensures
            *final(self) == old(self).with_operation(id),
    {
        if let SleepFutureInner::Real { duration, canceled, terminated, .. } = self.inner {
            self.inner = SleepFutureInner::Real {
                duration,
                completion: Some(id),
                canceled,
                terminated,
            };
        }
    }

    /// Cancels the sleep, so that it ends with an error: at its next poll, or, where the
    /// kernel has its timeout, which is canceled there, once the kernel let go of that.
    pub fn cancel(&mut self, state: &mut TaskState)
        requires
            old(state)@.valid(),
            in_flight_room(old(state)@, 1),
        ensures
            final(state)@.valid(),
            *final(self) == old(self).after_cancel(),
            final(state)@ == old(self).cancel_state(old(state)@),
    {
        match self.inner {
            SleepFutureInner::Past { terminated, .. } => {
                self.inner = SleepFutureInner::Past { canceled: true, terminated };
            },
            SleepFutureInner::Real { duration, completion, terminated, .. } => {
                if let Some(id) = completion {
                    state.cancel_completion(id);
                }
                self.inner = SleepFutureInner::Real {
                    duration,
                    completion,
                    canceled: true,
                    terminated,
                };
            },
            SleepFutureInner::Virtual { sleep } => {
                let mut sleep = sleep;
                sleep.cancel(state);
                self.inner = SleepFutureInner::Virtual { sleep };
            },
        }
    }

    /// Polls the sleep, to be woken through `waker`. For a sleep on the kernel's clock,
    /// `kernel` is what a poll of the timeout there gave.
    pub fn poll(&mut self, state: &mut TaskState, waker: Waker, kernel: Poll<Result<(), Errno>>) -> (p:
        Poll<Result<(), Errno>>)
        requires
            old(state)@.valid(),
            match old(self).inner {
                SleepFutureInner::Real { canceled, .. } => canceled || kernel != Poll::Ready(
                    Ok::<(), Errno>(()),
                ),
                SleepFutureInner::Virtual { sleep } => {
                    &&& !sleep.completed
                    &&& !sleep.canceled ==> old(state)@.clock is Some
                    &&& old(state)@.clock matches Some(c) ==> c.next_timer_id < u64::MAX
                },
                SleepFutureInner::Past { .. } => true,
            },
        ensures
            final(state)@.valid(),
            (SleepFutureStep { future: *final(self), state: final(state)@, poll: p })
                == old(self).poll_step(old(state)@, waker, kernel),
    {
        match self.inner {
            SleepFutureInner::Past { canceled, .. } => {
                self.inner = SleepFutureInner::Past { canceled, terminated: true };
                if canceled {
                    Poll::Ready(Err(Errno { code: ECANCELED }))
                } else {
                    Poll::Ready(Ok(()))
                }
            },
            SleepFutureInner::Real { duration, completion, canceled, terminated } => {
                let p = if !canceled {
                    map_timeout_poll(kernel)
                } else if completion.is_some() && matches!(kernel, Poll::Pending) {
                    Poll::Pending
                } else {
                    Poll::Ready(Err(Errno { code: ECANCELED }))
                };
                let over = matches!(p, Poll::Ready(_));
                self.inner = SleepFutureInner::Real {
                    duration,
                    completion,
                    canceled,
                    terminated: terminated || over,
                };
                p
            },
            SleepFutureInner::Virtual { sleep } => {
                let mut sleep = sleep;
                let p = sleep.poll(state, waker);
                self.inner = SleepFutureInner::Virtual { sleep };
                p
            },
        }
    }

    /// Whether the sleep is over.
    pub fn is_terminated(&self) -> (b: bool)
        ensures
            b == self.over(),
    {
        match self.inner {
            SleepFutureInner::Past { terminated, .. } => terminated,
            SleepFutureInner::Real { terminated, .. } => terminated,
            SleepFutureInner::Virtual { sleep } => sleep.is_terminated(),
        }
    }
}

/// What a race of a future and a timer gives, in one poll of both.
pub open spec fn raced<T>(inner: Poll<T>, timer: Poll<Result<(), Errno>>) -> Poll<
    Result<T, TimeoutError>,
> {
    match (inner, timer) {
        (Poll::Ready(value), _) => Poll::Ready(Ok(value)),
        (Poll::Pending, Poll::Ready(Ok(_))) => Poll::Ready(Err(TimeoutError::Timeout)),
        (Poll::Pending, Poll::Ready(Err(_))) => Poll::Ready(Err(TimeoutError::Canceled)),
        (Poll::Pending, Poll::Pending) => Poll::Pending,
    }
}

/// What a future that is raced against a timer gives, in one poll of both: the future is
/// polled first, and if it is ready the timer does not matter.
pub fn timeout_at<T>(inner: Poll<T>, timer: Poll<Result<(), Errno>>) -> (p: Poll<
    Result<T, TimeoutError>,
>)
    ensures
        p == raced(inner, timer),
{
    match inner {
        Poll::Ready(value) => Poll::Ready(Ok(value)),
        Poll::Pending => match timer {
            Poll::Ready(Ok(_)) => Poll::Ready(Err(TimeoutError::Timeout)),
            Poll::Ready(Err(_)) => Poll::Ready(Err(TimeoutError::Canceled)),
            Poll::Pending => Poll::Pending,
        },
    }
}

/// What a poll of a future with a warning gives.
#[derive(Debug, PartialEq, Eq)]
pub struct WarningStep<T> {
    /// What the future gave.
    pub poll: Poll<T>,
    /// Whether the warning is to be called now.
    pub warn: bool,
}

/// Whether a warning is called in a poll: `warned` says whether it was before.
pub open spec fn warns<T>(warned: bool, future: Poll<T>, expired: bool) -> bool {
    future is Pending && expired && !warned
}

/// A future that is polled to its end whatever a timer does: `future` is what the poll of
/// the future gave, and `expired` whether the timer expired. The warning is called once,
/// when the timer expires while the future goes on.
pub fn with_timeout_warning<T>(warned: &mut bool, future: Poll<T>, expired: bool) -> (step:
    WarningStep<T>)
    ensures
        step.poll == future,
        step.warn == warns(*old(warned), future, expired),
        *final(warned) == (*old(warned) || step.warn),
{
    let warn = matches!(future, Poll::Pending) && expired && !*warned;
    if warn {
        *warned = true;
    }
    WarningStep { poll: future, warn }
}

/// What one poll of a future gave, if it is over.
pub fn poll_once<T>(poll: Poll<T>) -> (r: Option<T>)
    ensures
        r == (match poll {
            Poll::Ready(value) => Some(value),
            Poll::Pending => None,
        }),
{
    match poll {
        Poll::Ready(value) => Some(value),
        Poll::Pending => None,
    }
}

/// A virtual sleep never ends before the clock reached its deadline, and never at its
/// first poll, unless it was canceled.
pub proof fn law_sleep_ends_at_its_deadline(f: VirtualSleepFuture, s: StateView, waker: Waker)
    requires
        s.clock is Some,
        !f.canceled,
    ensures
        f.poll_step(s, waker).poll is Ready == (s.clock->0.current@ >= f.deadline@
            && f.yielded_once),
        f.poll_step(s, waker).poll matches Poll::Ready(r) ==> r is Ok,
{
}

/// A virtual sleep that a poll left pending before its deadline has a timer that wakes
/// the task which polled last, at that deadline.
pub proof fn law_pending_sleep_has_a_timer(f: VirtualSleepFuture, s: StateView, waker: Waker)
    requires
        s.valid(),
        s.clock is Some,
        !f.canceled,
        s.clock->0.current@ < f.deadline@,
        s.clock->0.next_timer_id < u64::MAX,
        f.armed(waker) ==> s.clock->0.timers.contains(
            VirtualTimer { id: f.timer_id->0, deadline: f.deadline, waker },
        ),
    ensures
        ({
            let r = f.poll_step(s, waker);
            &&& r.poll is Pending
            &&& r.sleep.timer_id is Some
            &&& r.state.clock->0.timers.contains(
                VirtualTimer {
                    id: r.sleep.timer_id->0,
                    deadline: f.deadline,
                    waker,
                },
            )
        }),
{
    if !f.armed(waker) {
        let c = s.timer_canceled(f.timer_id).clock->0;
        let n = c.register(f.deadline, waker);
        let k = c.timers.filter(crate::virtual_clock::due(f.deadline@)).len() as int;
        assert(n.timers[k] == c.new_timer(f.deadline, waker));
    }
}

/// A second poll by the same task before the deadline keeps the timer.
pub proof fn law_second_poll_keeps_the_timer(f: VirtualSleepFuture, s: StateView, waker: Waker)
    requires
        s.clock is Some,
        !f.canceled,
        s.clock->0.current@ < f.deadline@,
    ensures
        ({
            let once = f.poll_step(s, waker);
            let twice = once.sleep.poll_step(once.state, waker);
            twice.sleep == once.sleep && twice.state == once.state
        }),
{
}

/// The sleep and the thread after polls through these wakers, one after another.
pub open spec fn polled_all(f: VirtualSleepFuture, s: StateView, wakers: Seq<Waker>) -> SleepStep
    decreases wakers.len(),
{
    if wakers.len() == 0 {
        SleepStep { sleep: f, state: s, poll: Poll::Pending }
    } else {
        let before = polled_all(f, s, wakers.drop_last());
        before.sleep.poll_step(before.state, wakers.last())
    }
}

/// However often a virtual sleep is polled before its deadline, and through whatever
/// wakers, it stays pending and has exactly one timer, which wakes what polled last.
pub proof fn law_polls_leave_one_timer(f: VirtualSleepFuture, s: StateView, wakers: Seq<Waker>)
    requires
        s.clock is Some,
        s.clock->0.valid(),
        s.clock->0.current@ < f.deadline@,
        s.clock->0.next_timer_id + wakers.len() <= u64::MAX,
        f.timer_id is None,
        !f.canceled,
        wakers.len() > 0,
    ensures
        ({
            let r = polled_all(f, s, wakers);
            &&& r.poll is Pending
            &&& r.state.clock is Some
            &&& r.state.clock->0.valid()
            &&& r.state.clock->0.current == s.clock->0.current
            &&& r.state.clock->0.timers.len() == s.clock->0.timers.len() + 1
            &&& r.sleep.armed(wakers.last())
            &&& !r.sleep.canceled
            &&& r.sleep.deadline == f.deadline
            &&& r.state.clock->0.next_timer_id <= s.clock->0.next_timer_id + wakers.len()
            &&& r.state.clock->0.timers.contains(
                VirtualTimer {
                    id: r.sleep.timer_id->0,
                    deadline: f.deadline,
                    waker: wakers.last(),
                },
            )
        }),
    decreases wakers.len(),
{
    let waker = wakers.last();
    let front = wakers.drop_last();
    let b = polled_all(f, s, front);
    if front.len() == 0 {
        assert(b == (SleepStep { sleep: f, state: s, poll: Poll::<Result<(), Errno>>::Pending }));
        law_registration_adds_one_timer(s.clock->0, f.deadline, waker);
    } else {
        law_polls_leave_one_timer(f, s, front);
        if !b.sleep.armed(waker) {
            let c = b.state.clock->0;
            let t = VirtualTimer {
                id: b.sleep.timer_id->0,
                deadline: f.deadline,
                waker: front.last(),
            };
            let k = choose|k: int| 0 <= k < c.timers.len() && c.timers[k] == t;
            lemma_rearm(c, k, waker);
        }
    }
}

/// A virtual sleep that a poll before its deadline left pending is over at the next poll
/// once the clock reached the deadline.
pub proof fn law_pending_poll_is_the_one_yield(
    f: VirtualSleepFuture,
    s: StateView,
    waker: Waker,
    later: StateView,
    next_waker: Waker,
)
    requires
        s.clock is Some,
        !f.canceled,
        f.poll_step(s, waker).poll is Pending,
        later.clock is Some,
        later.clock->0.current@ >= f.deadline@,
    ensures
        f.poll_step(s, waker).sleep.poll_step(later, next_waker).poll == Poll::Ready(
            Ok::<(), Errno>(()),
        ),
{
}

/// A sleep that was canceled before it was over ends with an error, never well: whatever
/// clock it is on, whatever its timeout in the kernel came to, and whether that was
/// submitted before the sleep was canceled, after that, or not at all. It ends at the first
/// poll at which the kernel does not hold its timeout.
pub proof fn law_canceled_sleep_ends_with_an_error(
    f: SleepFuture,
    id: u64,
    s: StateView,
    waker: Waker,
    kernel: Poll<Result<(), Errno>>,
)
    requires
        !f.over(),
    ensures
        ({
            let canceled = f.after_cancel();
            let r = canceled.poll_step(s, waker, kernel);
            if canceled.held_by_kernel(kernel) {
                r.poll is Pending && r.future == canceled
            } else {
                r.poll == Poll::Ready(Err::<(), Errno>(Errno { code: ECANCELED }))
                    && r.future.over()
            }
        }),
        ({
            let canceled = f.after_cancel().with_operation(id);
            let r = canceled.poll_step(s, waker, kernel);
            if canceled.held_by_kernel(kernel) {
                r.poll is Pending && r.future == canceled
            } else {
                r.poll == Poll::Ready(Err::<(), Errno>(Errno { code: ECANCELED }))
                    && r.future.over()
            }
        }),
{
}

/// A canceled sleep reports the cancellation at its next poll, and then is over.
pub proof fn law_canceled_sleep_reports_it(f: VirtualSleepFuture, s: StateView, waker: Waker)
    requires
        f.canceled,
    ensures
        f.poll_step(s, waker).poll == Poll::Ready(Err::<(), Errno>(Errno { code: ECANCELED })),
        f.poll_step(s, waker).sleep.completed,
{
}

} // verus!
