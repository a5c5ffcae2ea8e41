//! What is decided from one result to the next.

use vstd::prelude::*;

use crate::async_event::{round_error, DeadlineRound, DeadlineStep, EventView};
use crate::backend::epoll::wait_nanos;
use crate::backend::io_uring::submitted_by;
use crate::echo::{after, EchoAction, EchoEvent};
use crate::epoll_future::{timer_result, EpollOwnedFdFuture, EpollUnitFuture, EpollUsizeFuture};
use crate::errno::{CanceledError, Errno, TimeoutError};
use crate::iocp_future::{blocks, IocpOwnedFdFuture, IocpUnitFuture, IocpUsizeFuture};
use crate::laws::io::asked_to_end;
use crate::laws::scheduling::scheduled_as;
use crate::model::{IoScopeView, StateView, TaskReadyState, TaskView, WaitPoll, Waker};
use crate::operations::{
    clock_enabled, drain_step, drained, gathered_canceled, identity_of, scope_io_canceled,
    scope_waits_canceled, submit_poll, DrainStep, ErrnoOrFuture, IsIoPoll, SetYieldCpuFuture,
    SubmitPoll, TaskHandle, TaskHandleError, YieldFutureState, YieldPoll,
};
use crate::requests::IoRequest;
use crate::ring_future::RingFuture;
use crate::runtime::{events_wanted, has_rings, run_result, BusyPoll, EventLoop};
use crate::sleep::{raced, warns, SleepFuture, SleepFutureInner};
use crate::ssl::BufferView;
use crate::stats::{EnterReport, EnterStats};
use crate::task_future::Poll;
use crate::text::decimal;
use crate::time::{Duration, Instant};
use crate::version::release_version;

verus! {

/// A connection writes back exactly as many bytes as it read, and reads again once they are
/// written; it ends on any error and at the end of the stream, and is always shut down and
/// closed, in this order.
pub proof fn law_echo_sends_back_what_it_read(n: usize, e: Errno, any: Result<(), Errno>)
    ensures
        after(EchoEvent::Connected) == EchoAction::Read,
        n > 0 ==> after(EchoEvent::Read(Ok(n))) == EchoAction::Write(n),
        after(EchoEvent::Read(Ok(0))) == EchoAction::ShutDown,
        after(EchoEvent::Read(Err(e))) == EchoAction::ShutDown,
        after(EchoEvent::Written(Ok(()))) == EchoAction::Read,
        after(EchoEvent::Written(Err(e))) == EchoAction::ShutDown,
        after(EchoEvent::ShutDown(any)) == EchoAction::Close,
        after(EchoEvent::Closed(any)) == EchoAction::Done,
{
}

/// A call that the kernel made submitted what it says. One that was interrupted (4), or had no
/// room (11, 16), submitted nothing and is no failure; any other error is one.
pub proof fn law_interrupted_calls_submit_nothing(n: usize, code: i32)
    ensures
        submitted_by(Ok(n)) == Some(n),
        code == 4 || code == 11 || code == 16 ==> submitted_by(Err(code)) == Some(0usize),
        code != 4 && code != 11 && code != 16 ==> submitted_by(Err(code)) is None,
{
}

/// Where nothing is wanted there is no wait for events, else one of ten milliseconds.
pub proof fn law_waits_for_events_are_short(want: usize)
    ensures
        want == 0 ==> wait_nanos(want) == 0,
        want > 0 ==> wait_nanos(want) == 10 * 1000 * 1000,
{
}

/// Only `EAGAIN` (11) says that an operation would block; and a timer that can be read has
/// expired (`ETIME`, 62).
pub proof fn law_only_eagain_blocks<T>(value: T, e: Errno, n: usize)
    ensures
        !blocks(Ok::<T, Errno>(value)),
        blocks(Err::<T, Errno>(e)) == (e.code == 11),
        timer_result(Ok(n)) == Err::<(), Errno>(Errno { code: 62 }),
        timer_result(Err(e)) == Err::<(), Errno>(e),
{
}

/// A loop starts without a cool-down unless it is to poll for some time: then one of that many
/// whole microseconds, in ticks, from now on. It has polled nothing and calls nobody, and its
/// idle callback is worth a call.
pub proof fn law_loop_starts_cooling_down(
    l: EventLoop,
    busy_poll: BusyPoll,
    now: u64,
    ticks_per_us: u64,
)
    requires
        l.started(busy_poll, now, ticks_per_us),
        busy_poll matches BusyPoll::Until(d) ==> now + (d@ / 1000) * ticks_per_us <= u64::MAX,
    ensures
        l.busy_poll == busy_poll,
        busy_poll matches BusyPoll::Until(d) ==> {
            &&& l.cool_down_time - now == (d@ / 1000) * ticks_per_us
            &&& l.poll_duration_ticks is Some
            &&& l.poll_duration_ticks->0 == l.cool_down_time - now
        },
        !(busy_poll is Until) ==> l.cool_down_time == 0 && l.poll_duration_ticks is None,
        l.idle_advance_active,
        !l.polled_any,
        l.calling is None,
{
}

/// A driver waits for an event only where nobody polls and no task is ready.
pub proof fn law_driver_waits_only_when_idle(s: StateView, busy_poll: bool)
    ensures
        busy_poll ==> events_wanted(s, busy_poll) == 0,
        s.fill.len() > 0 ==> events_wanted(s, busy_poll) == 0,
        s.ready_io.len() > 0 ==> events_wanted(s, busy_poll) == 0,
        s.ready_cpu.len() > 0 ==> events_wanted(s, busy_poll) == 0,
        !busy_poll && s.fill.len() == 0 && s.ready_io.len() == 0 && s.ready_cpu.len() == 0
            ==> events_wanted(s, busy_poll) == 1,
{
}

/// A run gives what its main task returned, unless the loop was shut down; a panic in any
/// case, and nothing where the main task is not over.
pub proof fn law_run_gives_the_main_result<T, E>(keep_running: bool, value: T, panic: E)
    ensures
        run_result(true, Some(Ok::<T, E>(value))) == Some(Ok::<T, E>(value)),
        run_result(false, Some(Ok::<T, E>(value))) is None,
        run_result(keep_running, Some(Err::<T, E>(panic))) == Some(Err::<T, E>(panic)),
        run_result(keep_running, None::<Result<T, E>>) is None,
{
}

/// The rings need a kernel that is not older than 5.15; what an older kernel has, a newer one
/// has.
pub proof fn law_newer_kernels_have_rings(a: (u32, u32), b: (u32, u32))
    ensures
        has_rings(a) == (a.0 * 0x1_0000_0000 + a.1 >= 5 * 0x1_0000_0000 + 15),
        has_rings(a) && (b.0 > a.0 || b.0 == a.0 && b.1 >= a.1) ==> has_rings(b),
{
}

/// A kernel's version is read from its release; where there is none the oldest one that has
/// the rings is taken, so that no kernel is refused for its name.
pub proof fn law_unreadable_release_is_accepted(major: u32, minor: u32, rest: Seq<char>)
    requires
        rest.len() > 0 ==> !('0' <= rest[0] <= '9'),
    ensures
        release_version(decimal(major as nat) + seq!['.'] + decimal(minor as nat) + rest) == (
            major,
            minor,
        ),
        (rest.len() > 0 ==> rest[0] != '.') ==> release_version(rest) == (5u32, 15u32) && has_rings(
            release_version(rest),
        ),
{
    crate::laws::values::law_version_is_its_first_two_numbers(major, minor, rest);
    if rest.len() > 0 ==> rest[0] != '.' {
        crate::laws::values::law_version_needs_two_numbers(major, rest);
    }
}

/// A yield of the running task, which is neither aborted nor over: the first poll is pending
/// and leaves the task ready, with I/O priority in the list that its own priority calls for,
/// with CPU priority behind the others; the second one ends the yield and changes nothing. An
/// aborted task unwinds. Where something else drives the future, the first poll wakes that.
pub proof fn law_yield_pauses_once(f: SetYieldCpuFuture, s: StateView, key: u64, driver: u64)
    requires
        s.current_task == Some(key),
        s.tasks.contains_key(key),
    ensures
        ({
            let r = f.poll_step(s, Waker::Task(key));
            let aborted = s.tasks[key].ready == TaskReadyState::Aborted;
            let running = s.tasks[key].ready == TaskReadyState::Running;
            &&& aborted ==> r.poll == YieldPoll::Aborted && r.future == f && r.state == s
            &&& running && f.state == YieldFutureState::CreatedIo ==> {
                &&& r.poll == YieldPoll::Pending
                &&& r.future.state == YieldFutureState::Polled
                &&& scheduled_as(s, r.state, key, TaskReadyState::Ready)
            }
            &&& running && f.state == YieldFutureState::CreatedCpu ==> {
                &&& r.poll == YieldPoll::Pending
                &&& r.future.state == YieldFutureState::Polled
                &&& r.state.tasks[key] == (TaskView {
                    ready: TaskReadyState::Ready,
                    ..s.tasks[key]
                })
                &&& r.state.ready_cpu == s.ready_cpu.push(key)
                &&& r.state.ready_io == s.ready_io && r.state.fill == s.fill
            }
            &&& !aborted && f.state == YieldFutureState::Polled ==> {
                &&& r.poll == YieldPoll::Ready
                &&& r.future.state == YieldFutureState::Complete
                &&& r.state == s
            }
        }),
        ({
            let r = f.poll_step(s, Waker::Foreign(driver));
            let first = f.state == YieldFutureState::CreatedIo || f.state
                == YieldFutureState::CreatedCpu;
            &&& s.tasks[key].ready != TaskReadyState::Aborted && first ==> r.state.pending_wakes
                == s.pending_wakes.push(driver)
            &&& !first ==> r.state.pending_wakes == s.pending_wakes
        }),
{
    crate::laws::scheduling::law_wake_schedules_whoever_can_run(s, key);
    let t = s.schedule_io(key);
    if s.tasks[key].ready == TaskReadyState::Running {
        assert(t.wake(Waker::Task(key)) == t);
    }
}

/// The running task is told apart by the index of its thread and its own; where none runs both
/// are zero.
pub proof fn law_identity_is_the_running_tasks(s: StateView)
    ensures
        s.current_task is Some && s.tasks.contains_key(s.current_task->0) ==> {
            &&& identity_of(s).thread_index == s.trace.thread_idx
            &&& identity_of(s).task_index == s.tasks[s.current_task->0].task_index
        },
        s.current_task is None || !s.tasks.contains_key(s.current_task->0) ==> {
            &&& identity_of(s).thread_index == 0
            &&& identity_of(s).task_index == 0
        },
{
}

/// A handle gives what its task returned, or that it panicked, once the wait for it is over; a
/// canceled wait gives that, and one that is pending gives nothing.
pub proof fn law_handle_gives_the_tasks_result<T, E>(
    value: T,
    panic: E,
    any: Option<Result<T, E>>,
)
    ensures
        TaskHandle::given(WaitPoll::Ready, Some(Ok::<T, E>(value))) == Poll::Ready(
            Ok::<T, TaskHandleError<E>>(value),
        ),
        TaskHandle::given(WaitPoll::Ready, Some(Err::<T, E>(panic))) == Poll::Ready(
            Err::<T, TaskHandleError<E>>(TaskHandleError::Panic(panic)),
        ),
        TaskHandle::given(WaitPoll::Canceled, any) == Poll::Ready(
            Err::<T, TaskHandleError<E>>(TaskHandleError::Canceled),
        ),
        TaskHandle::given(WaitPoll::Pending, any) is Pending,
{
}

/// What stands in for a future that there is none of gives its error; what holds one gives what
/// that gives.
pub proof fn law_error_or_future_gives_what_it_holds<F, T>(
    f: ErrnoOrFuture<F>,
    inner: Poll<Result<T, Errno>>,
)
    ensures
        f matches ErrnoOrFuture::Error { errno } ==> f.given(inner) == Poll::Ready(
            Err::<T, Errno>(errno),
        ),
        f is Future ==> f.given(inner) == inner,
{
}

/// An operation is for the polled ring where its request is; errors, and operations that wait
/// for readiness, never are.
pub proof fn law_requests_choose_their_ring<F: IsIoPoll>(
    f: ErrnoOrFuture<F>,
    request: IoRequest,
    ring: RingFuture,
    a: EpollUnitFuture,
    b: EpollUsizeFuture,
    c: EpollOwnedFdFuture,
    x: IocpUnitFuture,
    y: IocpUsizeFuture,
    z: IocpOwnedFdFuture,
)
    ensures
        f is Error ==> !f.io_poll(),
        f matches ErrnoOrFuture::Future { fut } ==> f.io_poll() == fut.io_poll(),
        request.io_poll() == request.polled,
        ring.io_poll() == ring.request.polled,
        !a.io_poll() && !b.io_poll() && !c.io_poll(),
        !x.io_poll() && !y.io_poll() && !z.io_poll(),
{
}

/// The kernel is entered for an operation exactly at the first poll that leaves it pending, for
/// the ring of the operation.
pub proof fn law_operation_is_submitted_at_once<T>(polled: bool, iopoll: bool, value: T)
    ensures
        submit_poll(polled, iopoll, Poll::Ready(value)) == SubmitPoll::Ready(value),
        submit_poll(false, iopoll, Poll::<T>::Pending) == (SubmitPoll::<T>::Submit { iopoll }),
        submit_poll(true, iopoll, Poll::<T>::Pending) == SubmitPoll::<T>::Pending,
{
}

/// After the I/O of a scope was canceled the scope is open and holds no operation, and keeps
/// its waits; after its waits were canceled it holds none of them, and keeps its operations.
/// Other scopes stay as they are.
pub proof fn law_canceled_scope_stays_open(s: StateView, key: u64, other: u64)
    requires
        s.current_task == Some(key),
        s.scopes.contains_key(key),
        other != key,
    ensures
        ({
            let io = scope_io_canceled(s);
            let waits = scope_waits_canceled(s);
            &&& io.scopes.contains_key(key)
            &&& io.scopes[key].completions.len() == 0
            &&& io.scopes[key].waits == s.scopes[key].waits
            &&& waits.scopes.contains_key(key)
            &&& waits.scopes[key].waits.len() == 0
            &&& waits.scopes[key].completions == s.scopes[key].completions
            &&& io.scopes.contains_key(other) == s.scopes.contains_key(other)
            &&& io.scopes[other] == s.scopes[other]
            &&& waits.scopes.contains_key(other) == s.scopes.contains_key(other)
            &&& waits.scopes[other] == s.scopes[other]
            &&& io.waits == s.waits
            &&& waits.completions == s.completions
        }),
{
    let scope = s.scopes[key];
    lemma_cancel_keeps_scopes(
        s.with_scope(key, Some(IoScopeView { completions: Seq::empty(), ..scope })),
        scope.completions,
    );
    lemma_cancel_waits_keeps_scopes(
        s.with_scope(key, Some(IoScopeView { waits: Seq::empty(), ..scope })),
        scope.waits,
    );
}

proof fn lemma_cancel_keeps_scopes(s: StateView, ids: Seq<u64>)
    ensures
        s.cancel_and_return(ids).scopes == s.scopes,
        s.cancel_and_return(ids).waits == s.waits,
    decreases ids.len(),
{
    if ids.len() > 0 {
        lemma_cancel_keeps_scopes(s, ids.drop_last());
    }
}

proof fn lemma_cancel_waits_keeps_scopes(s: StateView, ids: Seq<u64>)
    ensures
        s.cancel_waits(ids).scopes == s.scopes,
        s.cancel_waits(ids).completions == s.completions,
    decreases ids.len(),
{
    if ids.len() > 0 {
        lemma_cancel_waits_keeps_scopes(s, ids.drop_last());
    }
}

/// A scope that closes is left with the operations that have no result yet, and each of them
/// has ended or is asked to when it is canceled.
pub proof fn law_closed_scope_waits_for_the_rest(s: StateView, gathered: IoScopeView, i: int)
    ensures
        ({
            let r = gathered_canceled(s, gathered);
            0 <= i < r.1.len() ==> {
                &&& asked_to_end(r.0, r.1[i])
                &&& gathered.completions.contains(r.1[i])
            }
        }),
{
    let r = gathered_canceled(s, gathered);
    let kept = s.retain_incomplete(gathered.completions, 0);
    crate::laws::io::law_retained_are_the_unfinished(s, gathered.completions, 0);
    crate::laws::io::law_scope_cancel_spares_none(kept.0, kept.1);
    lemma_cancel_waits_keeps_scopes(kept.0.cancel_completions(kept.1), gathered.waits);
    if 0 <= i < r.1.len() {
        assert(asked_to_end(kept.0.cancel_completions(kept.1), kept.1[i]));
    }
}

/// A thread that gets a virtual clock starts it at the time of the system, unless it has one,
/// which it keeps as it is; one whose clock is disabled has none. Nothing else changes.
pub proof fn law_clock_is_enabled_once(s: StateView, system_now: Instant)
    ensures
        clock_enabled(s, false, system_now) == (StateView { clock: None, ..s }),
        s.clock is Some ==> clock_enabled(s, true, system_now) == s,
        s.clock is None ==> {
            let t = clock_enabled(s, true, system_now);
            &&& t.clock is Some
            &&& t.clock->0.current == system_now
            &&& t.clock->0.epoch == system_now
            &&& t.clock->0.timers.len() == 0
            &&& t == (StateView { clock: t.clock, ..s })
        },
{
}

/// A future that is ready wins its race, whatever the timer did; one that is pending loses to a
/// timer that expired, is canceled with one that was canceled, and is pending with one that
/// runs.
pub proof fn law_ready_future_wins_its_race<T>(value: T, timer: Poll<Result<(), Errno>>, e: Errno)
    ensures
        raced(Poll::Ready(value), timer) == Poll::Ready(Ok::<T, TimeoutError>(value)),
        raced(Poll::<T>::Pending, Poll::Ready(Ok(()))) == Poll::Ready(
            Err::<T, TimeoutError>(TimeoutError::Timeout),
        ),
        raced(Poll::<T>::Pending, Poll::Ready(Err(e))) == Poll::Ready(
            Err::<T, TimeoutError>(TimeoutError::Canceled),
        ),
        raced(Poll::<T>::Pending, Poll::Pending) is Pending,
{
}

/// A warning is called in a poll that leaves its future pending after the timer expired, unless
/// it was called before.
pub proof fn law_warning_is_called_once<T>(future: Poll<T>, expired: bool, warned: bool)
    ensures
        warns(warned, future, expired) ==> future is Pending && expired && !warned,
        future is Pending && expired && !warned ==> warns(warned, future, expired),
        !warns(true, future, expired),
{
}

/// A sleep is on the virtual clock exactly where the thread has one, and ends there after the
/// duration, or at the instant, that was asked for. In the kernel it lasts as long. It is over
/// at once exactly where that instant has passed. It begins neither canceled nor over.
pub proof fn law_sleep_lasts_as_asked(
    f: SleepFuture,
    s: StateView,
    duration: Duration,
    deadline: Instant,
    system_now: Instant,
)
    ensures
        f.sleeps_for(s, duration, system_now) ==> {
            &&& !f.over()
            &&& f.inner is Virtual == s.clock is Some
            &&& f.inner is Real == s.clock is None
            &&& f.inner matches SleepFutureInner::Virtual { sleep } ==> {
                &&& crate::time::is_instant(s.clock->0.current@ + duration@) ==> sleep.deadline@
                    == s.clock->0.current@ + duration@
                &&& sleep.timer_id is None && !sleep.canceled && !sleep.yielded_once
            }
            &&& f.inner matches SleepFutureInner::Real { duration: d, completion, canceled, .. }
                ==> d == duration && completion is None && !canceled
        },
        f.sleeps_until(s, deadline, system_now) ==> {
            let now = match s.clock {
                Some(c) => c.current@,
                None => system_now@,
            };
            &&& !f.over()
            &&& f.inner is Past == (deadline@ < now)
            &&& f.inner is Virtual == (deadline@ >= now && s.clock is Some)
            &&& f.inner is Real == (deadline@ >= now && s.clock is None)
            &&& f.inner matches SleepFutureInner::Virtual { sleep } ==> sleep.deadline == deadline
                && sleep.timer_id is None && !sleep.canceled && !sleep.yielded_once
            &&& f.inner matches SleepFutureInner::Real { duration: d, completion, canceled, .. }
                ==> system_now@ + d@ == deadline@ && completion is None && !canceled
            &&& f.inner matches SleepFutureInner::Past { canceled, .. } ==> !canceled
        },
{
}

/// What goes into the buffers comes after what is there: bytes for the engine behind those that
/// it can read, those that it wrote behind those that are to be sent. A read that gave nothing
/// is the end of the stream. What was sent leaves the buffer, all of it and no other; where the
/// sending failed, it stays.
pub proof fn law_buffers_keep_order(v: BufferView, data: Seq<u8>, e: Errno)
    requires
        v.outgoing.len() <= usize::MAX,
    ensures
        ({
            let f = v.filled(data);
            let w = v.written(data);
            &&& f.incoming == v.incoming + data
            &&& f.eof == (v.eof || data.len() == 0)
            &&& f.outgoing == v.outgoing
            &&& w.outgoing == v.outgoing + data
            &&& w.incoming == v.incoming
            &&& w.eof == v.eof
            &&& v.flushed(Ok(())).0.outgoing.len() == 0
            &&& v.flushed(Ok(())).0.incoming == v.incoming
            &&& v.flushed(Ok(())).0.eof == v.eof
            &&& v.flushed(Ok(())).1 matches Ok(n) && n == v.outgoing.len()
            &&& v.flushed(Err(e)) == (v, Err::<usize, Errno>(e))
        }),
{
    if data.len() == 0 {
        assert(v.incoming + data =~= v.incoming);
    }
}

/// The figures of calls into the kernel are in nanoseconds: a thousand times the ticks, by the
/// ticks of a microsecond; there are none before the first call. What is shown as average is
/// the total times the number of calls.
pub proof fn law_figures_are_in_nanoseconds(
    s: EnterStats,
    ticks_per_us: u64,
    r: Option<EnterReport>,
)
    requires
        ticks_per_us > 0,
        s.reports(ticks_per_us, r),
    ensures
        s.count == 0 ==> r is None,
        s.count > 0 ==> {
            &&& r is Some
            &&& r->0.count == s.count
            &&& r->0.sum_ns * ticks_per_us <= 1000 * s.sum < (r->0.sum_ns + 1) * ticks_per_us
            &&& r->0.min_ns * ticks_per_us <= 1000 * s.min < (r->0.min_ns + 1) * ticks_per_us
            &&& r->0.max_ns * ticks_per_us <= 1000 * s.max < (r->0.max_ns + 1) * ticks_per_us
            &&& r->0.avg_ns == r->0.sum_ns * s.count
        },
{
    if s.count > 0 {
        lemma_quotient(1000 * s.sum, ticks_per_us as int);
        lemma_quotient(1000 * s.min, ticks_per_us as int);
        lemma_quotient(1000 * s.max, ticks_per_us as int);
    }
}

proof fn lemma_quotient(a: int, d: int)
    requires
        a >= 0,
        d > 0,
    ensures
        a / d * d <= a < (a / d + 1) * d,
{
    assert(a / d * d <= a < (a / d + 1) * d) by (nonlinear_arith)
        requires
            a >= 0,
            d > 0,
    ;
}

/// A wait for an event with a deadline is over once the event is set, and times out when the
/// deadline is reached before; until then it lasts exactly as long as is left.
pub proof fn law_deadline_ends_a_wait(
    e: EventView,
    deadline: Instant,
    now: Instant,
    step: DeadlineStep,
)
    requires
        e.goes_on(deadline, now, step),
    ensures
        e.state ==> (step matches DeadlineStep::Done(Ok(_))),
        !e.state && deadline@ <= now@ ==> step == DeadlineStep::Done(
            Err::<(), TimeoutError>(TimeoutError::Timeout),
        ),
        !e.state && now@ < deadline@ ==> step is Wait && now@ + (step->Wait_0)@ == deadline@,
{
}

/// Of a wait with a deadline a round ends it only by a cancellation: of the wait, or of the
/// sleep (`ECANCELED`, 125). After an event, and after a sleep that ended in any other way, the
/// wait looks again.
pub proof fn law_only_cancellation_ends_a_round(c: CanceledError, e: Errno)
    ensures
        round_error(DeadlineRound::Waited(Err(c))) == Some(TimeoutError::Canceled),
        round_error(DeadlineRound::Waited(Ok(()))) is None,
        round_error(DeadlineRound::Slept(Ok(()))) is None,
        round_error(DeadlineRound::Slept(Err(e))) == (if e.code == 125 {
            Some(TimeoutError::Canceled)
        } else {
            None
        }),
{
}

/// A stream of results is accumulated value by value up to its first error, which the rest does
/// not change.
pub proof fn law_drain_stops_at_the_first_error<Acc, T, E>(
    start: Acc,
    items: Seq<Result<T, E>>,
    next: Result<T, E>,
    acc: spec_fn(Acc, T) -> Acc,
    a: Acc,
    value: T,
    e: E,
)
    ensures
        drain_step(Ok::<Acc, E>(a), Ok::<T, E>(value)) == DrainStep::<Acc, T, E>::Accumulate(
            a,
            value,
        ),
        drain_step(Ok::<Acc, E>(a), Err::<T, E>(e)) == DrainStep::<Acc, T, E>::Fail(e),
        drain_step(Err::<Acc, E>(e), next) == DrainStep::<Acc, T, E>::Keep(Err(e)),
        drained(Ok::<Acc, E>(start), items, acc) matches Ok(x) ==> match next {
            Ok(v) => drained(Ok::<Acc, E>(start), items.push(next), acc) == Ok::<Acc, E>(
                acc(x, v),
            ),
            Err(y) => drained(Ok::<Acc, E>(start), items.push(next), acc) == Err::<Acc, E>(y),
        },
        drained(Ok::<Acc, E>(start), items, acc) matches Err(y) ==> drained(
            Ok::<Acc, E>(start),
            items.push(next),
            acc,
        ) == Err::<Acc, E>(y),
{
    assert(items.push(next).drop_last() =~= items);
}

} // verus!
