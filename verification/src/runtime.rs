//! The event loop of a thread.
//!
//! The loop alternates between decisions, which are made here, and work that only the
//! embedding program can do: entering the kernel, polling futures, calling back. The
//! program hands each outcome to [`EventLoop::step`] as an event and performs the action
//! that it gets back.

use vstd::prelude::*;

use crate::model::StateView;
use crate::outside::{new_v4, nil};
use crate::task::clock::lemma_wake_all_keeps_clock;
use crate::task::{initial_state, TaskState};
use crate::time::{is_instant, Duration, Instant};
use crate::tracing::TraceView;
use crate::virtual_clock::{due, not_due, wakers_of};

verus! {

/// When to poll the kernel for completions instead of waiting for them.
#[derive(Clone, Copy, Debug, PartialEq, Eq, Structural)]
pub enum BusyPoll {
    /// Always wait.
    Never,
    /// Always poll.
    Always,
    /// Poll until no task was polled for this long.
    Until(Duration),
}

/// How a runtime is set up.
#[derive(Clone, Copy, Debug, PartialEq, Eq, Structural)]
pub struct Configuration {
    /// Whether a trace sink is installed.
    pub trace: bool,
    pub busy_poll: BusyPoll,
}

/// A runtime, bound to its thread.
pub struct Runtime {
    busy_poll: BusyPoll,
    server_pipe: rustix::fd::OwnedFd,
    client_pipe: rustix::fd::OwnedFd,
}

/// The end of a runtime's pipe over which requests are sent to it.
pub struct RuntimeHandle<'a> {
    pub client_pipe: &'a rustix::fd::OwnedFd,
}

/// The loop of one run, between its steps. Times are in timer ticks.
#[derive(Clone, Copy, Debug, PartialEq, Eq)]
pub struct EventLoop {
    pub busy_poll: BusyPoll,
    /// Until when to poll the kernel, with [`BusyPoll::Until`].
    pub cool_down_time: u64,
    /// How long to poll the kernel after each poll of a task.
    pub poll_duration_ticks: Option<u64>,
    /// Whether the idle callback is worth a call: it is not after it declined, until a
    /// task ran.
    pub idle_advance_active: bool,
    /// Whether a task was polled in this iteration.
    pub polled_any: bool,
    /// The idle callback that is being called.
    pub calling: Option<u64>,
}

/// What happened since the last step of the loop.
#[derive(Clone, Copy, Debug, PartialEq, Eq)]
pub enum LoopEvent {
    /// An iteration begins at `now`.
    Begin { now: u64 },
    /// The kernel was entered and its completions were taken in.
    IoDone,
    /// The task was polled, which ended at `now`.
    Polled { now: u64 },
    /// The idle callback returned.
    IdleReturned { advance: Option<Duration> },
}

/// What to do next.
#[derive(Clone, Copy, Debug, PartialEq, Eq)]
pub enum LoopAction {
    /// Enter the kernel, without waiting there if `busy_poll`; then report `IoDone`.
    Enter { busy_poll: bool },
    /// Poll the task `key`; then report `Polled`.
    Poll { key: u64 },
    /// Call the idle callback; then report `IdleReturned`.
    CallIdle { callback: u64, now: Instant, next_deadline: Option<Instant> },
    /// Begin the next iteration: report `Begin`.
    Again,
    /// The loop is over.
    Done,
}

/// A step of the loop: the loop, the thread and the action after it.
pub struct LoopStep {
    pub event_loop: EventLoop,
    pub state: StateView,
    pub action: LoopAction,
}

impl EventLoop {
    /// Whether to poll the kernel at `now`: as configured; and, under a virtual clock,
    /// also while a task is ready or the idle callback is worth a call, as neither would
    /// end a wait in the kernel.
    pub open spec fn polls(self, s: StateView, now: u64) -> bool {
        ||| self.busy_poll is Always
        ||| self.busy_poll is Until && now <= self.cool_down_time
        ||| s.clock is Some && (s.any_ready() || self.idle_advance_active
            && s.has_idle_advance())
    }

    /// The step at the begin of an iteration: the loop is over once no task is left or
    /// it was shut down.
    pub open spec fn begin_step(self, s: StateView, now: u64) -> LoopStep {
        LoopStep {
            event_loop: self,
            state: s,
            action: if s.task_count > 0 && s.keep_running {
                LoopAction::Enter { busy_poll: self.polls(s, now) }
            } else {
                LoopAction::Done
            },
        }
    }

    /// The step after a round of polls: with nothing ready, the idle callback is asked,
    /// where there is one worth a call.
    pub open spec fn idle_step(self, s: StateView) -> LoopStep {
        let l = EventLoop {
            idle_advance_active: self.idle_advance_active || self.polled_any,
            ..self
        };
        if !s.any_ready() && l.idle_advance_active && s.has_idle_advance() {
            let c = s.clock->0;
            LoopStep {
                event_loop: EventLoop { calling: c.idle_advance_fn, ..l },
                state: s.with_clock(Some(c.take_idle_advance())),
                action: LoopAction::CallIdle {
                    callback: c.idle_advance_fn->0,
                    now: c.current,
                    next_deadline: c.next_deadline(),
                },
            }
        } else {
            LoopStep { event_loop: l, state: s, action: LoopAction::Again }
        }
    }

    /// The step to the next ready task, or past the end of the round. Once the loop was
    /// shut down, what is left in the queues stays there.
    pub open spec fn poll_step(self, s: StateView) -> LoopStep {
        if !s.keep_running {
            LoopStep { event_loop: self, state: s, action: LoopAction::Again }
        } else {
            match s.next_ready() {
                Some(key) => LoopStep {
                    event_loop: self,
                    state: s.get_ready(),
                    action: LoopAction::Poll { key },
                },
                None => self.idle_step(s.get_ready()),
            }
        }
    }

    /// The loop after a task was polled.
    pub open spec fn polled(self, now: u64) -> EventLoop {
        EventLoop {
            polled_any: true,
            cool_down_time: match self.poll_duration_ticks {
                Some(d) => (now + d) as u64,
                None => self.cool_down_time,
            },
            ..self
        }
    }

    /// Whether the idle callback asked for the clock to move.
    pub open spec fn moves(advance: Option<Duration>) -> bool {
        advance matches Some(d) && d@ > 0
    }

    /// The thread after the idle callback returned, with the callback offered back.
    pub open spec fn called(self, s: StateView) -> StateView {
        s.idle_advance_restored(self.calling->0)
    }

    /// The loop after the idle callback returned: it is worth another call if it moved
    /// the clock, or if it was replaced during the call.
    pub open spec fn idle_returned(self, s: StateView, advance: Option<Duration>) -> EventLoop {
        EventLoop {
            idle_advance_active: EventLoop::moves(advance) || s.clock is Some
                && s.clock->0.idle_advance_dirty,
            calling: None,
            ..self
        }
    }

    /// Whether the loop can take `event` in: times do not overflow, a callback returns
    /// only while it is called, and the clock can hold where it moves.
    pub open spec fn accepts(self, s: StateView, event: LoopEvent) -> bool {
        match event {
            LoopEvent::Polled { now } => self.poll_duration_ticks matches Some(d) ==> now + d
                <= u64::MAX,
            LoopEvent::IdleReturned { advance } => {
                &&& self.calling is Some
                &&& EventLoop::moves(advance) && s.clock is Some ==> is_instant(
                    s.clock->0.target_nanos(advance->0),
                )
            },
            _ => true,
        }
    }

    /// Whether this is the loop that starts at `now`, on a timer with `ticks_per_us` ticks in
    /// a microsecond.
    pub open spec fn started(self, busy_poll: BusyPoll, now: u64, ticks_per_us: u64) -> bool {
        &&& self.busy_poll == busy_poll
        &&& match busy_poll {
            BusyPoll::Until(d) => {
                &&& self.poll_duration_ticks == Some(((d@ / 1000) * ticks_per_us) as u64)
                &&& self.cool_down_time == now + (d@ / 1000) * ticks_per_us
            },
            _ => self.poll_duration_ticks is None && self.cool_down_time == 0,
        }
        &&& self.idle_advance_active
        &&& !self.polled_any
        &&& self.calling is None
    }

    /// Starts a loop at `now`, on a timer with `ticks_per_us` ticks in a microsecond.
    pub fn start(busy_poll: BusyPoll, now: u64, ticks_per_us: u64) -> (l: EventLoop)
        requires
            busy_poll matches BusyPoll::Until(d) ==> now + (d@ / 1000) * ticks_per_us <= u64::MAX
                && d@ / 1000 <= u64::MAX,
        ensures
            l.started(busy_poll, now, ticks_per_us),
    {
        let (cool_down_time, poll_duration_ticks) = match busy_poll {
            BusyPoll::Until(duration) => {
                let micros: u64 = duration.as_micros() as u64;
                let ticks: u64 = micros * ticks_per_us;
                (now + ticks, Some(ticks))
            },
            _ => (0, None),
        };
        EventLoop {
            busy_poll,
            cool_down_time,
            poll_duration_ticks,
            idle_advance_active: true,
            polled_any: false,
            calling: None,
        }
    }

    /// Takes in what happened and decides what to do next.
    pub fn step(&mut self, state: &mut TaskState, event: LoopEvent) -> (action: LoopAction)
        requires
            old(state)@.valid(),
            old(self).accepts(old(state)@, event),
        ensures
            final(state)@.valid(),
            ({
                let l = *old(self);
                let s = old(state)@;
                let r = LoopStep { event_loop: *final(self), state: final(state)@, action };
                match event {
                    LoopEvent::Begin { now } => r == l.begin_step(s, now),
                    LoopEvent::IoDone => r == (EventLoop { polled_any: false, ..l }).poll_step(
                        s.prepare_cohort(),
                    ),
                    LoopEvent::Polled { now } => r == l.polled(now).poll_step(s),
                    LoopEvent::IdleReturned { advance } => {
                        let c = l.called(s);
                        &&& action == LoopAction::Again
                        &&& *final(self) == l.idle_returned(s, advance)
                        &&& if EventLoop::moves(advance) && s.clock is Some {
                            &&& final(state)@.clock is Some
                            &&& final(state)@.clock->0.current@ == s.clock->0.target_nanos(
                                advance->0,
                            )
                            &&& final(state)@ == c.clock_advanced_to(
                                final(state)@.clock->0.current,
                            )
                        } else {
                            final(state)@ == c
                        }
                    },
                }
            }),
    {
        match event {
            LoopEvent::Begin { now } => self.begin(state, now),
            LoopEvent::IoDone => {
                state.prepare_cohort();
                self.polled_any = false;
                self.next(state)
            },
            LoopEvent::Polled { now } => {
                self.polled_any = true;
                if let Some(d) = self.poll_duration_ticks {
                    self.cool_down_time = now + d;
                }
                self.next(state)
            },
            LoopEvent::IdleReturned { advance } => {
                let callback: u64 = match self.calling {
                    Some(callback) => callback,
                    None => 0,
                };
                self.calling = None;
                let replaced = state.restore_idle_advance(callback);
                let mut moved = false;
                if let Some(d) = advance {
                    if !d.is_zero() {
                        moved = true;
                        if state.has_clock() {
                            state.advance_clock(d);
                        }
                    }
                }
                self.idle_advance_active = moved || replaced;
                LoopAction::Again
            },
        }
    }

    /// Begins an iteration at `now`.
    fn begin(&self, state: &TaskState, now: u64) -> (action: LoopAction)
        ensures
            action == self.begin_step(state@, now).action,
    {
        if state.get_task_count() > 0 && state.keep_running() {
            let configured = match self.busy_poll {
                BusyPoll::Never => false,
                BusyPoll::Always => true,
                BusyPoll::Until(_) => now <= self.cool_down_time,
            };
            let busy_poll = configured || (state.has_clock() && (state.any_ready() || (
            self.idle_advance_active && state.has_idle_advance())));
            LoopAction::Enter { busy_poll }
        } else {
            LoopAction::Done
        }
    }

    /// Goes on to the next ready task, or past the end of the round.
    fn next(&mut self, state: &mut TaskState) -> (action: LoopAction)
        requires
            old(state)@.valid(),
        ensures
            final(state)@.valid(),
            (LoopStep { event_loop: *final(self), state: final(state)@, action })
                == old(self).poll_step(old(state)@),
    {
        if !state.keep_running() {
            return LoopAction::Again;
        }
        if let Some(key) = state.get_ready() {
            return LoopAction::Poll { key };
        }
        if self.polled_any {
            self.idle_advance_active = true;
        }
        if !state.any_ready() && self.idle_advance_active && state.has_idle_advance() {
            let (now, next_deadline) = match state.clock() {
                Some(clock) => (Some(clock.now()), clock.next_deadline()),
                None => (None, None),
            };
            let taken = state.take_idle_advance();
            self.calling = taken;
            if let (Some(callback), Some(now)) = (taken, now) {
                return LoopAction::CallIdle { callback, now, next_deadline };
            }
        }
        LoopAction::Again
    }
}

/// How many events a driver without rings waits for.
pub open spec fn events_wanted(s: StateView, busy_poll: bool) -> usize {
    if busy_poll || s.any_ready() {
        0
    } else {
        1
    }
}

/// How many events a driver without rings waits for: none while polling or while a task
/// is ready, else one.
pub fn driver_want(state: &TaskState, busy_poll: bool) -> (want: usize)
    ensures
        want == events_wanted(state@, busy_poll),
{
    if busy_poll || state.any_ready() {
        0
    } else {
        1
    }
}

/// The tasks with which a run of a runtime begins.
pub struct RunTasks {
    /// The task of the main future.
    pub main: u64,
    /// The task that serves the requests from the runtime's handles.
    pub server: u64,
}

/// Room for two more tasks on a thread.
pub open spec fn room_for_run(s: StateView) -> bool {
    &&& s.indices.available()
    &&& s.indices.take().available()
    &&& s.next_key < u64::MAX - 1
    &&& s.task_count < usize::MAX - 1
}

/// The thread when a run begins under an activity and a tenant.
pub open spec fn run_begun(s: StateView, activity_id: u128, tenant_id: u128) -> StateView {
    s.schedule_new(activity_id, tenant_id).schedule_new(activity_id, tenant_id)
}

impl Runtime {
    /// How the runtime polls the kernel.
    pub closed spec fn busy_poll(&self) -> BusyPoll {
        self.busy_poll
    }

    /// The end of the pipe over which the runtime takes requests.
    pub closed spec fn server_pipe(&self) -> rustix::fd::OwnedFd {
        self.server_pipe
    }

    /// The end of the pipe over which requests are sent to the runtime.
    pub closed spec fn client_pipe(&self) -> rustix::fd::OwnedFd {
        self.client_pipe
    }

    /// A runtime for the thread with index `thread_index`, whose state it configures. The
    /// two descriptors are the ends of a pipe.
    pub fn new(
        thread_index: u8,
        configuration: Configuration,
        state: &mut TaskState,
        server_pipe: rustix::fd::OwnedFd,
        client_pipe: rustix::fd::OwnedFd,
    ) -> (r: Runtime)
        requires
            old(state)@.valid(),
        ensures
            final(state)@.valid(),
            final(state)@ == (StateView {
                trace: TraceView {
                    thread_idx: thread_index,
                    enabled: configuration.trace,
                    ..old(state)@.trace
                },
                ..old(state)@
            }),
            r.busy_poll() == configuration.busy_poll,
            r.server_pipe() == server_pipe,
            r.client_pipe() == client_pipe,
    {
        state.configure_trace(thread_index, configuration.trace);
        Runtime { busy_poll: configuration.busy_poll, server_pipe, client_pipe }
    }

    /// A handle over which requests are sent to this runtime.
    pub fn get_handle(&self) -> (h: RuntimeHandle<'_>)
        ensures
            *h.client_pipe == self.client_pipe(),
    {
        RuntimeHandle { client_pipe: &self.client_pipe }
    }

    /// The end of the pipe over which this runtime takes requests.
    pub fn get_server_pipe(&self) -> (fd: &rustix::fd::OwnedFd)
        ensures
            *fd == self.server_pipe(),
    {
        &self.server_pipe
    }

    /// Begins a run under the given activity and tenant: a task for the main future, a
    /// task for the request server, and the loop.
    pub fn begin_run(
        &self,
        state: &mut TaskState,
        activity_id: u128,
        tenant_id: u128,
        now: u64,
        ticks_per_us: u64,
    ) -> (r: (RunTasks, EventLoop))
        requires
            old(state)@.valid(),
            room_for_run(old(state)@),
            self.busy_poll() matches BusyPoll::Until(d) ==> now + (d@ / 1000) * ticks_per_us
                <= u64::MAX && d@ / 1000 <= u64::MAX,
        ensures
            final(state)@.valid(),
            final(state)@ == run_begun(old(state)@, activity_id, tenant_id),
            r.0.main == old(state)@.next_key,
            r.0.server == old(state)@.next_key + 1,
            r.1.started(self.busy_poll(), now, ticks_per_us),
    {
        let main: u64 = state.schedule_new(activity_id, tenant_id);
        let server: u64 = state.schedule_new(activity_id, tenant_id);
        let event_loop = EventLoop::start(self.busy_poll, now, ticks_per_us);
        (RunTasks { main, server }, event_loop)
    }

    /// Begins a run under a new activity and no tenant.
    pub fn block_on(&mut self, state: &mut TaskState, now: u64, ticks_per_us: u64) -> (r: (
        RunTasks,
        EventLoop,
    ))
        requires
            old(state)@.valid(),
            room_for_run(old(state)@),
            old(self).busy_poll() matches BusyPoll::Until(d) ==> now + (d@ / 1000) * ticks_per_us
                <= u64::MAX && d@ / 1000 <= u64::MAX,
        ensures
            *final(self) == *old(self),
            final(state)@.valid(),
            exists|activity_id: u128|
                final(state)@ == #[trigger] run_begun(old(state)@, activity_id, 0) && (activity_id
                    >> 76) & 0xf == 4 && (activity_id >> 62) & 0x3 == 2,
            r.0.main == old(state)@.next_key,
            r.0.server == old(state)@.next_key + 1,
            r.1.started(old(self).busy_poll(), now, ticks_per_us),
    {
        let activity_id: u128 = new_v4();
        let tenant_id: u128 = nil();
        self.begin_run(state, activity_id, tenant_id, now, ticks_per_us)
    }
}

/// The result of a run whose main task came to `result`, if it is over: a loop that was shut
/// down has none but a panic.
pub open spec fn run_result<T, E>(
    keep_running: bool,
    result: Option<Result<T, E>>,
) -> Option<Result<T, E>> {
    if !keep_running && result matches Some(Ok(_)) {
        None
    } else {
        result
    }
}

impl Runtime {
    /// Ends a run, where `result` is what the main task returned or panicked with, if it is
    /// over: the result of the run, and the thread's state, which is as new afterwards. A
    /// loop that was shut down has no result but a panic.
    pub fn end_run<T, E>(&self, state: &mut TaskState, result: Option<Result<T, E>>) -> (r: (
        Option<Result<T, E>>,
        TaskState,
    ))
        ensures
            r.0 == run_result(old(state)@.keep_running, result),
            r.1@ == old(state)@,
            final(state)@ == initial_state(),
            final(state)@.valid(),
    {
        let keep_running = state.keep_running();
        let was = state.reset();
        let result = match result {
            Some(Ok(value)) => if keep_running {
                Some(Ok(value))
            } else {
                None
            },
            other => other,
        };
        (result, was)
    }
}

/// The oldest kernel that the rings need.
pub const MIN_KERNEL_VERSION: (u32, u32) = (5, 15);

/// Whether a kernel of this version has what the rings need.
pub open spec fn has_rings(version: (u32, u32)) -> bool {
    version.0 > 5 || version.0 == 5 && version.1 >= 15
}

/// Whether the rings can be used on a kernel of this version.
pub fn kernel_supported(version: (u32, u32)) -> (b: bool)
    ensures
        b == has_rings(version),
{
    version.0 > 5 || (version.0 == 5 && version.1 >= 15)
}

/// The loop goes on exactly while tasks are left and nobody shut it down.
pub proof fn law_loop_ends_with_its_tasks(l: EventLoop, s: StateView, now: u64)
    ensures
        (l.begin_step(s, now).action is Done) == (s.task_count == 0 || !s.keep_running),
{
}

/// After a shutdown no task is polled any more: no step of the loop asks for a poll or for
/// the idle callback, and the next iteration is not begun.
pub proof fn law_shutdown_is_immediate(l: EventLoop, s: StateView, now: u64)
    requires
        !s.keep_running,
    ensures
        l.begin_step(s, now).action == LoopAction::Done,
        l.polled(now).poll_step(s).action == LoopAction::Again,
        l.polled(now).poll_step(s).state == s,
        (EventLoop { polled_any: false, ..l }).poll_step(s.prepare_cohort()).action
            == LoopAction::Again,
{
}

/// The idle callback is called only when no task is ready, and while it is called it is
/// not installed.
pub proof fn law_idle_callback_only_when_idle(l: EventLoop, s: StateView)
    requires
        s.valid(),
    ensures
        l.poll_step(s).action is CallIdle ==> {
            &&& !l.poll_step(s).state.any_ready()
            &&& !l.poll_step(s).state.has_idle_advance()
            &&& l.poll_step(s).event_loop.calling is Some
        },
{
}

/// Under a virtual clock the loop never waits in the kernel while a task is ready.
pub proof fn law_no_wait_while_ready(l: EventLoop, s: StateView, now: u64)
    requires
        s.clock is Some,
        s.any_ready(),
    ensures
        l.begin_step(s, now).action matches LoopAction::Enter { busy_poll } ==> busy_poll,
{
}

/// A callback that declined and was not replaced is not called again before a task was
/// polled: the loop does not spin on it.
pub proof fn law_declined_callback_waits_for_a_poll(l: EventLoop, s: StateView)
    requires
        s.valid(),
        l.calling is Some,
        s.clock matches Some(c) ==> !c.idle_advance_dirty,
    ensures
        ({
            let after = l.idle_returned(s, None);
            let next = (EventLoop { polled_any: false, ..after }).poll_step(
                l.called(s).prepare_cohort(),
            );
            !after.idle_advance_active && !(next.action is CallIdle)
        }),
{
}

/// What a call of the idle callback and its return do together. It is called only when no
/// task is ready, with the time and the next deadline. Where it returns a duration, the
/// clock then reads that much later, and what the timers wake whose deadline is reached is
/// woken; where it declines, the time stays and no timer fires. A callback that touched no
/// clock is installed again.
pub proof fn law_idle_callback_moves_the_clock(
    l: EventLoop,
    s: StateView,
    advance: Option<Duration>,
    target: Instant,
)
    requires
        s.clock is Some,
        l.poll_step(s).action is CallIdle,
        EventLoop::moves(advance) ==> target@ == s.clock->0.current@ + (advance->0)@,
    ensures
        ({
            let called = l.poll_step(s);
            let c = s.clock->0;
            let back = called.event_loop.called(called.state);
            &&& !s.any_ready()
            &&& called.action == (LoopAction::CallIdle {
                callback: c.idle_advance_fn->0,
                now: c.current,
                next_deadline: c.next_deadline(),
            })
            &&& c.idle_advance_fn is Some
            &&& back.clock is Some
            &&& back.clock->0.idle_advance_fn == c.idle_advance_fn
            &&& back.clock->0.current == c.current
            &&& back.clock->0.timers == c.timers
            &&& EventLoop::moves(advance) ==> {
                let moved = back.clock_advanced_to(target);
                &&& moved == back.with_clock(Some(back.clock->0.advance_to(target))).wake_all(
                    wakers_of(c.timers.filter(due(target@))),
                )
                &&& moved.clock is Some
                &&& moved.clock->0.current == target
                &&& moved.clock->0.timers == c.timers.filter(not_due(target@))
            }
        }),
{
    let called = l.poll_step(s);
    let back = called.event_loop.called(called.state);
    if EventLoop::moves(advance) {
        lemma_wake_all_keeps_clock(
            back.with_clock(Some(back.clock->0.advance_to(target))),
            wakers_of(back.clock->0.fired(target)),
        );
    }
}

} // verus!
