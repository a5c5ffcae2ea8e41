//! What the loop of a run does next.

use vstd::prelude::*;

use crate::model::{StateView, TaskReadyState};
use crate::runtime::{run_begun, BusyPoll, EventLoop, LoopAction};
use crate::task::initial_state;
use crate::time::Duration;

verus! {

/// Whether any task is in a ready list.
pub open spec fn work_is_left(s: StateView) -> bool {
    s.fill.len() > 0 || s.ready_io.len() > 0 || s.ready_cpu.len() > 0
}

/// Whether the thread has an idle callback.
pub open spec fn has_callback(s: StateView) -> bool {
    s.clock is Some && s.clock->0.idle_advance_fn is Some
}

/// An iteration enters the kernel while tasks are left and nobody shut the loop down, and
/// the loop is over otherwise. It polls there, and does not wait, exactly where it is set up
/// to: always, or until its cool-down is over; and, under a virtual clock, where a task is
/// ready or an idle callback is worth a call. Nothing changes.
pub proof fn law_iteration_enters_the_kernel(l: EventLoop, s: StateView, now: u64)
    ensures
        ({
            let r = l.begin_step(s, now);
            let polls = match l.busy_poll {
                BusyPoll::Never => false,
                BusyPoll::Always => true,
                BusyPoll::Until(_) => now <= l.cool_down_time,
            };
            let virtual_work = s.clock is Some && (work_is_left(s) || l.idle_advance_active
                && has_callback(s));
            &&& r.event_loop == l
            &&& r.state == s
            &&& s.task_count == 0 || !s.keep_running ==> r.action == LoopAction::Done
            &&& s.task_count > 0 && s.keep_running ==> r.action == (LoopAction::Enter {
                busy_poll: polls || virtual_work,
            })
        }),
{
}

/// After the kernel, and after each poll, the next task of the cohort is polled, then one with
/// CPU priority unless the last one was such; none is, once the loop was shut down.
pub proof fn law_loop_polls_what_is_next(l: EventLoop, s: StateView)
    ensures
        ({
            let r = l.poll_step(s);
            let from_cpu = s.ready_io.len() == 0 && !s.last_ready_cpu && s.ready_cpu.len() > 0;
            &&& !s.keep_running ==> r.action == LoopAction::Again && r.state == s && r.event_loop
                == l
            &&& s.keep_running && s.ready_io.len() > 0 ==> r.action == (LoopAction::Poll {
                key: s.ready_io[0],
            }) && r.event_loop == l && r.state == s.get_ready()
            &&& s.keep_running && from_cpu ==> r.action == (LoopAction::Poll {
                key: s.ready_cpu[0],
            }) && r.event_loop == l && r.state == s.get_ready()
            &&& s.keep_running && s.ready_io.len() == 0 && !from_cpu ==> !(r.action is Poll)
        }),
{
}

/// At the end of a round the idle callback is called exactly where no task is ready, there is
/// one, and it is worth a call: it did not decline last, or a task was polled since. It gets
/// the time and the earliest deadline, and is out of the clock while it runs. Otherwise the
/// next iteration begins.
pub proof fn law_idle_callback_is_asked_when_idle(l: EventLoop, s: StateView)
    requires
        s.keep_running,
        s.ready_io.len() == 0,
        s.last_ready_cpu || s.ready_cpu.len() == 0,
    ensures
        ({
            let r = l.poll_step(s);
            let worth = l.idle_advance_active || l.polled_any;
            let asks = !work_is_left(s) && worth && has_callback(s);
            &&& r.event_loop.idle_advance_active == worth
            &&& r.event_loop.busy_poll == l.busy_poll
            &&& r.event_loop.cool_down_time == l.cool_down_time
            &&& r.event_loop.poll_duration_ticks == l.poll_duration_ticks
            &&& r.event_loop.polled_any == l.polled_any
            &&& asks ==> {
                let c = s.clock->0;
                &&& r.action == (LoopAction::CallIdle {
                    callback: c.idle_advance_fn->0,
                    now: c.current,
                    next_deadline: if c.timers.len() == 0 {
                        None
                    } else {
                        Some(c.timers[0].deadline)
                    },
                })
                &&& r.event_loop.calling == c.idle_advance_fn
                &&& r.state.clock is Some
                &&& r.state.clock->0.idle_advance_fn is None
                &&& !r.state.clock->0.idle_advance_dirty
                &&& r.state.clock->0.current == c.current
                &&& r.state.clock->0.timers == c.timers
            }
            &&& !asks ==> {
                &&& r.action == LoopAction::Again
                &&& r.event_loop.calling == l.calling
                &&& r.state.clock == s.clock
            }
            &&& r.state.tasks == s.tasks && r.state.fill == s.fill && r.state.ready_cpu
                == s.ready_cpu && r.state.ready_io == s.ready_io && !r.state.last_ready_cpu
        }),
{
}

/// A poll of a task is noted, and begins the cool-down anew where there is one; nothing else
/// of the loop changes.
pub proof fn law_poll_begins_the_cool_down(l: EventLoop, now: u64)
    requires
        l.poll_duration_ticks matches Some(d) ==> now + d <= u64::MAX,
    ensures
        ({
            let after = l.polled(now);
            &&& after.polled_any
            &&& l.poll_duration_ticks matches Some(d) ==> after.cool_down_time == now + d
            &&& l.poll_duration_ticks is None ==> after.cool_down_time == l.cool_down_time
            &&& after == (EventLoop {
                polled_any: after.polled_any,
                cool_down_time: after.cool_down_time,
                ..l
            })
        }),
{
}

/// For its time after the poll of a task the loop polls the kernel; later it waits, where no
/// virtual clock has it poll.
pub proof fn law_cool_down_lasts_its_time(
    l: EventLoop,
    s: StateView,
    d: Duration,
    ticks: u64,
    now: u64,
    later: u64,
)
    requires
        l.busy_poll == BusyPoll::Until(d),
        l.poll_duration_ticks == Some(ticks),
        now + ticks <= u64::MAX,
        s.clock is None,
        s.task_count > 0,
        s.keep_running,
    ensures
        l.polled(now).begin_step(s, later).action == (LoopAction::Enter {
            busy_poll: later <= now + ticks,
        }),
{
}

/// An idle callback that moved the clock is worth another call, and so is one that was
/// replaced while it was called; one that declined, or asked for no time, is not. It is
/// called no more, and offered back to the clock.
pub proof fn law_callback_is_worth_another_call(
    l: EventLoop,
    s: StateView,
    advance: Option<Duration>,
)
    requires
        l.calling is Some,
    ensures
        ({
            let after = l.idle_returned(s, advance);
            let moved = match advance {
                Some(d) => d@ > 0,
                None => false,
            };
            let replaced = s.clock is Some && s.clock->0.idle_advance_dirty;
            &&& EventLoop::moves(advance) == moved
            &&& after.idle_advance_active == (moved || replaced)
            &&& after.calling is None
            &&& after == (EventLoop {
                idle_advance_active: after.idle_advance_active,
                calling: None,
                ..l
            })
            &&& s.clock is None ==> l.called(s) == s
            &&& s.clock is Some ==> {
                let c = l.called(s).clock->0;
                &&& l.called(s) == (StateView { clock: Some(c), ..s })
                &&& c.idle_advance_fn == (if replaced {
                    s.clock->0.idle_advance_fn
                } else {
                    l.calling
                })
                &&& c.current == s.clock->0.current
                &&& c.timers == s.clock->0.timers
            }
        }),
{
}

/// A run begins with two more tasks, both ready and for the activity and the tenant of the
/// run.
pub proof fn law_run_begins_two_tasks(s: StateView, activity_id: u128, tenant_id: u128)
    requires
        s.valid(),
        s.next_key < u64::MAX - 1,
        s.task_count < usize::MAX - 1,
    ensures
        ({
            let t = run_begun(s, activity_id, tenant_id);
            let main = s.next_key;
            let server = (s.next_key + 1) as u64;
            &&& t.task_count == s.task_count + 2
            &&& t.next_key == s.next_key + 2
            &&& t.tasks.contains_key(main)
            &&& t.tasks.contains_key(server)
            &&& t.tasks[main].ready == TaskReadyState::Ready
            &&& t.tasks[server].ready == TaskReadyState::Ready
            &&& t.tasks[main].activity_id == activity_id
            &&& t.tasks[main].tenant_id == tenant_id
            &&& t.tasks[server].activity_id == activity_id
            &&& t.tasks[server].tenant_id == tenant_id
        }),
{
}

/// A thread begins with nothing: no task, nothing in flight, no clock, no trace and no fault;
/// and it runs.
pub proof fn law_thread_begins_with_nothing()
    ensures
        ({
            let s = initial_state();
            &&& s.task_count == 0 && s.tasks.dom() =~= Set::empty()
            &&& !work_is_left(s)
            &&& s.current_task is None
            &&& s.stats.in_flight_io == 0 && s.stats.in_flight_io_poll == 0
            &&& s.stats.tasks_polled_io == 0 && s.stats.tasks_polled_cpu == 0
            &&& s.clock is None
            &&& !s.trace.enabled && s.trace.events.len() == 0
            &&& s.fault is None
            &&& s.keep_running
            &&& s.completions.dom() =~= Set::empty() && s.completion_pool.len() == 0
            &&& s.waits.dom() =~= Set::empty() && s.scopes.dom() =~= Set::empty()
            &&& s.pending_wakes.len() == 0 && s.cancels.len() == 0
            &&& s.enter_stats.count == 0 && s.enter_stats.sum == 0 && s.enter_stats.max == 0
            &&& s.enter_stats.min == u64::MAX && s.enter_stats_wait == s.enter_stats
            &&& s.next_tag == 0 && s.next_key == 0
            &&& !s.last_ready_cpu
        }),
{
}

} // verus!
