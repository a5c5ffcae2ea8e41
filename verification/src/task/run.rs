//! Polls of tasks and calls into the kernel, each as a begin and an end around what
//! the embedding program does in between.

use vstd::prelude::*;

use crate::model::{
    law_poll_begun_keeps_valid, law_poll_ended_keeps_valid, Cqe, RingEnter, StateView,
    TaskReadyState, TaskRun,
};
use crate::tracing::Events;

use super::{initial_state, TaskState};

verus! {

broadcast use vstd::std_specs::hash::group_hash_axioms;

/// What the end of a call into the kernel needs: it submitted no more than was in
/// flight, the kernel reports only operations that it has, and the statistics hold the
/// call.
pub open spec fn can_end_enter(
    s: StateView,
    enter: RingEnter,
    submissions: u64,
    now: u64,
    cqes: Seq<Cqe>,
) -> bool {
    &&& submissions <= enter.in_flight_io
    &&& s.can_complete(cqes)
    &&& cqes.len() <= s.stats.in_flight(enter.iopoll)
    &&& s.enter_stats_of(enter.want).start <= now
    &&& s.enter_stats_of(enter.want).sum + (now - s.enter_stats_of(enter.want).start) <= u64::MAX
    &&& s.enter_stats_of(enter.want).count < u64::MAX
}

impl TaskState {
    /// Begins the poll of a task at `now`, in timer ticks. A task that is complete has
    /// nothing to do and is not polled.
    pub fn begin_poll(&mut self, key: u64, now: u64) -> (run: Option<TaskRun>)
        requires
            old(self)@.valid(),
        ensures
            final(self)@.valid(),
            run is Some == (old(self)@.ready_state(key) != TaskReadyState::Complete),
            run matches Some(r) ==> r == old(self)@.run_of(key, now) && final(self)@
                == old(self)@.poll_begun(key),
            run is None ==> final(self)@ == old(self)@,
    {
        match self.tasks.get(&key) {
            Some(t) => {
                if matches!(t.ready, TaskReadyState::Complete) {
                    return None;
                }
                let run = TaskRun {
                    key,
                    task_index: t.task_index,
                    activity_id: t.activity_id,
                    tag: t.tag,
                    start_time: now,
                };
                proof {
                    assert(self@.tasks.contains_key(key));
                    law_poll_begun_keeps_valid(self@, key);
                }
                self.current_task = Some(key);
                Some(run)
            },
            None => None,
        }
    }

    /// Ends the poll `run` on processor `cpu`: a task that is `complete` wakes those who
    /// wait for it and is a task no more, another one is suspended unless it was woken or
    /// aborted during the poll.
    pub fn end_poll(&mut self, run: TaskRun, complete: bool, cpu: u16)
        requires
            old(self)@.valid(),
            old(self)@.tasks.contains_key(run.key),
        ensures
            final(self)@.valid(),
            final(self)@ == old(self)@.poll_ended(run, complete, cpu),
    {
        proof {
            law_poll_ended_keeps_valid(old(self)@, run, complete, cpu);
        }
        if complete {
            self.complete_task(run.key);
        } else {
            if let Some(mut t) = self.tasks.remove(&run.key) {
                t.high_priority = false;
                if matches!(t.ready, TaskReadyState::Running) {
                    t.ready = TaskReadyState::Suspend;
                }
                self.tasks.insert(run.key, t);
            }
            assert(self@.tasks =~= old(self)@.poll_pending(run.key).tasks);
        }
        self.current_task = None;
        let action: u8 = self.get_state(run.key).as_u8();
        self.write_event(
            run.task_index,
            Events::TaskRunEnd {
                activity_id: run.activity_id,
                start_time: run.start_time,
                tag: run.tag,
                cpu,
                action,
                complete,
            },
        );
    }

    /// Plans a call into the kernel for one of the rings at `now`, in timer ticks.
    /// `None` where the polled ring has nothing in flight.
    pub fn begin_enter(&mut self, busy_poll: bool, iopoll: bool, now: u64) -> (enter: Option<
        RingEnter,
    >)
        requires
            old(self)@.valid(),
        ensures
            final(self)@.valid(),
            enter is None == old(self)@.enter_idle(iopoll),
            enter matches Some(e) ==> e == old(self)@.enter_plan(busy_poll, iopoll, now),
            final(self)@ == old(self)@.enter_begun(busy_poll, iopoll, now),
    {
        let any_ready = self.any_ready();
        let ring_tag: u32 = self.get_next_tag();
        if iopoll && self.stats.in_flight_io_poll == 0 {
            return None;
        }
        let want = !(busy_poll || iopoll || any_ready || self.stats.in_flight_io_poll > 0);
        if want {
            self.enter_stats_wait.start(now);
        } else {
            self.enter_stats.start(now);
        }
        let in_flight_io: u64 = if iopoll {
            self.stats.in_flight_io_poll
        } else {
            self.stats.in_flight_io
        };
        Some(RingEnter { want, iopoll, ring_tag, start_time: now, in_flight_io })
    }

    /// Ends the call `enter`, which submitted `submissions` operations and returned at
    /// `now` with `hint` completions in the queue, of which `cqes` were taken.
    pub fn end_enter(
        &mut self,
        enter: RingEnter,
        submissions: u64,
        now: u64,
        hint: u64,
        cqes: &Vec<Cqe>,
    )
        requires
            old(self)@.valid(),
            can_end_enter(old(self)@, enter, submissions, now, cqes@),
        ensures
            final(self)@.valid(),
            final(self)@ == old(self)@.enter_ended(enter, submissions, now, hint, cqes@),
    {
        if enter.want {
            self.enter_stats_wait.stop(now);
        } else {
            self.enter_stats.stop(now);
        }
        if enter.want || submissions > 0 || hint > 0 {
            let task_count: u32 = self.task_count as u32;
            self.write_event(
                0,
                Events::RingEnterEnd {
                    submissions,
                    in_flight_io: enter.in_flight_io - submissions,
                    start_time: enter.start_time,
                    completions: hint,
                    tag: enter.ring_tag,
                    task_count,
                    want: enter.want,
                    iopoll: enter.iopoll,
                },
            );
        }
        assert(self@.can_complete(cqes@));
        self.complete_all_io(cqes, enter.iopoll);
    }

    /// Counters of the thread.
    pub fn stats(&self) -> (s: crate::stats::URingStats)
        ensures
            s == self@.stats,
    {
        self.stats
    }

    /// Statistics of the calls into the kernel that did not wait.
    pub fn enter_stats(&self) -> (s: crate::stats::EnterStats)
        ensures
            s == self@.enter_stats,
    {
        self.enter_stats
    }

    /// Statistics of the calls into the kernel that waited.
    pub fn enter_stats_wait(&self) -> (s: crate::stats::EnterStats)
        ensures
            s == self@.enter_stats_wait,
    {
        self.enter_stats_wait
    }

    /// Sets up tracing: the index of the thread, and whether there is a sink.
    pub fn configure_trace(&mut self, thread_idx: u8, enabled: bool)
        requires
            old(self)@.valid(),
        ensures
            final(self)@.valid(),
            final(self)@ == (StateView {
                trace: crate::tracing::TraceView { thread_idx, enabled, ..old(self)@.trace },
                ..old(self)@
            }),
    {
        self.trace_buffer.thread_idx = thread_idx;
        self.trace_buffer.enabled = enabled;
    }

    /// Takes the trace events that were collected, oldest first.
    pub fn drain_trace(&mut self) -> (events: Vec<crate::tracing::EventEnvelope>)
        requires
            old(self)@.valid(),
        ensures
            final(self)@.valid(),
            events@ == old(self)@.trace.events,
            final(self)@ == (StateView {
                trace: crate::tracing::TraceView { events: Seq::empty(), ..old(self)@.trace },
                ..old(self)@
            }),
    {
        self.trace_buffer.drain()
    }

    /// Leaves a thread without tasks and returns what there was, for the program to drop.
    pub fn reset(&mut self) -> (was: TaskState)
        ensures
            was@ == old(self)@,
            final(self)@ == initial_state(),
            final(self)@.valid(),
    {
        let mut was = TaskState::new();
        core::mem::swap(&mut was, self);
        was
    }
}

} // verus!
