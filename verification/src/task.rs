//! The per-thread task state: which tasks exist, which are ready, and what they
//! wait for.
//!
//! A task is bound to its thread. It suspends until something wakes it, and many
//! futures can be pending in it at once. Tasks are named by keys that are never
//! given out twice; the future of a task belongs to the embedding program, which
//! finds it by the same key.

pub mod clock;
pub mod current;
pub mod io;
pub mod run;
pub mod waits;

use std::collections::{HashMap, VecDeque};

use vstd::prelude::*;

use crate::errno::Errno;
use crate::model::{
    law_abort_keeps_valid, law_complete_keeps_valid, law_get_ready_keeps_valid,
    law_prepare_cohort_keeps_valid, law_schedule_cpu_keeps_valid, law_schedule_io_keeps_valid,
    law_schedule_new_keeps_valid, law_wake_wait_keeps_valid, law_wake_waits_keeps_valid,
    CancelRequest, CompletionEntry, IndexView, IoScopeView, StateView, TaskReadyState, TaskView,
    WaitData, Waker,
};
use crate::stats::{EnterStats, URingStats};
use crate::tracing::{Events, TraceBuffer};
use crate::virtual_clock::VirtualClockState;

verus! {

broadcast use vstd::std_specs::hash::group_hash_axioms;

/// A task that exists.
pub struct Task {
    /// The activity that the task works for, for tracing.
    pub activity_id: u128,
    /// The tenant that the task works for, for tracing.
    pub tenant_id: u128,
    /// The small number of the task in trace events.
    pub task_index: u16,
    /// Whether the tasks that this one wakes join the cohort that is being polled.
    pub high_priority: bool,
    /// Where the task stands.
    pub ready: TaskReadyState,
    /// The tag that ties the begin and end events of the task together.
    pub tag: u32,
    /// The waits to wake when the task completes, oldest first.
    pub joining_tasks: Vec<u64>,
}

impl View for Task {
    type V = TaskView;

    open spec fn view(&self) -> TaskView {
        TaskView {
            activity_id: self.activity_id,
            tenant_id: self.tenant_id,
            task_index: self.task_index,
            high_priority: self.high_priority,
            ready: self.ready,
            tag: self.tag,
            joining: self.joining_tasks@,
        }
    }
}

/// The waits and I/O operations begun in an I/O scope.
pub struct IoScopeCompletions {
    pub completions: Vec<u64>,
    pub waits: Vec<u64>,
}

impl View for IoScopeCompletions {
    type V = IoScopeView;

    open spec fn view(&self) -> IoScopeView {
        IoScopeView { completions: self.completions@, waits: self.waits@ }
    }
}

/// Gives out the small task numbers.
struct IndexTable {
    free: Vec<u16>,
    next: u32,
}

impl View for IndexTable {
    type V = IndexView;

    closed spec fn view(&self) -> IndexView {
        IndexView { free: self.free@, next: self.next }
    }
}

impl IndexTable {
    fn new() -> (t: IndexTable)
        ensures
            t@ == (IndexView { free: Seq::empty(), next: 1 }),
    {
        IndexTable { free: Vec::new(), next: 1 }
    }

    fn take(&mut self) -> (i: u16)
        requires
            old(self)@.valid(),
            old(self)@.available(),
        ensures
            i == old(self)@.next_index(),
            final(self)@ == old(self)@.take(),
    {
        match self.free.pop() {
            Some(i) => i,
            None => {
                let i: u16 = self.next as u16;
                self.next = self.next + 1;
                i
            },
        }
    }

    fn release(&mut self, i: u16)
        ensures
            final(self)@ == old(self)@.release(i),
    {
        self.free.push(i);
    }
}

/// All the information about the tasks of one thread.
pub struct TaskState {
    task_count: usize,
    last_ready_cpu: bool,
    trace_buffer: TraceBuffer,
    stats: URingStats,
    enter_stats: EnterStats,
    enter_stats_wait: EnterStats,
    current_task: Option<u64>,
    fill_ready_task_list_io: VecDeque<u64>,
    ready_task_list_io: VecDeque<u64>,
    ready_task_list_cpu: VecDeque<u64>,
    tasks: HashMap<u64, Task>,
    indices: IndexTable,
    completed_tasks: Vec<u64>,
    scopes: HashMap<u64, IoScopeCompletions>,
    next_tag: u32,
    next_key: u64,
    keep_running: bool,
    fault: Option<(usize, Errno)>,
    clock: Option<VirtualClockState<Waker, u64>>,
    waits: HashMap<u64, WaitData>,
    next_wait: u64,
    completions: HashMap<u64, CompletionEntry>,
    completion_pool: VecDeque<u64>,
    next_completion: u64,
    pending_wakes: Vec<u64>,
    cancels: Vec<CancelRequest>,
}

impl View for TaskState {
    type V = StateView;

    closed spec fn view(&self) -> StateView {
        StateView {
            task_count: self.task_count,
            last_ready_cpu: self.last_ready_cpu,
            trace: self.trace_buffer@,
            stats: self.stats,
            enter_stats: self.enter_stats,
            enter_stats_wait: self.enter_stats_wait,
            current_task: self.current_task,
            fill: self.fill_ready_task_list_io@,
            ready_io: self.ready_task_list_io@,
            ready_cpu: self.ready_task_list_cpu@,
            tasks: self.tasks@.map_values(|t: Task| t@),
            indices: self.indices@,
            completed_tasks: self.completed_tasks@,
            scopes: self.scopes@.map_values(|s: IoScopeCompletions| s@),
            next_tag: self.next_tag,
            next_key: self.next_key,
            keep_running: self.keep_running,
            fault: self.fault,
            clock: match self.clock {
                Some(c) => Some(c@),
                None => None,
            },
            waits: self.waits@,
            next_wait: self.next_wait,
            completions: self.completions@,
            completion_pool: self.completion_pool@,
            next_completion: self.next_completion,
            pending_wakes: self.pending_wakes@,
            cancels: self.cancels@,
        }
    }
}

/// A thread on which nothing happened yet.
pub open spec fn initial_state() -> StateView {
    StateView {
        task_count: 0,
        last_ready_cpu: false,
        trace: crate::tracing::TraceView { enabled: false, thread_idx: 0, events: Seq::empty() },
        stats: URingStats {
            in_flight_io: 0,
            in_flight_io_poll: 0,
            tasks_polled_io: 0,
            tasks_polled_cpu: 0,
        },
        enter_stats: EnterStats { sum: 0, count: 0, min: u64::MAX, max: 0, start: 0 },
        enter_stats_wait: EnterStats { sum: 0, count: 0, min: u64::MAX, max: 0, start: 0 },
        current_task: None,
        fill: Seq::empty(),
        ready_io: Seq::empty(),
        ready_cpu: Seq::empty(),
        tasks: Map::empty(),
        indices: IndexView { free: Seq::empty(), next: 1 },
        completed_tasks: Seq::empty(),
        scopes: Map::empty(),
        next_tag: 0,
        next_key: 0,
        keep_running: true,
        fault: None,
        clock: None,
        waits: Map::empty(),
        next_wait: 0,
        completions: Map::empty(),
        completion_pool: Seq::empty(),
        next_completion: 0,
        pending_wakes: Seq::empty(),
        cancels: Seq::empty(),
    }
}

impl TaskState {
    /// A thread without tasks.
    pub fn new() -> (s: TaskState)
        ensures
            s@ == initial_state(),
            s@.valid(),
    {
        let s = TaskState {
            task_count: 0,
            last_ready_cpu: false,
            trace_buffer: TraceBuffer::new(),
            stats: URingStats::new(),
            enter_stats: EnterStats::new(),
            enter_stats_wait: EnterStats::new(),
            current_task: None,
            fill_ready_task_list_io: VecDeque::new(),
            ready_task_list_io: VecDeque::new(),
            ready_task_list_cpu: VecDeque::new(),
            tasks: HashMap::new(),
            indices: IndexTable::new(),
            completed_tasks: Vec::new(),
            scopes: HashMap::new(),
            next_tag: 0,
            next_key: 0,
            keep_running: true,
            fault: None,
            clock: None,
            waits: HashMap::new(),
            next_wait: 0,
            completions: HashMap::new(),
            completion_pool: VecDeque::new(),
            next_completion: 0,
            pending_wakes: Vec::new(),
            cancels: Vec::new(),
        };
        assert(s@.tasks =~= Map::<u64, TaskView>::empty());
        assert(s@.scopes =~= Map::<u64, IoScopeView>::empty());
        s
    }

    /// Where task `key` stands.
    pub fn get_state(&self, key: u64) -> (r: TaskReadyState)
        ensures
            r == self@.ready_state(key),
    {
        match self.tasks.get(&key) {
            Some(t) => t.ready,
            None => TaskReadyState::Complete,
        }
    }

    /// Moves a live task to another state.
    fn set_state(&mut self, key: u64, ready: TaskReadyState)
        requires
            old(self)@.tasks.contains_key(key),
        ensures
            final(self)@ == old(self)@.with_ready(key, ready),
    {
        if let Some(mut t) = self.tasks.remove(&key) {
            t.ready = ready;
            self.tasks.insert(key, t);
        }
        assert(self@.tasks =~= old(self)@.with_ready(key, ready).tasks);
    }

    /// The number of tasks that exist.
    pub fn get_task_count(&self) -> (n: usize)
        ensures
            n == self@.task_count,
    {
        self.task_count
    }

    /// The task that is being polled.
    pub fn get_current_task(&self) -> (k: Option<u64>)
        ensures
            k == self@.current_task,
    {
        self.current_task
    }

    /// A tag for the begin and end events of something. Tags wrap around.
    pub fn get_next_tag(&mut self) -> (tag: u32)
        ensures
            tag == old(self)@.next_tag,
            final(self)@ == (StateView {
                next_tag: old(self)@.next_tag.wrapping_add(1),
                ..old(self)@
            }),
    {
        let tag: u32 = self.next_tag;
        self.next_tag = tag.wrapping_add(1);
        tag
    }

    /// Whether any task is ready to be polled.
    pub fn any_ready(&self) -> (b: bool)
        ensures
            b == self@.any_ready(),
    {
        self.fill_ready_task_list_io.len() > 0 || self.ready_task_list_io.len() > 0
            || self.ready_task_list_cpu.len() > 0
    }

    /// Whether another task can be scheduled: an index and a key are left for it.
    pub fn can_schedule(&self) -> (b: bool)
        ensures
            b == (self@.indices.available() && self@.next_key < u64::MAX && self@.task_count
                < usize::MAX),
    {
        (self.indices.free.len() > 0 || self.indices.next <= 65535) && self.next_key < u64::MAX
            && self.task_count < usize::MAX
    }

    /// Ends the event loop: no further task is polled.
    pub fn shutdown(&mut self)
        ensures
            final(self)@ == (StateView { keep_running: false, ..old(self)@ }),
    {
        self.keep_running = false;
    }

    /// Whether the event loop goes on.
    pub fn keep_running(&self) -> (b: bool)
        ensures
            b == self@.keep_running,
    {
        self.keep_running
    }

    /// Notes a trace event of the task with index `task_index`.
    pub fn write_event(&mut self, task_index: u16, event: Events)
        ensures
            final(self)@ == old(self)@.traced(task_index, event),
    {
        self.trace_buffer.write_event(task_index, event);
    }

    /// Puts a live task into the ready list that the running task's priority calls for.
    fn schedule_io_internal(&mut self, key: u64)
        requires
            old(self)@.tasks.contains_key(key),
        ensures
            final(self)@ == old(self)@.enqueued(key),
    {
        let high_priority = match self.current_task {
            Some(k) => match self.tasks.get(&k) {
                Some(t) => t.high_priority,
                None => false,
            },
            None => false,
        };
        let tag: u32 = self.get_next_tag();
        if let Some(mut t) = self.tasks.remove(&key) {
            t.tag = tag;
            self.trace_buffer.write_event(
                t.task_index,
                Events::TaskScheduled {
                    activity_id: t.activity_id,
                    tenant_id: t.tenant_id,
                    tag,
                    io: true,
                },
            );
            self.tasks.insert(key, t);
        }
        if high_priority {
            self.ready_task_list_io.push_back(key);
        } else {
            self.fill_ready_task_list_io.push_back(key);
        }
        assert(self@.tasks =~= old(self)@.enqueued(key).tasks);
    }

    /// Adds a task, ready to run, and returns its key.
    pub fn schedule_new(&mut self, activity_id: u128, tenant_id: u128) -> (key: u64)
        requires
            old(self)@.valid(),
            old(self)@.indices.available(),
            old(self)@.next_key < u64::MAX,
            old(self)@.task_count < usize::MAX,
        ensures
            final(self)@.valid(),
            key == old(self)@.next_key,
            final(self)@ == old(self)@.schedule_new(activity_id, tenant_id),
    {
        let key: u64 = self.next_key;
        let task_index: u16 = self.indices.take();
        self.tasks.insert(
            key,
            Task {
                activity_id,
                tenant_id,
                task_index,
                high_priority: false,
                ready: TaskReadyState::Ready,
                tag: 1,
                joining_tasks: Vec::new(),
            },
        );
        self.next_key = key + 1;
        self.task_count = self.task_count + 1;
        proof {
            let t = TaskView {
                activity_id,
                tenant_id,
                task_index,
                high_priority: false,
                ready: TaskReadyState::Ready,
                tag: 1,
                joining: Seq::empty(),
            };
            assert(self@.tasks =~= old(self)@.tasks.insert(key, t));
            law_schedule_new_keeps_valid(old(self)@, activity_id, tenant_id);
        }
        self.schedule_io_internal(key);
        key
    }

    /// Makes a running or suspended task ready, with I/O priority. Others stay as they
    /// are: a ready or aborted task needs no wake-up, and a complete one may still be
    /// woken by I/O that it left behind.
    pub fn schedule_io(&mut self, key: u64)
        requires
            old(self)@.valid(),
        ensures
            final(self)@.valid(),
            final(self)@ == old(self)@.schedule_io(key),
    {
        proof {
            law_schedule_io_keeps_valid(old(self)@, key);
        }
        match self.get_state(key) {
            TaskReadyState::Running | TaskReadyState::Suspend => {
                self.set_state(key, TaskReadyState::Ready);
                self.schedule_io_internal(key);
            },
            _ => {},
        }
    }

    /// Makes a running or suspended task ready, with CPU priority.
    pub fn schedule_cpu(&mut self, key: u64)
        requires
            old(self)@.valid(),
        ensures
            final(self)@.valid(),
            final(self)@ == old(self)@.schedule_cpu(key),
    {
        proof {
            law_schedule_cpu_keeps_valid(old(self)@, key);
        }
        match self.get_state(key) {
            TaskReadyState::Running | TaskReadyState::Suspend => {
                self.set_state(key, TaskReadyState::Ready);
                self.ready_task_list_cpu.push_back(key);
            },
            _ => {},
        }
    }

    /// Wakes a task, or notes the wake-up of something outside for the program.
    pub fn wake(&mut self, waker: Waker)
        requires
            old(self)@.valid(),
        ensures
            final(self)@.valid(),
            final(self)@ == old(self)@.wake(waker),
    {
        match waker {
            Waker::Task(key) => self.schedule_io(key),
            Waker::Foreign(id) => self.pending_wakes.push(id),
        }
    }

    /// Takes the noted wake-ups of things outside, oldest first. The program performs
    /// them once it holds no borrow of this state.
    pub fn take_pending_wakes(&mut self) -> (ids: Vec<u64>)
        requires
            old(self)@.valid(),
        ensures
            final(self)@.valid(),
            ids@ == old(self)@.pending_wakes,
            final(self)@ == (StateView { pending_wakes: Seq::empty(), ..old(self)@ }),
    {
        let mut ids: Vec<u64> = Vec::new();
        core::mem::swap(&mut ids, &mut self.pending_wakes);
        ids
    }

    /// Replaces wait `id`, or forgets it where nothing refers to it any more.
    fn put_wait(&mut self, id: u64, wait: WaitData)
        ensures
            final(self)@ == old(self)@.with_wait(id, wait),
    {
        if wait.linked || wait.held || wait.scope_refs > 0 {
            self.waits.insert(id, wait);
        } else {
            self.waits.remove(&id);
        }
    }

    /// Wakes a wait that has left its list. One that nothing refers to any more wakes
    /// nobody.
    pub fn wake_wait(&mut self, id: u64)
        requires
            old(self)@.valid(),
        ensures
            final(self)@.valid(),
            final(self)@ == old(self)@.wake_wait(id),
    {
        proof {
            law_wake_wait_keeps_valid(old(self)@, id);
        }
        let wait = match self.waits.get(&id) {
            Some(w) => *w,
            None => {
                return ;
            },
        };
        self.write_event(
            wait.task_id,
            Events::AsyncWaitEnd { activity_id: wait.activity_id, tag: wait.tag },
        );
        let mut unlinked = wait;
        unlinked.linked = false;
        self.put_wait(id, unlinked);
        if let Some(waker) = wait.waker {
            assert(self@.valid());
            self.wake(waker);
        }
    }

    /// Wakes the waits of a list that was emptied, in order.
    pub fn wake_waits(&mut self, ids: &Vec<u64>)
        requires
            old(self)@.valid(),
        ensures
            final(self)@.valid(),
            final(self)@ == old(self)@.wake_waits(ids@),
    {
        let mut i: usize = 0;
        assert(ids@.take(0) =~= Seq::<u64>::empty());
        while i < ids.len()
            invariant
                i <= ids@.len(),
                self@.valid(),
                self@ == old(self)@.wake_waits(ids@.take(i as int)),
            decreases ids@.len() - i,
        {
            self.wake_wait(ids[i]);
            proof {
                let n = ids@.take(i + 1);
                assert(n.drop_last() =~= ids@.take(i as int));
                assert(n.last() == ids@[i as int]);
            }
            i = i + 1;
        }
        assert(ids@.take(i as int) =~= ids@);
    }

    /// Ends a live task: wakes those who wait for it and gives its index back.
    pub fn complete_task(&mut self, key: u64)
        requires
            old(self)@.valid(),
            old(self)@.tasks.contains_key(key),
        ensures
            final(self)@.valid(),
            final(self)@ == old(self)@.complete(key),
    {
        proof {
            law_complete_keeps_valid(old(self)@, key);
        }
        let ghost t = old(self)@.tasks[key];
        let mut joining: Vec<u64> = Vec::new();
        let mut task_index: u16 = 0;
        if let Some(mut task) = self.tasks.remove(&key) {
            task_index = task.task_index;
            task.ready = TaskReadyState::Complete;
            core::mem::swap(&mut joining, &mut task.joining_tasks);
            self.tasks.insert(key, task);
        }
        proof {
            let done = TaskView { ready: TaskReadyState::Complete, joining: Seq::empty(), ..t };
            assert(self@.tasks =~= old(self)@.tasks.insert(key, done));
            assert(self@.tasks.dom() =~= old(self)@.tasks.dom());
            assert(self@.valid());
            law_wake_waits_keeps_valid(self@, joining@);
        }
        self.wake_waits(&joining);
        let ghost woken = self@;
        assert(woken.tasks.contains_key(key));
        assert(self.task_count > 0) by {
            if self.task_count == 0 {
                assert(woken.tasks.dom() =~= Set::<u64>::empty());
            }
        }
        self.tasks.remove(&key);
        self.indices.release(task_index);
        self.completed_tasks.push(key);
        self.task_count = self.task_count - 1;
        assert(self@.tasks =~= woken.tasks.remove(key));
        assert(self@ =~= old(self)@.complete(key));
    }

    /// Makes the tasks that became ready the cohort to poll, unless some of the last
    /// cohort are left.
    pub fn prepare_cohort(&mut self)
        requires
            old(self)@.valid(),
        ensures
            final(self)@.valid(),
            final(self)@ == old(self)@.prepare_cohort(),
    {
        proof {
            law_prepare_cohort_keeps_valid(old(self)@);
        }
        if self.ready_task_list_io.len() == 0 {
            core::mem::swap(&mut self.ready_task_list_io, &mut self.fill_ready_task_list_io);
        }
    }

    /// Takes the next task to poll and marks it running, unless it was aborted or is
    /// complete. `None` ends a round of polls.
    pub fn get_ready(&mut self) -> (key: Option<u64>)
        requires
            old(self)@.valid(),
        ensures
            final(self)@.valid(),
            key == old(self)@.next_ready(),
            final(self)@ == old(self)@.get_ready(),
    {
        proof {
            law_get_ready_keeps_valid(old(self)@);
        }
        if let Some(key) = self.ready_task_list_io.pop_front() {
            assert(self.ready_task_list_io@ =~= old(self)@.ready_io.drop_first());
            self.stats.tasks_polled_io = self.stats.tasks_polled_io.wrapping_add(1);
            self.last_ready_cpu = false;
            self.start_task(key);
            return Some(key);
        }
        if self.last_ready_cpu {
            self.last_ready_cpu = false;
            return None;
        }
        if let Some(key) = self.ready_task_list_cpu.pop_front() {
            assert(self.ready_task_list_cpu@ =~= old(self)@.ready_cpu.drop_first());
            self.stats.tasks_polled_cpu = self.stats.tasks_polled_cpu.wrapping_add(1);
            self.last_ready_cpu = true;
            self.start_task(key);
            Some(key)
        } else {
            self.last_ready_cpu = false;
            None
        }
    }

    /// Marks a task running, unless it was aborted or is complete.
    fn start_task(&mut self, key: u64)
        ensures
            final(self)@ == old(self)@.started(key),
    {
        match self.get_state(key) {
            TaskReadyState::Aborted | TaskReadyState::Complete => {},
            _ => self.set_state(key, TaskReadyState::Running),
        }
    }

    /// Aborts a task that is not running: its next poll unwinds. A task that aborts
    /// itself unwinds at once, which is for the program to do.
    pub fn abort_task(&mut self, key: u64)
        requires
            old(self)@.valid(),
            old(self)@.ready_state(key) != TaskReadyState::Running,
        ensures
            final(self)@.valid(),
            final(self)@ == old(self)@.abort(key),
    {
        proof {
            law_abort_keeps_valid(old(self)@, key);
        }
        match self.get_state(key) {
            TaskReadyState::Suspend => {
                self.set_state(key, TaskReadyState::Aborted);
                self.schedule_io_internal(key);
            },
            TaskReadyState::Ready => {
                self.set_state(key, TaskReadyState::Aborted);
            },
            _ => {},
        }
    }
}

} // verus!
