//! The model of a runtime thread: its tasks, queues, waits, completions and clock
//! as mathematical values, and what each operation makes of them.

use vstd::prelude::*;

use crate::errno::{Errno, ECANCELED, ETIME};
use crate::seqs::{
    lemma_drop_first, lemma_drop_last, lemma_filter_keeps, lemma_filter_no_duplicates, lemma_push,
};
use crate::stats::{EnterStats, URingStats};
use crate::tracing::{Events, TraceView};
use crate::virtual_clock::ClockView;

verus! {

/// What a wake-up reaches.
#[derive(Clone, Copy, Debug, PartialEq, Eq, Hash, Structural)]
pub enum Waker {
    /// The task with this key.
    Task(u64),
    /// Something outside this thread's tasks, by the program's own number for it.
    Foreign(u64),
}

/// Where a task stands.
#[derive(Clone, Copy, Debug, PartialEq, Eq, Structural)]
pub enum TaskReadyState {
    /// No task is ever in this state.
    Unknown,
    /// In a ready list: it needs to be polled.
    Ready,
    /// Its poll is executing.
    Running,
    /// Neither in a ready list nor running.
    Suspend,
    /// Aborted: its next poll unwinds.
    Aborted,
    /// Its poll returned completion: it is not polled again.
    Complete,
}

impl TaskReadyState {
    /// The number under which the state appears in trace events.
    pub open spec fn number(self) -> u8 {
        match self {
            TaskReadyState::Unknown => 0,
            TaskReadyState::Ready => 1,
            TaskReadyState::Running => 2,
            TaskReadyState::Suspend => 3,
            TaskReadyState::Aborted => 4,
            TaskReadyState::Complete => 5,
        }
    }

    /// The number under which the state appears in trace events.
    pub fn as_u8(self) -> (n: u8)
        ensures
            n == self.number(),
    {
        match self {
            TaskReadyState::Unknown => 0,
            TaskReadyState::Ready => 1,
            TaskReadyState::Running => 2,
            TaskReadyState::Suspend => 3,
            TaskReadyState::Aborted => 4,
            TaskReadyState::Complete => 5,
        }
    }
}

/// A task, without the future that it runs.
#[verifier::ext_equal]
pub struct TaskView {
    pub activity_id: u128,
    pub tenant_id: u128,
    pub task_index: u16,
    pub high_priority: bool,
    pub ready: TaskReadyState,
    pub tag: u32,
    /// The waits to wake when the task completes, oldest first.
    pub joining: Seq<u64>,
}

/// One wait of one task for an event or for another task.
#[derive(Clone, Copy, Debug)]
pub struct WaitData {
    pub activity_id: u128,
    pub waker: Option<Waker>,
    pub task_id: u16,
    pub canceled: bool,
    pub tag: u32,
    /// For an event: whether the wait is for the event to be set.
    pub expected: bool,
    /// Whether the wait stands in a wait list.
    pub linked: bool,
    /// Whether the future that waits still exists.
    pub held: bool,
    /// How often the wait is noted in I/O scopes.
    pub scope_refs: u64,
}

impl WaitData {
    /// Whether anything still refers to the wait.
    pub open spec fn owned(self) -> bool {
        self.linked || self.held || self.scope_refs > 0
    }
}

/// The waits and I/O operations begun in an I/O scope.
#[verifier::ext_equal]
pub struct IoScopeView {
    pub completions: Seq<u64>,
    pub waits: Seq<u64>,
}

impl IoScopeView {
    pub open spec fn empty() -> Self {
        IoScopeView { completions: Seq::empty(), waits: Seq::empty() }
    }
}

/// How far an I/O operation got.
#[derive(Clone, Copy, Debug)]
pub enum CompletionState {
    /// Created, not yet handed to the kernel.
    Idle { timespec: bool },
    /// In the kernel.
    Submitted { waker: Waker, activity_id: u128, tag: u32, canceled: bool },
    /// Done, with its result.
    Completed { result: Result<u32, Errno> },
    /// Its result was taken.
    Terminated,
}

/// One I/O operation.
#[derive(Clone, Copy, Debug)]
pub struct Completion {
    pub state: CompletionState,
    pub tag: u32,
    pub task_index: u16,
    pub iopoll: bool,
}

/// An I/O operation with the number of its owners.
#[derive(Clone, Copy, Debug)]
pub struct CompletionEntry {
    pub completion: Completion,
    pub refs: u64,
    /// Whether the one owner is the pool of completions kept for reuse.
    pub pooled: bool,
}

/// A completion that the kernel reports: of the operation `user_data`, or of a timeout
/// that belongs to an operation.
#[derive(Clone, Copy, Debug)]
pub struct Cqe {
    pub user_data: Option<u64>,
    pub result: Result<u32, Errno>,
}

/// A request to the kernel to cancel an operation that it holds.
#[derive(Clone, Copy, Debug, PartialEq, Eq, Structural)]
pub struct CancelRequest {
    pub completion: u64,
    pub iopoll: bool,
}

/// The task indices given out: those below `next` that are not in `free`.
#[verifier::ext_equal]
pub struct IndexView {
    pub free: Seq<u16>,
    pub next: u32,
}

impl IndexView {
    pub open spec fn valid(self) -> bool {
        &&& 1 <= self.next <= 65536
        &&& self.free.no_duplicates()
        &&& forall|i: int| 0 <= i < self.free.len() ==> 1 <= #[trigger] self.free[i] < self.next
    }

    /// Whether a task may carry index `i`.
    pub open spec fn used(self, i: u16) -> bool {
        1 <= i < self.next && !self.free.contains(i)
    }

    /// Whether an index is left.
    pub open spec fn available(self) -> bool {
        self.free.len() > 0 || self.next <= 65535
    }

    /// The index that the next task gets: the one freed last, else a new one.
    pub open spec fn next_index(self) -> u16 {
        if self.free.len() > 0 {
            self.free.last()
        } else {
            self.next as u16
        }
    }

    pub open spec fn take(self) -> Self {
        if self.free.len() > 0 {
            IndexView { free: self.free.drop_last(), ..self }
        } else {
            IndexView { next: (self.next + 1) as u32, ..self }
        }
    }

    pub open spec fn release(self, i: u16) -> Self {
        IndexView { free: self.free.push(i), ..self }
    }
}

/// The model of a runtime thread.
#[verifier::ext_equal]
pub struct StateView {
    pub task_count: usize,
    pub last_ready_cpu: bool,
    pub trace: TraceView,
    pub stats: URingStats,
    pub enter_stats: EnterStats,
    pub enter_stats_wait: EnterStats,
    pub current_task: Option<u64>,
    /// Tasks that became ready and wait for the next cohort.
    pub fill: Seq<u64>,
    /// The cohort that is being polled.
    pub ready_io: Seq<u64>,
    /// Ready tasks with CPU priority.
    pub ready_cpu: Seq<u64>,
    /// The tasks that exist; a key below `next_key` without a task is one whose task
    /// completed.
    pub tasks: Map<u64, TaskView>,
    pub indices: IndexView,
    pub completed_tasks: Seq<u64>,
    pub scopes: Map<u64, IoScopeView>,
    pub next_tag: u32,
    pub next_key: u64,
    pub keep_running: bool,
    pub fault: Option<(usize, Errno)>,
    pub clock: Option<ClockView<Waker, u64>>,
    pub waits: Map<u64, WaitData>,
    pub next_wait: u64,
    pub completions: Map<u64, CompletionEntry>,
    pub completion_pool: Seq<u64>,
    pub next_completion: u64,
    /// Wake-ups that reach beyond this thread's tasks, oldest first.
    pub pending_wakes: Seq<u64>,
    /// Cancel requests for the kernel, oldest first.
    pub cancels: Seq<CancelRequest>,
}

/// The most completions that are kept for reuse.
pub const MAX_COMPLETION_POOL_ENTRIES: usize = 4096;

impl StateView {
    /// Where the task with key `key` stands. A key without a task is one whose task
    /// is complete.
    pub open spec fn ready_state(self, key: u64) -> TaskReadyState {
        if self.tasks.contains_key(key) {
            self.tasks[key].ready
        } else {
            TaskReadyState::Complete
        }
    }

    /// Whether the task stands in a ready list.
    pub open spec fn queued(self, key: u64) -> bool {
        self.fill.contains(key) || self.ready_io.contains(key) || self.ready_cpu.contains(key)
    }

    /// Whether any task is ready.
    pub open spec fn any_ready(self) -> bool {
        self.fill.len() > 0 || self.ready_io.len() > 0 || self.ready_cpu.len() > 0
    }

    /// No task stands twice in the ready lists, and none in two of them.
    pub open spec fn queued_once(self) -> bool {
        &&& self.fill.no_duplicates()
        &&& self.ready_io.no_duplicates()
        &&& self.ready_cpu.no_duplicates()
        &&& forall|k: u64| #[trigger]
            self.fill.contains(k) ==> !self.ready_io.contains(k) && !self.ready_cpu.contains(k)
        &&& forall|k: u64| #[trigger] self.ready_io.contains(k) ==> !self.ready_cpu.contains(k)
    }

    /// A ready task stands in a ready list; a running or suspended one does not.
    pub open spec fn queues_match_states(self) -> bool {
        forall|k: u64| #[trigger]
            self.tasks.contains_key(k) ==> {
                &&& self.tasks[k].ready == TaskReadyState::Ready ==> self.queued(k)
                &&& self.tasks[k].ready == TaskReadyState::Running ==> !self.queued(k)
                &&& self.tasks[k].ready == TaskReadyState::Suspend ==> !self.queued(k)
                &&& self.tasks[k].ready != TaskReadyState::Unknown
            }
    }

    /// Live tasks carry indices that are in use, and no two the same.
    pub open spec fn indices_match(self) -> bool {
        &&& self.indices.valid()
        &&& forall|k: u64| #[trigger]
            self.tasks.contains_key(k) ==> self.indices.used(self.tasks[k].task_index)
        &&& forall|j: u64, k: u64| #[trigger]
            self.tasks.contains_key(j) && #[trigger] self.tasks.contains_key(k) && j != k
                ==> self.tasks[j].task_index != self.tasks[k].task_index
    }

    /// Keys of tasks and of queue entries were given out.
    pub open spec fn keys_issued(self) -> bool {
        &&& forall|k: u64| #[trigger] self.tasks.contains_key(k) ==> k < self.next_key
        &&& forall|k: u64| #[trigger] self.fill.contains(k) ==> k < self.next_key
        &&& forall|k: u64| #[trigger] self.ready_io.contains(k) ==> k < self.next_key
        &&& forall|k: u64| #[trigger] self.ready_cpu.contains(k) ==> k < self.next_key
        &&& forall|k: u64| #[trigger] self.waits.contains_key(k) ==> k < self.next_wait
    }

    /// Every pooled completion exists, stands in the pool once, and has no owner but
    /// the pool.
    pub open spec fn pool_ok(self) -> bool {
        &&& self.completion_pool.no_duplicates()
        &&& self.completion_pool.len() <= MAX_COMPLETION_POOL_ENTRIES
        &&& forall|i: int|
            0 <= i < self.completion_pool.len() ==> self.completions.contains_key(
                #[trigger] self.completion_pool[i],
            ) && self.completions[self.completion_pool[i]].refs == 1
                && self.completions[self.completion_pool[i]].pooled
        &&& forall|k: u64| #[trigger]
            self.completions.contains_key(k) ==> k < self.next_completion
                && self.completions[k].refs >= 1
    }

    /// What holds of every runtime thread.
    pub open spec fn valid(self) -> bool {
        &&& self.tasks.dom().finite()
        &&& self.task_count == self.tasks.dom().len()
        &&& self.queued_once()
        &&& self.queues_match_states()
        &&& self.indices_match()
        &&& self.keys_issued()
        &&& self.pool_ok()
        &&& self.current_task matches Some(k) ==> k < self.next_key
        &&& self.clock matches Some(c) ==> c.valid()
    }

    /// With an event traced for task `task_index`.
    pub open spec fn traced(self, task_index: u16, event: Events) -> Self {
        StateView { trace: self.trace.write(task_index, event), ..self }
    }

    /// With task `key` replaced.
    pub open spec fn with_task(self, key: u64, task: TaskView) -> Self {
        StateView { tasks: self.tasks.insert(key, task), ..self }
    }

    /// With task `key` in another state.
    pub open spec fn with_ready(self, key: u64, ready: TaskReadyState) -> Self {
        self.with_task(key, TaskView { ready, ..self.tasks[key] })
    }

    /// Whether the running task has high priority, which those that it wakes inherit.
    pub open spec fn high_priority(self) -> bool {
        self.current_task matches Some(k) && self.tasks.contains_key(k)
            && self.tasks[k].high_priority
    }

    /// With the live task `key` put into a ready list under a fresh tag: into the
    /// cohort that is being polled where the running task has high priority, else
    /// into the next one.
    pub open spec fn enqueued(self, key: u64) -> Self {
        let t = self.tasks[key];
        let event = Events::TaskScheduled {
            activity_id: t.activity_id,
            tenant_id: t.tenant_id,
            tag: self.next_tag,
            io: true,
        };
        StateView {
            next_tag: self.next_tag.wrapping_add(1),
            tasks: self.tasks.insert(key, TaskView { tag: self.next_tag, ..t }),
            trace: self.trace.write(t.task_index, event),
            ready_io: if self.high_priority() {
                self.ready_io.push(key)
            } else {
                self.ready_io
            },
            fill: if self.high_priority() {
                self.fill
            } else {
                self.fill.push(key)
            },
            ..self
        }
    }

    /// With task `key` scheduled for I/O: only a running or suspended task is; one
    /// that is ready, aborted or complete stays as it is.
    pub open spec fn schedule_io(self, key: u64) -> Self {
        match self.ready_state(key) {
            TaskReadyState::Running | TaskReadyState::Suspend => self.with_ready(
                key,
                TaskReadyState::Ready,
            ).enqueued(key),
            _ => self,
        }
    }

    /// With task `key` scheduled for the CPU, under the same rule.
    pub open spec fn schedule_cpu(self, key: u64) -> Self {
        match self.ready_state(key) {
            TaskReadyState::Running | TaskReadyState::Suspend => StateView {
                ready_cpu: self.ready_cpu.push(key),
                ..self.with_ready(key, TaskReadyState::Ready)
            },
            _ => self,
        }
    }

    /// After a wake-up: a task is scheduled, anything else is noted for the program.
    pub open spec fn wake(self, waker: Waker) -> Self {
        match waker {
            Waker::Task(key) => self.schedule_io(key),
            Waker::Foreign(id) => StateView { pending_wakes: self.pending_wakes.push(id), ..self },
        }
    }

    /// After the wake-ups in `wakers`, in order.
    pub open spec fn wake_all(self, wakers: Seq<Waker>) -> Self
        decreases wakers.len(),
    {
        if wakers.len() == 0 {
            self
        } else {
            self.wake_all(wakers.drop_last()).wake(wakers.last())
        }
    }

    /// With wait `id` replaced, or gone where nothing refers to it any more.
    pub open spec fn with_wait(self, id: u64, wait: WaitData) -> Self {
        StateView {
            waits: if wait.owned() {
                self.waits.insert(id, wait)
            } else {
                self.waits.remove(id)
            },
            ..self
        }
    }

    /// After wait `id` left its list and was woken.
    pub open spec fn wake_wait(self, id: u64) -> Self {
        if self.waits.contains_key(id) {
            let w = self.waits[id];
            let unlinked = self.traced(
                w.task_id,
                Events::AsyncWaitEnd { activity_id: w.activity_id, tag: w.tag },
            ).with_wait(id, WaitData { linked: false, ..w });
            match w.waker {
                Some(waker) => unlinked.wake(waker),
                None => unlinked,
            }
        } else {
            self
        }
    }

    /// After the waits `ids` left their list and were woken, in order.
    pub open spec fn wake_waits(self, ids: Seq<u64>) -> Self
        decreases ids.len(),
    {
        if ids.len() == 0 {
            self
        } else {
            self.wake_waits(ids.drop_last()).wake_wait(ids.last())
        }
    }

    /// With a new task, ready to run.
    pub open spec fn schedule_new(self, activity_id: u128, tenant_id: u128) -> Self {
        StateView {
            next_key: (self.next_key + 1) as u64,
            task_count: (self.task_count + 1) as usize,
            indices: self.indices.take(),
            tasks: self.tasks.insert(
                self.next_key,
                TaskView {
                    activity_id,
                    tenant_id,
                    task_index: self.indices.next_index(),
                    high_priority: false,
                    ready: TaskReadyState::Ready,
                    tag: 1,
                    joining: Seq::empty(),
                },
            ),
            ..self
        }.enqueued(self.next_key)
    }

    /// After the live task `key` completed: those who wait for it are woken, and it
    /// is a task no more.
    pub open spec fn complete(self, key: u64) -> Self {
        let t = self.tasks[key];
        let done = TaskView { ready: TaskReadyState::Complete, joining: Seq::empty(), ..t };
        let woken = self.with_task(key, done).wake_waits(t.joining);
        StateView {
            tasks: woken.tasks.remove(key),
            indices: woken.indices.release(t.task_index),
            completed_tasks: woken.completed_tasks.push(key),
            task_count: (woken.task_count - 1) as usize,
            ..woken
        }
    }

    /// With the tasks that became ready promoted to the cohort to poll, once the last
    /// cohort is used up.
    pub open spec fn prepare_cohort(self) -> Self {
        if self.ready_io.len() == 0 {
            StateView { ready_io: self.fill, fill: self.ready_io, ..self }
        } else {
            self
        }
    }

    /// The next task to poll: the cohort first; then, but not twice in a row, a task
    /// with CPU priority.
    pub open spec fn next_ready(self) -> Option<u64> {
        if self.ready_io.len() > 0 {
            Some(self.ready_io[0])
        } else if !self.last_ready_cpu && self.ready_cpu.len() > 0 {
            Some(self.ready_cpu[0])
        } else {
            None
        }
    }

    /// With task `key` running, unless it was aborted or is complete.
    pub open spec fn started(self, key: u64) -> Self {
        match self.ready_state(key) {
            TaskReadyState::Aborted | TaskReadyState::Complete => self,
            _ => self.with_ready(key, TaskReadyState::Running),
        }
    }

    /// After the next task to poll was taken from its list.
    pub open spec fn get_ready(self) -> Self {
        if self.ready_io.len() > 0 {
            StateView {
                ready_io: self.ready_io.drop_first(),
                stats: URingStats {
                    tasks_polled_io: self.stats.tasks_polled_io.wrapping_add(1),
                    ..self.stats
                },
                last_ready_cpu: false,
                ..self
            }.started(self.ready_io[0])
        } else if !self.last_ready_cpu && self.ready_cpu.len() > 0 {
            StateView {
                ready_cpu: self.ready_cpu.drop_first(),
                stats: URingStats {
                    tasks_polled_cpu: self.stats.tasks_polled_cpu.wrapping_add(1),
                    ..self.stats
                },
                last_ready_cpu: true,
                ..self
            }.started(self.ready_cpu[0])
        } else {
            StateView { last_ready_cpu: false, ..self }
        }
    }

    /// After task `key` was aborted: a suspended one is scheduled so that its next
    /// poll can unwind, a ready one is marked, the others stay as they are.
    pub open spec fn abort(self, key: u64) -> Self {
        match self.ready_state(key) {
            TaskReadyState::Suspend => self.with_ready(key, TaskReadyState::Aborted).enqueued(key),
            TaskReadyState::Ready => self.with_ready(key, TaskReadyState::Aborted),
            _ => self,
        }
    }
}

/// The result that an operation reports: a cancellation that nobody asked for is a
/// timeout.
pub open spec fn reported_result(
    result: Result<u32, Errno>,
    canceled: bool,
) -> Result<u32, Errno> {
    if result == Err::<u32, Errno>(Errno { code: ECANCELED }) && !canceled {
        Err(Errno { code: ETIME })
    } else {
        result
    }
}

/// The number under which a result appears in trace events.
pub open spec fn result_code(result: Result<u32, Errno>) -> i32 {
    match result {
        Ok(_) => 0,
        Err(e) => e.code,
    }
}

impl StateView {
    /// With operation `id` in another state.
    pub open spec fn with_io_state(self, id: u64, state: CompletionState) -> Self {
        let e = self.completions[id];
        StateView {
            completions: self.completions.insert(
                id,
                CompletionEntry { completion: Completion { state, ..e.completion }, ..e },
            ),
            ..self
        }
    }

    /// With `n` more operations in flight on a ring.
    pub open spec fn more_in_flight(self, iopoll: bool, n: int) -> Self {
        StateView {
            stats: self.stats.with_in_flight(iopoll, (self.stats.in_flight(iopoll) + n) as u64),
            ..self
        }
    }

    /// After an owner gave operation `id` up: its last owner leaves it to the pool,
    /// while that has room.
    pub open spec fn return_completion(self, id: u64) -> Self {
        if !self.completions.contains_key(id) || self.completions[id].pooled {
            self
        } else {
            let e = self.completions[id];
            if e.refs > 1 {
                StateView {
                    completions: self.completions.insert(
                        id,
                        CompletionEntry { refs: (e.refs - 1) as u64, ..e },
                    ),
                    ..self
                }
            } else if self.completion_pool.len() < MAX_COMPLETION_POOL_ENTRIES {
                StateView {
                    completions: self.completions.insert(
                        id,
                        CompletionEntry { pooled: true, ..e },
                    ),
                    completion_pool: self.completion_pool.push(id),
                    ..self
                }
            } else {
                StateView { completions: self.completions.remove(id), ..self }
            }
        }
    }

    /// The name of the next operation: that of the oldest one in the pool, else a new
    /// one.
    pub open spec fn next_completion_id(self) -> u64 {
        if self.completion_pool.len() > 0 {
            self.completion_pool[0]
        } else {
            self.next_completion
        }
    }

    /// With a new operation, under the name of one from the pool where there is one.
    pub open spec fn new_completion(self, completion: Completion) -> Self {
        let e = CompletionEntry { completion, refs: 1, pooled: false };
        if self.completion_pool.len() > 0 {
            StateView {
                completions: self.completions.insert(self.completion_pool[0], e),
                completion_pool: self.completion_pool.drop_first(),
                ..self
            }
        } else {
            StateView {
                completions: self.completions.insert(self.next_completion, e),
                next_completion: (self.next_completion + 1) as u64,
                ..self
            }
        }
    }

    /// After operation `id` was canceled: one that the kernel does not have yet ends at
    /// once; for one that it has it is asked, once, to cancel it.
    pub open spec fn cancel_completion(self, id: u64) -> Self {
        if !self.completions.contains_key(id) {
            self
        } else {
            let c = self.completions[id].completion;
            match c.state {
                CompletionState::Idle { timespec: _ } => self.with_io_state(
                    id,
                    CompletionState::Completed { result: Err(Errno { code: ECANCELED }) },
                ),
                CompletionState::Submitted { waker, activity_id, tag, canceled: false } => StateView {
                    cancels: self.cancels.push(
                        CancelRequest { completion: id, iopoll: c.iopoll },
                    ),
                    ..self.with_io_state(
                        id,
                        CompletionState::Submitted { waker, activity_id, tag, canceled: true },
                    ).more_in_flight(c.iopoll, 1)
                },
                _ => self,
            }
        }
    }

    /// Whether operation `id` is in the kernel.
    pub open spec fn in_kernel(self, id: u64) -> bool {
        self.completions.contains_key(id) && !self.completions[id].pooled
            && self.completions[id].completion.state is Submitted
    }

    /// After the kernel reported `cqe`: the operation has its result, the kernel owns it
    /// no more, and whoever waits for it is woken.
    pub open spec fn io_completed(self, cqe: Cqe) -> Self {
        match cqe.user_data {
            None => self,
            Some(id) => {
                let c = self.completions[id].completion;
                match c.state {
                    CompletionState::Submitted { waker, activity_id, tag, canceled } => {
                        let result = reported_result(cqe.result, canceled);
                        self.traced(
                            c.task_index,
                            Events::IoEnd { activity_id, result: result_code(result), tag },
                        ).with_io_state(
                            id,
                            CompletionState::Completed { result },
                        ).return_completion(id).wake(waker)
                    },
                    _ => self,
                }
            },
        }
    }

    /// After the kernel reported `cqes`, in order.
    pub open spec fn all_io_completed(self, cqes: Seq<Cqe>) -> Self
        decreases cqes.len(),
    {
        if cqes.len() == 0 {
            self
        } else {
            self.all_io_completed(cqes.drop_last()).io_completed(cqes.last())
        }
    }

    /// Whether the kernel can report `cqes`: each of another operation that it has.
    pub open spec fn can_complete(self, cqes: Seq<Cqe>) -> bool {
        &&& forall|i: int|
            0 <= i < cqes.len() && (#[trigger] cqes[i]).user_data is Some ==> self.in_kernel(
                cqes[i].user_data->0,
            )
        &&& forall|i: int, j: int|
            0 <= i < j < cqes.len() && (#[trigger] cqes[i]).user_data is Some && (
            #[trigger] cqes[j]).user_data is Some ==> cqes[i].user_data != cqes[j].user_data
    }

    /// After the owner of the waits `ids` in an I/O scope canceled and woke them.
    pub open spec fn cancel_wait(self, id: u64) -> Self {
        if self.waits.contains_key(id) {
            let w = self.waits[id];
            let marked = self.with_wait(
                id,
                WaitData {
                    canceled: true,
                    scope_refs: if w.scope_refs > 0 {
                        (w.scope_refs - 1) as u64
                    } else {
                        0
                    },
                    ..w
                },
            );
            match w.waker {
                Some(waker) => marked.wake(waker),
                None => marked,
            }
        } else {
            self
        }
    }

    /// After the waits `ids` of an I/O scope were canceled and woken, in order.
    pub open spec fn cancel_waits(self, ids: Seq<u64>) -> Self
        decreases ids.len(),
    {
        if ids.len() == 0 {
            self
        } else {
            self.cancel_waits(ids.drop_last()).cancel_wait(ids.last())
        }
    }

    /// After the operations `ids` of an I/O scope were canceled, in order.
    pub open spec fn cancel_completions(self, ids: Seq<u64>) -> Self
        decreases ids.len(),
    {
        if ids.len() == 0 {
            self
        } else {
            self.cancel_completions(ids.drop_last()).cancel_completion(ids.last())
        }
    }

    /// After the operations `ids` were canceled and given up by their I/O scope, in
    /// order.
    pub open spec fn cancel_and_return(self, ids: Seq<u64>) -> Self
        decreases ids.len(),
    {
        if ids.len() == 0 {
            self
        } else {
            self.cancel_and_return(ids.drop_last()).cancel_completion(
                ids.last(),
            ).return_completion(ids.last())
        }
    }

    /// Whether operation `id` still waits for its result.
    pub open spec fn io_incomplete(self, id: u64) -> bool {
        self.completions.contains_key(id) && (self.completions[id].completion.state is Idle
            || self.completions[id].completion.state is Submitted)
    }

    /// The operations among `ids` from position `i` on that still wait for their result,
    /// when those that do not are given up; a gap is filled with the last one.
    pub open spec fn retain_incomplete(self, ids: Seq<u64>, i: nat) -> (Self, Seq<u64>)
        decreases ids.len() - i,
    {
        if i >= ids.len() {
            (self, ids)
        } else if self.io_incomplete(ids[i as int]) {
            self.retain_incomplete(ids, i + 1)
        } else {
            self.return_completion(ids[i as int]).retain_incomplete(
                ids.update(i as int, ids.last()).drop_last(),
                i,
            )
        }
    }

    /// After an I/O scope gave up the wait `id`.
    pub open spec fn release_wait(self, id: u64) -> Self {
        if self.waits.contains_key(id) && self.waits[id].scope_refs > 0 {
            let w = self.waits[id];
            self.with_wait(id, WaitData { scope_refs: (w.scope_refs - 1) as u64, ..w })
        } else {
            self
        }
    }

    /// After an I/O scope gave up the waits `ids`.
    pub open spec fn release_waits(self, ids: Seq<u64>) -> Self
        decreases ids.len(),
    {
        if ids.len() == 0 {
            self
        } else {
            self.release_waits(ids.drop_last()).release_wait(ids.last())
        }
    }

    /// After the operations `ids` were given up, in order.
    pub open spec fn return_completions(self, ids: Seq<u64>) -> Self
        decreases ids.len(),
    {
        if ids.len() == 0 {
            self
        } else {
            self.return_completions(ids.drop_last()).return_completion(ids.last())
        }
    }

    /// After the complete task `key` was dropped, and with it the I/O scope that it may
    /// have left open.
    pub open spec fn task_dropped(self, key: u64) -> Self {
        match self.scope(key) {
            Some(scope) => self.with_scope(key, None).return_completions(
                scope.completions,
            ).release_waits(scope.waits),
            None => self,
        }
    }

    /// After the complete tasks `keys` were dropped, in order.
    pub open spec fn tasks_dropped(self, keys: Seq<u64>) -> Self
        decreases keys.len(),
    {
        if keys.len() == 0 {
            self
        } else {
            self.tasks_dropped(keys.drop_last()).task_dropped(keys.last())
        }
    }

    /// After the program submitted operation `id`: the kernel owns it too, and reports
    /// one completion for it, two where it has a timeout of its own.
    pub open spec fn io_submitted(self, id: u64, waker: Waker, activity_id: u128, tag: u32) -> Self {
        let e = self.completions[id];
        let timespec = e.completion.state->Idle_timespec;
        StateView {
            completions: self.completions.insert(
                id,
                CompletionEntry {
                    completion: Completion {
                        state: CompletionState::Submitted {
                            waker,
                            activity_id,
                            tag,
                            canceled: false,
                        },
                        ..e.completion
                    },
                    refs: (e.refs + 1) as u64,
                    ..e
                },
            ),
            ..self
        }.more_in_flight(
            e.completion.iopoll,
            if timespec {
                2
            } else {
                1
            },
        )
    }

    /// With operation `id` noted in the I/O scope of task `key`, where it has one.
    pub open spec fn io_registered(self, key: u64, id: u64) -> Self {
        if self.scopes.contains_key(key) {
            let scope = self.scopes[key];
            let e = self.completions[id];
            StateView {
                scopes: self.scopes.insert(
                    key,
                    IoScopeView { completions: scope.completions.push(id), ..scope },
                ),
                completions: self.completions.insert(
                    id,
                    CompletionEntry { refs: (e.refs + 1) as u64, ..e },
                ),
                ..self
            }
        } else {
            self
        }
    }

    /// The I/O scope of task `key`.
    pub open spec fn scope(self, key: u64) -> Option<IoScopeView> {
        if self.scopes.contains_key(key) {
            Some(self.scopes[key])
        } else {
            None
        }
    }

    /// With another I/O scope for task `key`, or none.
    pub open spec fn with_scope(self, key: u64, scope: Option<IoScopeView>) -> Self {
        StateView {
            scopes: match scope {
                Some(s) => self.scopes.insert(key, s),
                None => self.scopes.remove(key),
            },
            ..self
        }
    }
}

/// What is remembered of a poll from its begin to its end.
#[derive(Clone, Copy, Debug, PartialEq, Eq, Structural)]
pub struct TaskRun {
    pub key: u64,
    pub task_index: u16,
    pub activity_id: u128,
    pub tag: u32,
    pub start_time: u64,
}

/// A call into the kernel that submits and collects I/O, from its plan to its end.
#[derive(Clone, Copy, Debug, PartialEq, Eq, Structural)]
pub struct RingEnter {
    /// Whether to wait until at least one operation completed.
    pub want: bool,
    pub iopoll: bool,
    pub ring_tag: u32,
    pub start_time: u64,
    /// The operations in flight, those that the call submits among them.
    pub in_flight_io: u64,
}

impl StateView {
    /// What is remembered of a poll of the live task `key` that begins at `now`.
    pub open spec fn run_of(self, key: u64, now: u64) -> TaskRun {
        let t = self.tasks[key];
        TaskRun {
            key,
            task_index: t.task_index,
            activity_id: t.activity_id,
            tag: t.tag,
            start_time: now,
        }
    }

    /// While task `key` is polled.
    pub open spec fn poll_begun(self, key: u64) -> Self {
        StateView { current_task: Some(key), ..self }
    }

    /// After the poll of a live task that is not over: it loses its priority, and is
    /// suspended unless it was woken or aborted meanwhile.
    pub open spec fn poll_pending(self, key: u64) -> Self {
        let t = self.tasks[key];
        self.with_task(
            key,
            TaskView {
                high_priority: false,
                ready: if t.ready == TaskReadyState::Running {
                    TaskReadyState::Suspend
                } else {
                    t.ready
                },
                ..t
            },
        )
    }

    /// After the poll `run` ended on processor `cpu`, with the task over where
    /// `complete`.
    pub open spec fn poll_ended(self, run: TaskRun, complete: bool, cpu: u16) -> Self {
        let after = if complete {
            self.complete(run.key)
        } else {
            self.poll_pending(run.key)
        };
        StateView { current_task: None, ..after }.traced(
            run.task_index,
            Events::TaskRunEnd {
                activity_id: run.activity_id,
                start_time: run.start_time,
                tag: run.tag,
                cpu,
                action: after.ready_state(run.key).number(),
                complete,
            },
        )
    }

    /// Whether the kernel need not be entered for a ring: the polled one has nothing in
    /// flight.
    pub open spec fn enter_idle(self, iopoll: bool) -> bool {
        iopoll && self.stats.in_flight_io_poll == 0
    }

    /// Whether a call into the kernel may wait there: nothing is ready to run, no polled
    /// I/O is in flight, and nobody wants to poll.
    pub open spec fn enter_waits(self, busy_poll: bool, iopoll: bool) -> bool {
        !busy_poll && !iopoll && !self.any_ready() && self.stats.in_flight_io_poll == 0
    }

    /// The plan of a call into the kernel at `now`.
    pub open spec fn enter_plan(self, busy_poll: bool, iopoll: bool, now: u64) -> RingEnter {
        RingEnter {
            want: self.enter_waits(busy_poll, iopoll),
            iopoll,
            ring_tag: self.next_tag,
            start_time: now,
            in_flight_io: self.stats.in_flight(iopoll),
        }
    }

    /// When a call into the kernel begins at `now`; a tag is used up even where there is
    /// nothing to enter it for.
    pub open spec fn enter_begun(self, busy_poll: bool, iopoll: bool, now: u64) -> Self {
        let tagged = StateView { next_tag: self.next_tag.wrapping_add(1), ..self };
        if self.enter_idle(iopoll) {
            tagged
        } else if self.enter_waits(busy_poll, iopoll) {
            StateView {
                enter_stats_wait: EnterStats { start: now, ..self.enter_stats_wait },
                ..tagged
            }
        } else {
            StateView { enter_stats: EnterStats { start: now, ..self.enter_stats }, ..tagged }
        }
    }

    /// The statistics of the calls that wait, or of those that do not.
    pub open spec fn enter_stats_of(self, want: bool) -> EnterStats {
        if want {
            self.enter_stats_wait
        } else {
            self.enter_stats
        }
    }

    /// When a call into the kernel ended at `now`.
    pub open spec fn enter_stopped(self, want: bool, now: u64) -> Self {
        if want {
            StateView { enter_stats_wait: self.enter_stats_wait.stopped(now), ..self }
        } else {
            StateView { enter_stats: self.enter_stats.stopped(now), ..self }
        }
    }

    /// With a call into the kernel traced, where it waited, submitted something or found
    /// completions.
    pub open spec fn enter_traced(
        self,
        enter: RingEnter,
        submissions: u64,
        completions: u64,
    ) -> Self {
        if enter.want || submissions > 0 || completions > 0 {
            self.traced(
                0,
                Events::RingEnterEnd {
                    submissions,
                    in_flight_io: (enter.in_flight_io - submissions) as u64,
                    start_time: enter.start_time,
                    completions,
                    tag: enter.ring_tag,
                    task_count: self.task_count as u32,
                    want: enter.want,
                    iopoll: enter.iopoll,
                },
            )
        } else {
            self
        }
    }

    /// After the call `enter` submitted `submissions` operations, ended at `now` with
    /// `hint` completions to be seen, and the completions `cqes` were taken in.
    pub open spec fn enter_ended(
        self,
        enter: RingEnter,
        submissions: u64,
        now: u64,
        hint: u64,
        cqes: Seq<Cqe>,
    ) -> Self {
        self.enter_stopped(enter.want, now).enter_traced(
            enter,
            submissions,
            hint,
        ).all_io_completed(cqes).more_in_flight(enter.iopoll, -(cqes.len() as int))
    }
}

/// What a poll of a wait finds.
#[derive(Clone, Copy, Debug, PartialEq, Eq, Structural)]
pub enum WaitPoll {
    /// Nothing yet: the wait is in its list.
    Pending,
    /// What was waited for has come.
    Ready,
    /// The wait was canceled.
    Canceled,
    /// The task that waits was aborted: it has to unwind now.
    Aborted,
}

/// A wait of one future, between its polls.
#[verifier::ext_equal]
pub struct WaitStep {
    pub state: StateView,
    /// The list that the wait stands in while it waits.
    pub list: Seq<u64>,
    /// Whether the future still waits.
    pub alive: bool,
    /// The wait's data, from the first poll that found nothing.
    pub wait: Option<u64>,
    pub outcome: WaitPoll,
}

impl StateView {
    /// The live running task.
    pub open spec fn running(self) -> bool {
        self.current_task matches Some(k) && self.tasks.contains_key(k)
    }

    /// Whether wait `id` was canceled.
    pub open spec fn wait_canceled(self, wait: Option<u64>) -> bool {
        wait matches Some(id) && self.waits.contains_key(id) && self.waits[id].canceled
    }

    /// With the wait `id` noted in the I/O scope of task `key`, where it has one.
    pub open spec fn scope_noted(self, key: u64, id: u64) -> Self {
        if self.scopes.contains_key(key) {
            let scope = self.scopes[key];
            let w = self.waits[id];
            StateView {
                scopes: self.scopes.insert(
                    key,
                    IoScopeView { waits: scope.waits.push(id), ..scope },
                ),
                waits: self.waits.insert(
                    id,
                    WaitData { scope_refs: (w.scope_refs + 1) as u64, ..w },
                ),
                ..self
            }
        } else {
            self
        }
    }

    /// With the wait `id` marked as standing in a list, and the begin of the wait
    /// traced, unless it stands in one already.
    pub open spec fn wait_linked(self, id: u64, tag: u32) -> Self {
        let w = self.waits[id];
        if w.linked {
            self
        } else {
            StateView { waits: self.waits.insert(id, WaitData { linked: true, ..w }), ..self }.traced(
                w.task_id,
                Events::AsyncWaitStart { activity_id: w.activity_id, tag },
            )
        }
    }

    /// The data of a first wait of the running task.
    pub open spec fn new_wait(self, waker: Waker, tag: u32, expected: bool) -> WaitData {
        let t = self.tasks[self.current_task->0];
        WaitData {
            activity_id: t.activity_id,
            waker: Some(waker),
            task_id: t.task_index,
            canceled: false,
            tag,
            expected,
            linked: false,
            held: true,
            scope_refs: 0,
        }
    }

    /// With the data of a wait ready to be linked: made at the first poll, with a new
    /// waker at later ones.
    pub open spec fn wait_prepared(
        self,
        wait: Option<u64>,
        waker: Waker,
        tag: u32,
        expected: bool,
    ) -> Self {
        match wait {
            Some(id) => StateView {
                waits: self.waits.insert(id, WaitData { waker: Some(waker), ..self.waits[id] }),
                ..self
            },
            None => StateView {
                waits: self.waits.insert(self.next_wait, self.new_wait(waker, tag, expected)),
                next_wait: (self.next_wait + 1) as u64,
                ..self
            },
        }
    }
}

/// A poll of a wait in `list` by the running task. `complete` says whether what is
/// waited for has come.
///
/// A canceled wait reports that once. An aborted task wakes the whole list, as it may
/// hold it up no longer. Otherwise the wait ends where `complete`, and else stands in
/// the list, at its end if it did not stand there already.
pub open spec fn wait_poll(
    s: StateView,
    list: Seq<u64>,
    alive: bool,
    wait: Option<u64>,
    complete: bool,
    waker: Waker,
    tag: u32,
    expected: bool,
) -> WaitStep {
    if s.wait_canceled(wait) {
        let id = wait->0;
        WaitStep {
            state: StateView {
                waits: s.waits.insert(id, WaitData { canceled: false, ..s.waits[id] }),
                ..s
            },
            list,
            alive,
            wait,
            outcome: WaitPoll::Canceled,
        }
    } else if s.tasks[s.current_task->0].ready == TaskReadyState::Aborted {
        WaitStep {
            state: if alive {
                s.wake_waits(list)
            } else {
                s
            },
            list: if alive {
                Seq::empty()
            } else {
                list
            },
            alive,
            wait,
            outcome: WaitPoll::Aborted,
        }
    } else if complete {
        WaitStep { state: s, list, alive: false, wait, outcome: WaitPoll::Ready }
    } else {
        let id = match wait {
            Some(id) => id,
            None => s.next_wait,
        };
        let prepared = s.wait_prepared(wait, waker, tag, expected);
        WaitStep {
            state: prepared.wait_linked(id, tag).scope_noted(s.current_task->0, id),
            list: if prepared.waits[id].linked {
                list
            } else {
                list.push(id)
            },
            alive: true,
            wait: Some(id),
            outcome: WaitPoll::Pending,
        }
    }
}

impl StateView {
    /// With `list` as those who wait for task `key`, where it is live.
    pub open spec fn with_joining(self, key: u64, list: Seq<u64>) -> Self {
        if self.tasks.contains_key(key) {
            self.with_task(key, TaskView { joining: list, ..self.tasks[key] })
        } else {
            self
        }
    }

    /// Those who wait for task `key` to complete.
    pub open spec fn joining(self, key: u64) -> Seq<u64> {
        if self.tasks.contains_key(key) {
            self.tasks[key].joining
        } else {
            Seq::empty()
        }
    }
}

/// A poll of a wait for task `key` to complete, by the running task: a wait in the
/// list of those who wait for that task.
pub open spec fn join_poll(
    s: StateView,
    key: u64,
    alive: bool,
    wait: Option<u64>,
    waker: Waker,
    tag: u32,
) -> WaitStep {
    let r = wait_poll(
        s.with_joining(key, Seq::empty()),
        s.joining(key),
        alive,
        wait,
        s.ready_state(key) == TaskReadyState::Complete,
        waker,
        tag,
        true,
    );
    WaitStep { state: r.state.with_joining(key, r.list), ..r }
}

/// The end of a future that waited for task `key`.
pub open spec fn join_drop(s: StateView, key: u64, alive: bool, wait: Option<u64>) -> StateView {
    let r = wait_drop(s.with_joining(key, Seq::empty()), s.joining(key), alive, wait);
    r.0.with_joining(key, r.1)
}

/// What a poll of a wait needs: the future still waits, unless the poll has something
/// else to report; its data exists; and a task is running.
pub open spec fn wait_pollable(s: StateView, alive: bool, wait: Option<u64>) -> bool {
    &&& wait matches Some(id) ==> s.waits.contains_key(id) && s.waits[id].scope_refs < u64::MAX
    &&& s.wait_canceled(wait) || {
        &&& s.running()
        &&& alive || s.tasks[s.current_task->0].ready == TaskReadyState::Aborted
    }
    &&& s.next_wait < u64::MAX
}

/// The end of a future that waited: its wait leaves the list if the future still
/// waited, and is forgotten where nothing else refers to it.
pub open spec fn wait_drop(
    s: StateView,
    list: Seq<u64>,
    alive: bool,
    wait: Option<u64>,
) -> (StateView, Seq<u64>) {
    match wait {
        Some(id) if s.waits.contains_key(id) => {
            let w = s.waits[id];
            if alive && w.linked {
                (
                    s.with_wait(id, WaitData { linked: false, held: false, ..w }),
                    list.filter(not_id(id)),
                )
            } else {
                (s.with_wait(id, WaitData { held: false, ..w }), list)
            }
        },
        _ => (s, list),
    }
}

/// List entries other than `id`.
pub open spec fn not_id(id: u64) -> spec_fn(u64) -> bool {
    |x: u64| x != id
}

/// A task that is running or suspended can be marked ready or aborted and put into
/// the ready list that its waker's priority calls for.
pub proof fn lemma_enqueue_keeps_valid(s: StateView, key: u64, ready: TaskReadyState)
    requires
        s.valid(),
        s.tasks.contains_key(key),
        s.tasks[key].ready == TaskReadyState::Running || s.tasks[key].ready
            == TaskReadyState::Suspend,
        ready == TaskReadyState::Ready || ready == TaskReadyState::Aborted,
    ensures
        s.with_ready(key, ready).enqueued(key).valid(),
{
    let e = s.with_ready(key, ready).enqueued(key);
    lemma_push(s.fill, key);
    lemma_push(s.ready_io, key);
    assert(!s.queued(key));
    assert(e.tasks.dom() =~= s.tasks.dom());
}

/// Scheduling a task for I/O keeps the thread valid: in particular no task stands
/// twice in the ready lists, and every ready one stands there.
pub proof fn law_schedule_io_keeps_valid(s: StateView, key: u64)
    requires
        s.valid(),
    ensures
        s.schedule_io(key).valid(),
{
    match s.ready_state(key) {
        TaskReadyState::Running | TaskReadyState::Suspend => {
            lemma_enqueue_keeps_valid(s, key, TaskReadyState::Ready);
        },
        _ => {},
    }
}

/// Scheduling a task for the CPU keeps the thread valid.
pub proof fn law_schedule_cpu_keeps_valid(s: StateView, key: u64)
    requires
        s.valid(),
    ensures
        s.schedule_cpu(key).valid(),
{
    let e = s.schedule_cpu(key);
    lemma_push(s.ready_cpu, key);
    match s.ready_state(key) {
        TaskReadyState::Running | TaskReadyState::Suspend => {
            assert(!s.queued(key));
            assert(e.tasks.dom() =~= s.tasks.dom());
        },
        _ => {},
    }
}

/// A wake-up keeps the thread valid.
pub proof fn law_wake_keeps_valid(s: StateView, waker: Waker)
    requires
        s.valid(),
    ensures
        s.wake(waker).valid(),
{
    match waker {
        Waker::Task(key) => law_schedule_io_keeps_valid(s, key),
        Waker::Foreign(id) => {},
    }
}

/// Waking a wait keeps the thread valid.
pub proof fn law_wake_wait_keeps_valid(s: StateView, id: u64)
    requires
        s.valid(),
    ensures
        s.wake_wait(id).valid(),
{
    if s.waits.contains_key(id) {
        let w = s.waits[id];
        let unlinked = s.traced(
            w.task_id,
            Events::AsyncWaitEnd { activity_id: w.activity_id, tag: w.tag },
        ).with_wait(id, WaitData { linked: false, ..w });
        assert(unlinked.valid());
        if let Some(waker) = w.waker {
            law_wake_keeps_valid(unlinked, waker);
        }
    }
}

/// Waking waits keeps the thread valid, and touches neither the tasks that exist nor
/// their indices.
pub proof fn law_wake_waits_keeps_valid(s: StateView, ids: Seq<u64>)
    requires
        s.valid(),
    ensures
        s.wake_waits(ids).valid(),
        s.wake_waits(ids).tasks.dom() == s.tasks.dom(),
        s.wake_waits(ids).indices == s.indices,
        s.wake_waits(ids).task_count == s.task_count,
        s.wake_waits(ids).completed_tasks == s.completed_tasks,
        s.wake_waits(ids).current_task == s.current_task,
        forall|k: u64| #[trigger]
            s.tasks.contains_key(k) ==> {
                &&& s.wake_waits(ids).tasks[k].task_index == s.tasks[k].task_index
                &&& s.tasks[k].ready == TaskReadyState::Complete ==> s.wake_waits(ids).tasks[k]
                    == s.tasks[k]
            },
    decreases ids.len(),
{
    if ids.len() > 0 {
        let t = s.wake_waits(ids.drop_last());
        law_wake_waits_keeps_valid(s, ids.drop_last());
        law_wake_wait_keeps_valid(t, ids.last());
        assert(t.wake_wait(ids.last()).tasks.dom() =~= t.tasks.dom());
        assert forall|k: u64| #[trigger] s.tasks.contains_key(k) implies {
            &&& s.wake_waits(ids).tasks[k].task_index == s.tasks[k].task_index
            &&& s.tasks[k].ready == TaskReadyState::Complete ==> s.wake_waits(ids).tasks[k]
                == s.tasks[k]
        } by {
            assert(t.tasks.contains_key(k));
        }
    }
}

/// A new task keeps the thread valid.
pub proof fn law_schedule_new_keeps_valid(s: StateView, activity_id: u128, tenant_id: u128)
    requires
        s.valid(),
        s.indices.available(),
        s.next_key < u64::MAX,
        s.task_count < usize::MAX,
    ensures
        s.schedule_new(activity_id, tenant_id).valid(),
{
    let n = s.schedule_new(activity_id, tenant_id);
    let key = s.next_key;
    lemma_push(s.fill, key);
    lemma_push(s.ready_io, key);
    assert(!s.tasks.contains_key(key));
    assert(n.tasks.dom() =~= s.tasks.dom().insert(key));
    let i = s.indices.next_index();
    if s.indices.free.len() > 0 {
        lemma_drop_last(s.indices.free);
    }
    assert forall|k: u64| #[trigger] n.tasks.contains_key(k) implies n.indices.used(
        n.tasks[k].task_index,
    ) by {
        if k != key {
            assert(s.tasks.contains_key(k));
        }
    }
    assert forall|k: u64| #[trigger] s.tasks.contains_key(k) implies s.tasks[k].task_index != i by {
        assert(s.indices.used(s.tasks[k].task_index));
    }
    assert(n.indices_match());
}

/// The completion of a task keeps the thread valid: its index is free again, and no
/// live task has it.
pub proof fn law_complete_keeps_valid(s: StateView, key: u64)
    requires
        s.valid(),
        s.tasks.contains_key(key),
    ensures
        s.complete(key).valid(),
        !s.complete(key).tasks.contains_key(key),
{
    let t = s.tasks[key];
    let done = TaskView { ready: TaskReadyState::Complete, joining: Seq::empty(), ..t };
    let begun = s.with_task(key, done);
    assert(begun.tasks.dom() =~= s.tasks.dom());
    assert(begun.valid());
    law_wake_waits_keeps_valid(begun, t.joining);
    let woken = begun.wake_waits(t.joining);
    let c = s.complete(key);
    assert(woken.tasks.contains_key(key));
    assert(woken.tasks[key].task_index == t.task_index);
    assert(c.tasks.dom() =~= woken.tasks.dom().remove(key));
    lemma_push(woken.indices.free, t.task_index);
    assert(woken.indices.used(t.task_index));
    assert(c.indices.valid()) by {
        assert forall|i: int| 0 <= i < c.indices.free.len() implies 1
            <= #[trigger] c.indices.free[i] < c.indices.next by {}
    }
    assert forall|k: u64| #[trigger] c.tasks.contains_key(k) implies c.indices.used(
        c.tasks[k].task_index,
    ) by {
        assert(woken.tasks.contains_key(k) && k != key);
    }
}

/// Promoting the ready tasks to a cohort keeps the thread valid.
pub proof fn law_prepare_cohort_keeps_valid(s: StateView)
    requires
        s.valid(),
    ensures
        s.prepare_cohort().valid(),
{
}

/// Taking the next task to poll keeps the thread valid: the task that starts to run
/// stands in no ready list.
pub proof fn law_get_ready_keeps_valid(s: StateView)
    requires
        s.valid(),
    ensures
        s.get_ready().valid(),
{
    let g = s.get_ready();
    if s.ready_io.len() > 0 {
        lemma_drop_first(s.ready_io);
        assert(g.tasks.dom() =~= s.tasks.dom());
    } else if !s.last_ready_cpu && s.ready_cpu.len() > 0 {
        lemma_drop_first(s.ready_cpu);
        assert(g.tasks.dom() =~= s.tasks.dom());
    }
}

/// Aborting a task keeps the thread valid.
pub proof fn law_abort_keeps_valid(s: StateView, key: u64)
    requires
        s.valid(),
    ensures
        s.abort(key).valid(),
{
    match s.ready_state(key) {
        TaskReadyState::Suspend => {
            lemma_enqueue_keeps_valid(s, key, TaskReadyState::Aborted);
        },
        TaskReadyState::Ready => {
            assert(s.abort(key).tasks.dom() =~= s.tasks.dom());
        },
        _ => {},
    }
}

/// A poll of a wait keeps the thread valid.
pub proof fn law_wait_poll_keeps_valid(
    s: StateView,
    list: Seq<u64>,
    alive: bool,
    wait: Option<u64>,
    complete: bool,
    waker: Waker,
    tag: u32,
    expected: bool,
)
    requires
        s.valid(),
        wait_pollable(s, alive, wait),
    ensures
        wait_poll(s, list, alive, wait, complete, waker, tag, expected).state.valid(),
{
    law_wake_waits_keeps_valid(s, list);
    let r = wait_poll(s, list, alive, wait, complete, waker, tag, expected);
    assert(r.state.valid());
}

/// A wait that a poll left pending stands in its list, under a waker that reaches the
/// task that polled last.
pub proof fn law_pending_wait_is_linked(
    s: StateView,
    list: Seq<u64>,
    alive: bool,
    wait: Option<u64>,
    complete: bool,
    waker: Waker,
    tag: u32,
    expected: bool,
)
    requires
        s.valid(),
        wait_pollable(s, alive, wait),
        wait matches Some(id) ==> (s.waits[id].linked ==> list.contains(id)),
    ensures
        ({
            let r = wait_poll(s, list, alive, wait, complete, waker, tag, expected);
            r.outcome == WaitPoll::Pending ==> {
                &&& r.wait is Some
                &&& r.list.contains(r.wait->0)
                &&& r.state.waits.contains_key(r.wait->0)
                &&& r.state.waits[r.wait->0].linked
                &&& r.state.waits[r.wait->0].waker == Some(waker)
            }
        }),
{
    let id = match wait {
        Some(id) => id,
        None => s.next_wait,
    };
    lemma_push(list, id);
}

/// A wait list of a thread: no wait stands there twice, and each is marked as linked.
pub open spec fn list_ok(s: StateView, list: Seq<u64>) -> bool {
    &&& list.no_duplicates()
    &&& forall|i: int|
        0 <= i < list.len() ==> s.waits.contains_key(#[trigger] list[i]) && s.waits[list[i]].linked
}

/// Polls keep a wait list in order: no wait comes to stand there twice.
pub proof fn law_wait_poll_keeps_list(
    s: StateView,
    list: Seq<u64>,
    alive: bool,
    wait: Option<u64>,
    complete: bool,
    waker: Waker,
    tag: u32,
    expected: bool,
)
    requires
        s.valid(),
        wait_pollable(s, alive, wait),
        list_ok(s, list),
    ensures
        ({
            let r = wait_poll(s, list, alive, wait, complete, waker, tag, expected);
            list_ok(r.state, r.list)
        }),
{
    let r = wait_poll(s, list, alive, wait, complete, waker, tag, expected);
    let id = match wait {
        Some(id) => id,
        None => s.next_wait,
    };
    lemma_push(list, id);
    if list.contains(id) {
        let i = choose|i: int| 0 <= i < list.len() && list[i] == id;
        assert(s.waits.contains_key(list[i]));
    }
}

/// A future that goes leaves a wait list in order, and no longer stands there if it
/// still waited.
pub proof fn law_wait_drop_keeps_list(s: StateView, list: Seq<u64>, alive: bool, id: u64)
    requires
        list_ok(s, list),
        s.waits.contains_key(id),
    ensures
        ({
            let r = wait_drop(s, list, alive, Some(id));
            list_ok(r.0, r.1) && (alive && s.waits[id].linked ==> !r.1.contains(id))
        }),
{
    let r = wait_drop(s, list, alive, Some(id));
    lemma_filter_no_duplicates(list, not_id(id));
    assert forall|i: int| 0 <= i < r.1.len() implies r.0.waits.contains_key(#[trigger] r.1[i])
        && r.0.waits[r.1[i]].linked by {
        if alive && s.waits[id].linked {
            lemma_filter_keeps(list, not_id(id), i);
        }
    }
    if alive && s.waits[id].linked && r.1.contains(id) {
        let i = choose|i: int| 0 <= i < r.1.len() && r.1[i] == id;
        lemma_filter_keeps(list, not_id(id), i);
    }
}

/// Giving an operation up keeps the thread valid: what is in the pool has no other
/// owner.
pub proof fn law_return_completion_keeps_valid(s: StateView, id: u64)
    requires
        s.valid(),
    ensures
        s.return_completion(id).valid(),
{
    let r = s.return_completion(id);
    lemma_push(s.completion_pool, id);
    if s.completions.contains_key(id) && !s.completions[id].pooled {
        assert(!s.completion_pool.contains(id)) by {
            if s.completion_pool.contains(id) {
                let i = choose|i: int|
                    0 <= i < s.completion_pool.len() && s.completion_pool[i] == id;
                assert(s.completions[s.completion_pool[i]].pooled);
            }
        }
        assert forall|i: int| 0 <= i < s.completion_pool.len() implies #[trigger] s.completion_pool[i]
            != id by {
            assert(s.completion_pool.contains(s.completion_pool[i]));
        }
        assert(r.pool_ok());
    }
}

/// A new operation keeps the thread valid, and has no other owner than who asked for
/// it.
pub proof fn law_new_completion_keeps_valid(s: StateView, completion: Completion)
    requires
        s.valid(),
        s.next_completion < u64::MAX,
    ensures
        s.new_completion(completion).valid(),
        s.new_completion(completion).completions[s.next_completion_id()].refs == 1,
        !s.new_completion(completion).completion_pool.contains(s.next_completion_id()),
{
    let r = s.new_completion(completion);
    if s.completion_pool.len() > 0 {
        lemma_drop_first(s.completion_pool);
        assert(s.completions.contains_key(s.completion_pool[0]));
        assert forall|i: int| 0 <= i < r.completion_pool.len() implies r.completions.contains_key(
            #[trigger] r.completion_pool[i],
        ) && r.completions[r.completion_pool[i]].refs == 1
            && r.completions[r.completion_pool[i]].pooled by {
            assert(r.completion_pool[i] == s.completion_pool[i + 1]);
            assert(r.completion_pool.contains(r.completion_pool[i]));
        }
        assert(r.pool_ok());
    } else {
        if s.completion_pool.contains(s.next_completion) {
            assert(false);
        }
    }
}

/// A change of an operation's state keeps the thread valid.
pub proof fn lemma_io_state_keeps_valid(s: StateView, id: u64, state: CompletionState)
    requires
        s.valid(),
        s.completions.contains_key(id),
    ensures
        s.with_io_state(id, state).valid(),
{
    assert(s.with_io_state(id, state).pool_ok());
}

/// Canceling an operation keeps the thread valid.
pub proof fn law_cancel_completion_keeps_valid(s: StateView, id: u64)
    requires
        s.valid(),
    ensures
        s.cancel_completion(id).valid(),
{
    if s.completions.contains_key(id) {
        let c = s.completions[id].completion;
        match c.state {
            CompletionState::Idle { timespec: _ } => {
                lemma_io_state_keeps_valid(
                    s,
                    id,
                    CompletionState::Completed { result: Err(Errno { code: ECANCELED }) },
                );
            },
            CompletionState::Submitted { waker, activity_id, tag, canceled: false } => {
                lemma_io_state_keeps_valid(
                    s,
                    id,
                    CompletionState::Submitted { waker, activity_id, tag, canceled: true },
                );
            },
            _ => {},
        }
    }
}

/// What a cancellation does to an operation, by how far that got: one that the kernel does
/// not have ends as canceled and nothing is asked of the kernel; one in the kernel is
/// marked, and the kernel is asked once to cancel it; any other stays as it is.
pub proof fn law_cancel_goes_by_state(s: StateView, id: u64)
    requires
        s.completions.contains_key(id),
    ensures
        ({
            let t = s.cancel_completion(id);
            let c = s.completions[id].completion;
            &&& t.completions.contains_key(id)
            &&& match c.state {
                CompletionState::Idle { timespec: _ } => {
                    &&& t.completions[id].completion.state == (CompletionState::Completed {
                        result: Err(Errno { code: ECANCELED }),
                    })
                    &&& t.cancels == s.cancels
                    &&& t.stats == s.stats
                },
                CompletionState::Submitted { waker, activity_id, tag, canceled: false } => {
                    &&& t.completions[id].completion.state == (CompletionState::Submitted {
                        waker,
                        activity_id,
                        tag,
                        canceled: true,
                    })
                    &&& t.cancels == s.cancels.push(
                        CancelRequest { completion: id, iopoll: c.iopoll },
                    )
                    &&& t.stats == s.stats.with_in_flight(
                        c.iopoll,
                        (s.stats.in_flight(c.iopoll) + 1) as u64,
                    )
                },
                _ => t == s,
            }
            &&& t.cancel_completion(id) == t
        }),
{
    law_cancel_completion_once(s, id);
}

/// Canceling an operation twice is canceling it once.
pub proof fn law_cancel_completion_once(s: StateView, id: u64)
    ensures
        s.cancel_completion(id).cancel_completion(id) == s.cancel_completion(id),
{
}

/// A completion that the kernel reports keeps the thread valid, and touches no other
/// operation.
pub proof fn law_io_completed_keeps_valid(s: StateView, cqe: Cqe)
    requires
        s.valid(),
        cqe.user_data matches Some(id) ==> s.in_kernel(id),
    ensures
        s.io_completed(cqe).valid(),
        forall|id: u64| #[trigger]
            s.in_kernel(id) && cqe.user_data != Some(id) ==> s.io_completed(cqe).in_kernel(id),
        s.io_completed(cqe).stats == s.stats,
{
    if let Some(id) = cqe.user_data {
        let c = s.completions[id].completion;
        if let CompletionState::Submitted { waker, activity_id, tag, canceled } = c.state {
            let result = reported_result(cqe.result, canceled);
            let traced = s.traced(
                c.task_index,
                Events::IoEnd { activity_id, result: result_code(result), tag },
            );
            let done = traced.with_io_state(id, CompletionState::Completed { result });
            lemma_io_state_keeps_valid(traced, id, CompletionState::Completed { result });
            law_return_completion_keeps_valid(done, id);
            law_wake_keeps_valid(done.return_completion(id), waker);
        }
    }
}

/// A canceled wait keeps the thread valid.
pub proof fn law_cancel_wait_keeps_valid(s: StateView, id: u64)
    requires
        s.valid(),
    ensures
        s.cancel_wait(id).valid(),
{
    if s.waits.contains_key(id) {
        let w = s.waits[id];
        let marked = s.with_wait(
            id,
            WaitData {
                canceled: true,
                scope_refs: if w.scope_refs > 0 {
                    (w.scope_refs - 1) as u64
                } else {
                    0
                },
                ..w
            },
        );
        assert(marked.valid());
        if let Some(waker) = w.waker {
            law_wake_keeps_valid(marked, waker);
        }
    }
}

/// The begin of a poll keeps the thread valid.
pub proof fn law_poll_begun_keeps_valid(s: StateView, key: u64)
    requires
        s.valid(),
        s.tasks.contains_key(key),
    ensures
        s.poll_begun(key).valid(),
{
}

/// The end of a poll keeps the thread valid.
pub proof fn law_poll_ended_keeps_valid(s: StateView, run: TaskRun, complete: bool, cpu: u16)
    requires
        s.valid(),
        s.tasks.contains_key(run.key),
    ensures
        s.poll_ended(run, complete, cpu).valid(),
{
    if complete {
        law_complete_keeps_valid(s, run.key);
    } else {
        assert(s.poll_pending(run.key).tasks.dom() =~= s.tasks.dom());
        assert(s.poll_pending(run.key).valid());
    }
}

/// A task that a poll left pending can run again: it is suspended, to be woken, or it
/// stands in a ready list, or it was aborted.
pub proof fn law_pending_task_is_not_lost(s: StateView, run: TaskRun, cpu: u16)
    requires
        s.valid(),
        s.tasks.contains_key(run.key),
    ensures
        ({
            let r = s.poll_ended(run, false, cpu);
            match r.ready_state(run.key) {
                TaskReadyState::Suspend => !r.queued(run.key),
                TaskReadyState::Ready => r.queued(run.key),
                TaskReadyState::Running => false,
                TaskReadyState::Unknown => false,
                TaskReadyState::Aborted => s.ready_state(run.key) == TaskReadyState::Aborted,
                TaskReadyState::Complete => s.ready_state(run.key) == TaskReadyState::Complete,
            }
        }),
{
    law_poll_ended_keeps_valid(s, run, false, cpu);
    assert(s.poll_ended(run, false, cpu).tasks.contains_key(run.key));
}

/// A task that completed is never polled again: whatever wakes it, it is not scheduled.
pub proof fn law_complete_task_is_not_scheduled(s: StateView, key: u64)
    requires
        s.valid(),
        s.tasks.contains_key(key),
    ensures
        s.complete(key).ready_state(key) == TaskReadyState::Complete,
        s.complete(key).schedule_io(key) == s.complete(key),
        s.complete(key).schedule_cpu(key) == s.complete(key),
        s.complete(key).abort(key) == s.complete(key),
{
    law_complete_keeps_valid(s, key);
}

/// A wake-up of a task that is ready changes nothing: a task is polled once however
/// often it was woken.
pub proof fn law_second_wake_changes_nothing(s: StateView, key: u64)
    requires
        s.valid(),
    ensures
        s.schedule_io(key).schedule_io(key) == s.schedule_io(key),
        s.schedule_cpu(key).schedule_io(key) == s.schedule_cpu(key),
        s.schedule_io(key).schedule_cpu(key) == s.schedule_io(key),
{
}

/// A suspended task that is woken stands in a ready list.
pub proof fn law_woken_task_is_queued(s: StateView, key: u64)
    requires
        s.valid(),
        s.ready_state(key) == TaskReadyState::Suspend,
    ensures
        s.wake(Waker::Task(key)).queued(key),
{
    law_schedule_io_keeps_valid(s, key);
    assert(s.schedule_io(key).tasks.contains_key(key));
}

/// Tasks that become ready run in the order in which they became ready: the next cohort
/// is polled as it was filled.
pub proof fn law_cohort_is_fifo(s: StateView)
    requires
        s.valid(),
        s.ready_io.len() == 0,
        s.fill.len() > 0,
    ensures
        s.prepare_cohort().ready_io == s.fill,
        s.prepare_cohort().next_ready() == Some(s.fill[0]),
        s.prepare_cohort().get_ready().ready_io == s.fill.drop_first(),
{
}

/// Tasks with CPU priority wait for those with I/O priority, and do not run twice
/// without the kernel being entered in between.
pub proof fn law_cpu_tasks_come_last(s: StateView)
    ensures
        s.ready_io.len() > 0 ==> s.next_ready() == Some(s.ready_io[0]),
        s.last_ready_cpu && s.ready_io.len() == 0 ==> s.next_ready() is None,
        s.next_ready() is Some && s.ready_io.len() == 0 ==> s.get_ready().last_ready_cpu,
{
}

/// The trace of an operation's end names the activity and the tag under which the
/// operation was submitted, whatever task is current then.
pub proof fn law_io_end_names_the_activity(
    s: StateView,
    id: u64,
    waker: Waker,
    activity_id: u128,
    tag: u32,
    result: Result<u32, Errno>,
)
    requires
        s.trace.enabled,
        s.completions.contains_key(id),
        s.completions[id].completion.state is Idle,
    ensures
        ({
            let cqe = Cqe { user_data: Some(id), result };
            let events = s.io_submitted(id, waker, activity_id, tag).io_completed(
                cqe,
            ).trace.events;
            let n = s.trace.events.len() as int;
            events.len() > n && events[n].event == (Events::IoEnd {
                activity_id,
                tag,
                result: result_code(reported_result(result, false)),
            })
        }),
{
}

/// An operation is counted off as often as it was counted: once, or twice where it has a
/// timeout of its own.
pub proof fn law_in_flight_is_balanced(
    s: StateView,
    id: u64,
    waker: Waker,
    activity_id: u128,
    tag: u32,
    cqes: Seq<Cqe>,
)
    requires
        s.valid(),
        s.completions.contains_key(id),
        s.completions[id].completion.state is Idle,
        !s.completions[id].pooled,
        s.completions[id].refs < u64::MAX,
        s.stats.in_flight(s.completions[id].completion.iopoll) + 2 <= u64::MAX,
        s.io_submitted(id, waker, activity_id, tag).can_complete(cqes),
        cqes.len() == (if s.completions[id].completion.state->Idle_timespec {
            2int
        } else {
            1int
        }),
    ensures
        ({
            let iopoll = s.completions[id].completion.iopoll;
            s.io_submitted(id, waker, activity_id, tag).all_io_completed(cqes).more_in_flight(
                iopoll,
                -(cqes.len() as int),
            ).stats == s.stats
        }),
{
    let submitted = s.io_submitted(id, waker, activity_id, tag);
    assert(submitted.pool_ok());
    lemma_all_io_completed(submitted, cqes);
}

/// Taking in completions keeps the thread valid and leaves the counters alone.
pub proof fn lemma_all_io_completed(s: StateView, cqes: Seq<Cqe>)
    requires
        s.valid(),
        s.can_complete(cqes),
    ensures
        s.all_io_completed(cqes).valid(),
        s.all_io_completed(cqes).stats == s.stats,
        forall|id: u64| #[trigger]
            s.in_kernel(id) && (forall|i: int|
                0 <= i < cqes.len() ==> (#[trigger] cqes[i]).user_data != Some(id))
                ==> s.all_io_completed(cqes).in_kernel(id),
    decreases cqes.len(),
{
    if cqes.len() > 0 {
        let front = cqes.drop_last();
        assert(s.can_complete(front)) by {
            assert forall|i: int| 0 <= i < front.len() implies front[i] == cqes[i] by {}
        }
        lemma_all_io_completed(s, front);
        let t = s.all_io_completed(front);
        if let Some(id) = cqes.last().user_data {
            assert(s.in_kernel(id)) by {
                assert(cqes[cqes.len() - 1].user_data is Some);
            }
            assert forall|i: int| 0 <= i < front.len() implies (#[trigger] front[i]).user_data
                != Some(id) by {
                assert(cqes[i] == front[i]);
                assert(cqes[cqes.len() - 1].user_data == Some(id));
            }
        }
        law_io_completed_keeps_valid(t, cqes.last());
        assert forall|id: u64| #[trigger]
            s.in_kernel(id) && (forall|i: int|
                0 <= i < cqes.len() ==> (#[trigger] cqes[i]).user_data != Some(
                    id,
                )) implies s.all_io_completed(cqes).in_kernel(id) by {
            assert forall|i: int| 0 <= i < front.len() implies (#[trigger] front[i]).user_data
                != Some(id) by {
                assert(cqes[i] == front[i]);
            }
            assert(t.in_kernel(id));
            assert(cqes[cqes.len() - 1].user_data != Some(id));
        }
    }
}

/// The completions that a call into the kernel takes in, those of timeouts among them, are
/// counted off its ring, one by one, and off no other.
pub proof fn law_completions_are_counted_off(
    s: StateView,
    enter: RingEnter,
    submissions: u64,
    now: u64,
    hint: u64,
    cqes: Seq<Cqe>,
)
    requires
        s.valid(),
        s.can_complete(cqes),
        cqes.len() <= s.stats.in_flight(enter.iopoll),
    ensures
        s.enter_ended(enter, submissions, now, hint, cqes).stats == s.stats.with_in_flight(
            enter.iopoll,
            (s.stats.in_flight(enter.iopoll) - cqes.len()) as u64,
        ),
{
    let t = s.enter_stopped(enter.want, now).enter_traced(enter, submissions, hint);
    assert(t.valid());
    assert(t.can_complete(cqes)) by {
        assert forall|i: int| 0 <= i < cqes.len() && (#[trigger] cqes[i]).user_data is Some implies
            t.in_kernel(cqes[i].user_data->0) by {
            assert(s.in_kernel(cqes[i].user_data->0));
        }
    }
    lemma_all_io_completed(t, cqes);
}

/// A handing of an operation to the kernel.
pub struct Submission {
    pub id: u64,
    pub waker: Waker,
    pub activity_id: u128,
    pub tag: u32,
}

impl StateView {
    /// After operations were handed to the kernel, in order.
    pub open spec fn all_io_submitted(self, subs: Seq<Submission>) -> Self
        decreases subs.len(),
    {
        if subs.len() == 0 {
            self
        } else {
            let b = subs.last();
            self.all_io_submitted(subs.drop_last()).io_submitted(
                b.id,
                b.waker,
                b.activity_id,
                b.tag,
            )
        }
    }
}

/// However many operations with timeouts of their own were handed to a ring, when all
/// their completions, two for each, were taken in, the counters are what they were.
pub proof fn law_linked_timeouts_are_balanced(
    s: StateView,
    subs: Seq<Submission>,
    enter: RingEnter,
    submissions: u64,
    now: u64,
    hint: u64,
    cqes: Seq<Cqe>,
)
    requires
        all_with_timeouts(s, subs, enter.iopoll),
        s.stats.in_flight(enter.iopoll) + 2 * subs.len() <= u64::MAX,
        s.all_io_submitted(subs).valid(),
        s.all_io_submitted(subs).can_complete(cqes),
        cqes.len() == 2 * subs.len(),
    ensures
        s.all_io_submitted(subs).enter_ended(enter, submissions, now, hint, cqes).stats == s.stats,
{
    lemma_all_io_submitted(s, subs, enter.iopoll);
    law_completions_are_counted_off(
        s.all_io_submitted(subs),
        enter,
        submissions,
        now,
        hint,
        cqes,
    );
}

/// Whether these are different operations that were not handed to the kernel, each with a
/// timeout of its own, all for the same ring.
pub open spec fn all_with_timeouts(s: StateView, subs: Seq<Submission>, iopoll: bool) -> bool {
    &&& forall|i: int|
        0 <= i < subs.len() ==> s.completions.contains_key((#[trigger] subs[i]).id)
            && s.completions[subs[i].id].completion.state == (CompletionState::Idle {
            timespec: true,
        }) && s.completions[subs[i].id].completion.iopoll == iopoll
    &&& forall|i: int, j: int|
        0 <= i < j < subs.len() ==> (#[trigger] subs[i]).id != (#[trigger] subs[j]).id
}

proof fn lemma_all_io_submitted(s: StateView, subs: Seq<Submission>, iopoll: bool)
    requires
        all_with_timeouts(s, subs, iopoll),
        s.stats.in_flight(iopoll) + 2 * subs.len() <= u64::MAX,
    ensures
        s.all_io_submitted(subs).stats == s.stats.with_in_flight(
            iopoll,
            (s.stats.in_flight(iopoll) + 2 * subs.len()) as u64,
        ),
        forall|id: u64|
            (forall|i: int| 0 <= i < subs.len() ==> (#[trigger] subs[i]).id != id)
                && #[trigger] s.completions.contains_key(id) ==> s.all_io_submitted(
                subs,
            ).completions.contains_key(id) && s.all_io_submitted(subs).completions[id]
                == s.completions[id],
    decreases subs.len(),
{
    if subs.len() > 0 {
        let front = subs.drop_last();
        let b = subs.last();
        assert forall|i: int| 0 <= i < front.len() implies front[i] == #[trigger] subs[i] by {}
        assert(subs[subs.len() - 1] == b);
        lemma_all_io_submitted(s, front, iopoll);
        let t = s.all_io_submitted(front);
        assert(s.completions.contains_key(b.id));
        assert(t.completions[b.id] == s.completions[b.id]) by {
            assert forall|i: int| 0 <= i < front.len() implies (#[trigger] front[i]).id != b.id by {
                assert(subs[i].id != subs[subs.len() - 1].id);
            }
        }
        assert forall|id: u64|
            (forall|i: int| 0 <= i < subs.len() ==> (#[trigger] subs[i]).id != id)
                && #[trigger] s.completions.contains_key(id) implies s.all_io_submitted(
            subs,
        ).completions.contains_key(id) && s.all_io_submitted(subs).completions[id]
            == s.completions[id] by {
            assert(b.id != id);
            assert forall|i: int| 0 <= i < front.len() implies (#[trigger] front[i]).id != id by {
                assert(subs[i].id != id);
            }
        }
    }
}

/// Whether a task can come to be polled by a wake-up: it runs, is suspended, or is ready.
pub open spec fn wakeable(s: StateView, key: u64) -> bool {
    s.tasks.contains_key(key) && (s.tasks[key].ready == TaskReadyState::Running
        || s.tasks[key].ready == TaskReadyState::Suspend || s.tasks[key].ready
        == TaskReadyState::Ready)
}

proof fn lemma_wake_waits_elsewhere(s: StateView, ids: Seq<u64>, id: u64, key: u64)
    requires
        wakeable(s, key),
        s.waits.contains_key(id),
        !ids.contains(id),
    ensures
        ({
            let t = s.wake_waits(ids);
            &&& wakeable(t, key)
            &&& s.tasks[key].ready == TaskReadyState::Ready ==> t.tasks[key].ready
                == TaskReadyState::Ready
            &&& t.waits.contains_key(id)
            &&& t.waits[id] == s.waits[id]
        }),
    decreases ids.len(),
{
    if ids.len() > 0 {
        let front = ids.drop_last();
        assert forall|x: u64| front.contains(x) implies ids.contains(x) by {
            let j = choose|j: int| 0 <= j < front.len() && front[j] == x;
            assert(ids[j] == x);
        }
        assert(ids.contains(ids.last()));
        lemma_wake_waits_elsewhere(s, front, id, key);
    }
}

proof fn lemma_ready_stays_ready(s: StateView, ids: Seq<u64>, key: u64)
    requires
        s.tasks.contains_key(key),
        s.tasks[key].ready == TaskReadyState::Ready,
    ensures
        s.wake_waits(ids).tasks.contains_key(key),
        s.wake_waits(ids).tasks[key].ready == TaskReadyState::Ready,
    decreases ids.len(),
{
    if ids.len() > 0 {
        lemma_ready_stays_ready(s, ids.drop_last(), key);
    }
}

/// Every task whose wait is among those that are woken is ready to run then, but for one
/// that was aborted.
pub proof fn law_woken_waits_reach_their_tasks(s: StateView, ids: Seq<u64>, id: u64, key: u64)
    requires
        ids.no_duplicates(),
        ids.contains(id),
        s.waits.contains_key(id),
        s.waits[id].waker == Some(Waker::Task(key)),
        wakeable(s, key),
    ensures
        s.wake_waits(ids).ready_state(key) == TaskReadyState::Ready,
    decreases ids.len(),
{
    let front = ids.drop_last();
    if ids.last() == id {
        assert(!front.contains(id)) by {
            if front.contains(id) {
                let j = choose|j: int| 0 <= j < front.len() && front[j] == id;
                assert(ids[j] == ids[ids.len() - 1]);
            }
        }
        lemma_wake_waits_elsewhere(s, front, id, key);
    } else {
        let j = choose|j: int| 0 <= j < ids.len() && ids[j] == id;
        assert(front[j] == id);
        assert(front.no_duplicates());
        law_woken_waits_reach_their_tasks(s, front, id, key);
        lemma_ready_stays_ready(s.wake_waits(front), seq![ids.last()], key);
        let t = s.wake_waits(front);
        assert(seq![ids.last()].drop_last() =~= Seq::<u64>::empty());
        assert(t.wake_waits(Seq::<u64>::empty()) == t);
        assert(t.wake_waits(seq![ids.last()]) == t.wake_wait(ids.last()));
    }
}

/// Every task that waits for another is ready to run once that completed, but for one that
/// was aborted.
pub proof fn law_completion_wakes_those_who_wait(s: StateView, key: u64, id: u64, waiting: u64)
    requires
        s.tasks.contains_key(key),
        s.joining(key).no_duplicates(),
        s.joining(key).contains(id),
        s.waits.contains_key(id),
        s.waits[id].waker == Some(Waker::Task(waiting)),
        waiting != key,
        wakeable(s, waiting),
    ensures
        s.complete(key).ready_state(waiting) == TaskReadyState::Ready,
        s.complete(key).ready_state(key) == TaskReadyState::Complete,
{
    let t = s.tasks[key];
    let done = TaskView { ready: TaskReadyState::Complete, joining: Seq::empty(), ..t };
    law_woken_waits_reach_their_tasks(s.with_task(key, done), t.joining, id, waiting);
}

/// What is left after the operations with a result were dropped has none, and nothing
/// else was dropped.
pub proof fn law_retain_incomplete_keeps_the_rest(s: StateView, ids: Seq<u64>, i: nat)
    requires
        i <= ids.len(),
        forall|j: int| 0 <= j < i ==> s.io_incomplete(#[trigger] ids[j]),
    ensures
        ({
            let r = s.retain_incomplete(ids, i);
            &&& forall|j: int| 0 <= j < r.1.len() ==> r.0.io_incomplete(#[trigger] r.1[j])
            &&& forall|id: u64| #[trigger]
                ids.contains(id) && s.io_incomplete(id) ==> r.1.contains(id)
            &&& forall|id: u64| #[trigger] r.1.contains(id) ==> ids.contains(id)
            &&& forall|id: u64| s.io_incomplete(id) ==> #[trigger] r.0.io_incomplete(id)
        }),
    decreases ids.len() - i,
{
    if i < ids.len() {
        let id = ids[i as int];
        if s.io_incomplete(id) {
            law_retain_incomplete_keeps_the_rest(s, ids, i + 1);
            assert(s.retain_incomplete(ids, i) == s.retain_incomplete(ids, i + 1));
        } else {
            let t = s.return_completion(id);
            let next = ids.update(i as int, ids.last()).drop_last();
            assert forall|x: u64| s.io_incomplete(x) implies #[trigger] t.io_incomplete(x) by {
                assert(x != id);
            }
            assert forall|j: int| 0 <= j < i implies t.io_incomplete(#[trigger] next[j]) by {
                assert(next[j] == ids[j]);
            }
            assert forall|x: u64| #[trigger] ids.contains(x) && x != id implies next.contains(
                x,
            ) by {
                let j = choose|j: int| 0 <= j < ids.len() && ids[j] == x;
                if j == ids.len() - 1 {
                    assert(next[i as int] == x);
                } else {
                    assert(next[j] == x);
                }
            }
            assert forall|x: u64| #[trigger] next.contains(x) implies ids.contains(x) by {
                let j = choose|j: int| 0 <= j < next.len() && next[j] == x;
                if j == i {
                    assert(ids[ids.len() - 1] == x);
                } else {
                    assert(ids[j] == x);
                }
            }
            law_retain_incomplete_keeps_the_rest(t, next, i);
            let r = t.retain_incomplete(next, i);
            assert(s.retain_incomplete(ids, i) == r);
            assert forall|x: u64| s.io_incomplete(x) implies #[trigger] r.0.io_incomplete(x) by {
                assert(t.io_incomplete(x));
            }
            assert forall|x: u64| #[trigger] ids.contains(x) && s.io_incomplete(
                x,
            ) implies r.1.contains(x) by {
                assert(next.contains(x) && t.io_incomplete(x));
            }
            assert forall|x: u64| #[trigger] r.1.contains(x) implies ids.contains(x) by {
                assert(next.contains(x));
            }
        }
    } else {
        assert(s.retain_incomplete(ids, i) == (s, ids));
        assert forall|j: int| 0 <= j < ids.len() implies s.io_incomplete(#[trigger] ids[j]) by {}
    }
}

/// Wake-ups keep the thread valid.
pub proof fn law_wake_all_keeps_valid(s: StateView, wakers: Seq<Waker>)
    requires
        s.valid(),
    ensures
        s.wake_all(wakers).valid(),
        s.wake_all(wakers).clock == s.clock,
    decreases wakers.len(),
{
    if wakers.len() > 0 {
        law_wake_all_keeps_valid(s, wakers.drop_last());
        law_wake_keeps_valid(s.wake_all(wakers.drop_last()), wakers.last());
    }
}

} // verus!
