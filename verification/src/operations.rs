//! What a running task can do, besides I/O.

use vstd::prelude::*;

use crate::errno::{Errno, ECANCELED};
use crate::model::{
    join_poll, law_retain_incomplete_keeps_the_rest, wait_poll, wait_pollable, CompletionState,
    IoScopeView, StateView, TaskReadyState, TaskView, WaitPoll, Waker,
};
use crate::seqs::lemma_drop_last;
use crate::task::io::in_flight_room;
use crate::task::waits::{TaskWait, WaitFuture};
use crate::task::{IoScopeCompletions, TaskState};
use crate::task_future::Poll;
use crate::time::{is_instant, Duration, Instant};
use crate::tracing::Events;

verus! {

/// How far a yield got.
#[derive(Clone, Copy, Debug, PartialEq, Eq, Structural)]
pub enum YieldFutureState {
    CreatedIo,
    CreatedCpu,
    Polled,
    Complete,
}

/// A yield to the main loop.
#[derive(Clone, Copy, Debug, PartialEq, Eq, Structural)]
pub struct SetYieldCpuFuture {
    pub state: YieldFutureState,
}

/// What a poll of a yield gives.
#[derive(Clone, Copy, Debug, PartialEq, Eq, Structural)]
pub enum YieldPoll {
    Ready,
    Pending,
    /// The task was aborted: it has to unwind now.
    Aborted,
}

/// A poll of a yield: the yield and the thread after it, and what it gives.
pub struct YieldStep {
    pub future: SetYieldCpuFuture,
    pub state: StateView,
    pub poll: YieldPoll,
}

/// Yields to the main loop, to go on with I/O priority: after the I/O of this round was
/// submitted and its completions were processed.
pub fn yield_io() -> (f: SetYieldCpuFuture)
    ensures
        f.state == YieldFutureState::CreatedIo,
{
    SetYieldCpuFuture { state: YieldFutureState::CreatedIo }
}

/// Yields to the main loop, to go on with CPU priority: when no task with I/O priority is
/// ready. The priority lasts until the task pauses.
pub fn yield_cpu() -> (f: SetYieldCpuFuture)
    ensures
        f.state == YieldFutureState::CreatedCpu,
{
    SetYieldCpuFuture { state: YieldFutureState::CreatedCpu }
}

impl SetYieldCpuFuture {
    /// Whether the running task was aborted.
    pub open spec fn aborted(s: StateView) -> bool {
        s.ready_state(s.current_task->0) == TaskReadyState::Aborted
    }

    /// A poll of the yield by the running task.
    pub open spec fn poll_step(self, s: StateView, waker: Waker) -> YieldStep {
        let key = s.current_task->0;
        let polled = SetYieldCpuFuture { state: YieldFutureState::Polled };
        if SetYieldCpuFuture::aborted(s) {
            YieldStep { future: self, state: s, poll: YieldPoll::Aborted }
        } else {
            match self.state {
                YieldFutureState::CreatedIo => YieldStep {
                    future: polled,
                    state: s.schedule_io(key).wake(waker),
                    poll: YieldPoll::Pending,
                },
                YieldFutureState::CreatedCpu => YieldStep {
                    future: polled,
                    state: s.schedule_cpu(key).wake(waker),
                    poll: YieldPoll::Pending,
                },
                _ => YieldStep {
                    future: SetYieldCpuFuture { state: YieldFutureState::Complete },
                    state: s,
                    poll: YieldPoll::Ready,
                },
            }
        }
    }

    /// Polls the yield from the running task: the first poll schedules the task and wakes
    /// `waker`, so that whoever drives the future polls it again; the second one ends it.
    pub fn poll(&mut self, state: &mut TaskState, waker: Waker) -> (p: YieldPoll)
        requires
            old(state)@.valid(),
            old(state)@.current_task is Some,
            old(self).state != YieldFutureState::Complete || SetYieldCpuFuture::aborted(
                old(state)@,
            ),
        ensures
            final(state)@.valid(),
            (YieldStep { future: *final(self), state: final(state)@, poll: p })
                == old(self).poll_step(old(state)@, waker),
    {
        let key: u64 = match state.get_current_task() {
            Some(key) => key,
            None => 0,
        };
        if matches!(state.get_state(key), TaskReadyState::Aborted) {
            return YieldPoll::Aborted;
        }
        match self.state {
            YieldFutureState::CreatedIo => {
                state.schedule_io(key);
                self.state = YieldFutureState::Polled;
                state.wake(waker);
                YieldPoll::Pending
            },
            YieldFutureState::CreatedCpu => {
                state.schedule_cpu(key);
                self.state = YieldFutureState::Polled;
                state.wake(waker);
                YieldPoll::Pending
            },
            _ => {
                self.state = YieldFutureState::Complete;
                YieldPoll::Ready
            },
        }
    }

    /// Whether the yield is over.
    pub fn is_terminated(&self) -> (b: bool)
        ensures
            b == (self.state == YieldFutureState::Complete),
    {
        matches!(self.state, YieldFutureState::Complete)
    }
}

/// Notes a trace event of the running task.
pub fn write_event(state: &mut TaskState, event: Events)
    requires
        old(state)@.valid(),
        old(state)@.running(),
    ensures
        final(state)@.valid(),
        final(state)@ == old(state)@.traced(
            old(state)@.tasks[old(state)@.current_task->0].task_index,
            event,
        ),
{
    if let Some(index) = state.current_task_index() {
        state.write_event(index, event);
    }
}

/// Which task of which thread is running.
#[derive(Clone, Copy, Debug, PartialEq, Eq, Structural)]
pub struct TaskIdentity {
    pub thread_index: u8,
    pub task_index: u16,
}

/// Which task of which thread is running, all zero where none is.
pub open spec fn identity_of(s: StateView) -> TaskIdentity {
    if s.running() {
        TaskIdentity {
            thread_index: s.trace.thread_idx,
            task_index: s.tasks[s.current_task->0].task_index,
        }
    } else {
        TaskIdentity { thread_index: 0, task_index: 0 }
    }
}

/// Which task of which thread is running; all zero where none is, as when a task is
/// dropped after the loop ended.
pub fn task_identity(state: &TaskState) -> (id: TaskIdentity)
    ensures
        id == identity_of(state@),
{
    match state.current_task_index() {
        Some(task_index) => TaskIdentity { thread_index: state.thread_index(), task_index },
        None => TaskIdentity { thread_index: 0, task_index: 0 },
    }
}

/// The activity of the running task.
pub fn get_activity_id(state: &TaskState) -> (id: u128)
    ensures
        id == state@.current_activity_id(),
{
    state.get_current_activity_id()
}

/// The tenant of the running task.
pub fn get_tenant_id(state: &TaskState) -> (id: u128)
    ensures
        id == state@.current_tenant_id(),
{
    state.get_current_tenant_id()
}

/// Sets the activity and the tenant of the running task.
pub fn set_activity_id_and_tenant_id(state: &mut TaskState, activity_id: u128, tenant_id: u128)
    requires
        old(state)@.valid(),
    ensures
        final(state)@.valid(),
        final(state)@ == old(state)@.with_current(
            TaskView { activity_id, tenant_id, ..old(state)@.tasks[old(state)@.current_task->0] },
        ),
{
    state.set_current_activity_id_and_tenant_id(activity_id, tenant_id);
}

/// Sets the priority of the running task. The tasks that one with high priority wakes
/// join the cohort that is being polled.
pub fn set_high_priority(state: &mut TaskState, high_priority: bool)
    requires
        old(state)@.valid(),
        old(state)@.running(),
    ensures
        final(state)@.valid(),
        final(state)@ == old(state)@.with_current(
            TaskView { high_priority, ..old(state)@.tasks[old(state)@.current_task->0] },
        ),
{
    state.set_current_high_priority(high_priority);
}

/// Creates a task under the activity and the tenant of the running one. The embedding
/// program keeps the task's future under the key in the handle.
pub fn spawn_task(state: &mut TaskState) -> (h: TaskHandle)
    requires
        old(state)@.valid(),
        old(state)@.indices.available(),
        old(state)@.next_key < u64::MAX,
        old(state)@.task_count < usize::MAX,
    ensures
        final(state)@.valid(),
        final(state)@ == old(state)@.schedule_new(
            old(state)@.current_activity_id(),
            old(state)@.current_tenant_id(),
        ),
        h.wait.key == old(state)@.next_key,
        h.wait.wait == (WaitFuture { alive: true, wait: None, expected: true }),
{
    let activity_id: u128 = state.get_current_activity_id();
    let tenant_id: u128 = state.get_current_tenant_id();
    let key: u64 = state.schedule_new(activity_id, tenant_id);
    TaskHandle::new(key)
}

/// Why there is no value of a task.
#[derive(Debug)]
pub enum TaskHandleError<E> {
    /// The task panicked with this.
    Panic(E),
    /// The wait for the task was canceled.
    Canceled,
}

/// A handle to a task, which waits for its result.
pub struct TaskHandle {
    pub wait: TaskWait,
}

impl TaskHandle {
    /// A handle to task `key`.
    pub fn new(key: u64) -> (h: TaskHandle)
        ensures
            h.wait.key == key,
            h.wait.wait == (WaitFuture { alive: true, wait: None, expected: true }),
    {
        TaskHandle { wait: TaskWait::new(key) }
    }

    /// A wait for the task to complete, whatever its result. The handle itself must not
    /// have given the result yet.
    pub fn wait(&self) -> (f: TaskWait)
        requires
            self.wait.wait.alive,
        ensures
            f.key == self.wait.key,
            f.wait == (WaitFuture { alive: true, wait: None, expected: true }),
    {
        TaskWait::new(self.wait.key)
    }

    /// Schedules the task, to unwind when it wakes up in a wait, in I/O or in a yield. A
    /// task that aborts itself unwinds at once, which is for the program to do.
    pub fn abort(&self, state: &mut TaskState)
        requires
            old(state)@.valid(),
            self.wait.wait.alive,
            old(state)@.ready_state(self.wait.key) != TaskReadyState::Running,
        ensures
            final(state)@.valid(),
            final(state)@ == old(state)@.abort(self.wait.key),
    {
        state.abort_task(self.wait.key);
    }

    /// Whether the handle gave the result.
    pub fn is_terminated(&self) -> (b: bool)
        ensures
            b == !self.wait.wait.alive,
    {
        self.wait.is_terminated()
    }

    /// Polls the wait for the task's result from the running task.
    pub fn poll(&mut self, state: &mut TaskState, waker: Waker, tag: u32) -> (outcome: WaitPoll)
        requires
            old(state)@.valid(),
            old(self).wait.wait.expected,
            wait_pollable(old(state)@, old(self).wait.wait.alive, old(self).wait.wait.wait),
        ensures
            final(state)@.valid(),
            final(self).wait.key == old(self).wait.key,
            final(self).wait.wait.expected,
            ({
                let r = join_poll(
                    old(state)@,
                    old(self).wait.key,
                    old(self).wait.wait.alive,
                    old(self).wait.wait.wait,
                    waker,
                    tag,
                );
                &&& final(state)@ == r.state
                &&& final(self).wait.wait.alive == r.alive
                &&& final(self).wait.wait.wait == r.wait
                &&& outcome == r.outcome
            }),
    {
        self.wait.poll(state, waker, tag)
    }

    /// What the handle gives when its wait came to `outcome`.
    pub open spec fn given<T, E>(outcome: WaitPoll, result: Option<Result<T, E>>) -> Poll<
        Result<T, TaskHandleError<E>>,
    > {
        match outcome {
            WaitPoll::Pending => Poll::Pending,
            WaitPoll::Canceled => Poll::Ready(Err(TaskHandleError::Canceled)),
            _ => match result->0 {
                Ok(value) => Poll::Ready(Ok(value)),
                Err(e) => Poll::Ready(Err(TaskHandleError::Panic(e))),
            },
        }
    }

    /// What the handle gives when its wait came to `outcome`, where `result` is what was
    /// taken from a task that completed.
    pub fn result<T, E>(outcome: WaitPoll, result: Option<Result<T, E>>) -> (p: Poll<
        Result<T, TaskHandleError<E>>,
    >)
        requires
            outcome != WaitPoll::Aborted,
            outcome == WaitPoll::Ready ==> result is Some,
        ensures
            p == TaskHandle::given(outcome, result),
    {
        match outcome {
            WaitPoll::Ready => match result {
                Some(Ok(value)) => Poll::Ready(Ok(value)),
                Some(Err(e)) => Poll::Ready(Err(TaskHandleError::Panic(e))),
                None => Poll::Pending,
            },
            WaitPoll::Canceled => Poll::Ready(Err(TaskHandleError::Canceled)),
            _ => Poll::Pending,
        }
    }
}

/// Ends the event loop: what waits in the queues is not run any more.
pub fn shutdown_loop(state: &mut TaskState)
    requires
        old(state)@.valid(),
    ensures
        final(state)@.valid(),
        final(state)@ == (StateView { keep_running: false, ..old(state)@ }),
{
    state.shutdown();
}

/// Lets the poll of an operation that follows the next `operation_count` ones fail with
/// `fault`. The operation itself is not affected.
pub fn inject_fault(state: &mut TaskState, operation_count: usize, fault: Errno)
    requires
        old(state)@.valid(),
    ensures
        final(state)@.valid(),
        final(state)@ == (StateView { fault: Some((operation_count, fault)), ..old(state)@ }),
{
    state.inject_fault(operation_count, fault);
}

/// What one more item of a stream of results means for the accumulated result.
pub enum DrainStep<Acc, T, E> {
    /// Accumulate this value.
    Accumulate(Acc, T),
    /// Go on with this result.
    Keep(Result<Acc, E>),
    /// The first error: cancel the I/O of the scope and go on with it.
    Fail(E),
}

/// What one more item of a stream of results means for the accumulated result. Once there
/// was an error, the rest of the stream is drained without effect.
pub open spec fn drain_step<Acc, T, E>(result: Result<Acc, E>, next: Result<T, E>) -> DrainStep<
    Acc,
    T,
    E,
> {
    match (result, next) {
        (Ok(acc), Ok(value)) => DrainStep::Accumulate(acc, value),
        (Ok(_), Err(e)) => DrainStep::Fail(e),
        (Err(e), _) => DrainStep::Keep(Err(e)),
    }
}

/// Takes in one more item of a stream of results.
pub fn io_scope_drain_step<Acc, T, E>(result: Result<Acc, E>, next: Result<T, E>) -> (step:
    DrainStep<Acc, T, E>)
    ensures
        step == drain_step(result, next),
{
    match result {
        Ok(acc) => match next {
            Ok(value) => DrainStep::Accumulate(acc, value),
            Err(e) => DrainStep::Fail(e),
        },
        Err(e) => DrainStep::Keep(Err(e)),
    }
}

/// Whether a drain that begins with `result` cancels the I/O of the scope before the first
/// item: it does where that is an error.
pub fn io_scope_drain_start<Acc, E>(result: &Result<Acc, E>) -> (cancel: bool)
    ensures
        cancel == (result is Err),
{
    matches!(result, Err(_))
}

impl<Acc, T, E> DrainStep<Acc, T, E> {
    /// The result after the step, where `acc` accumulates.
    pub open spec fn taken(self, acc: spec_fn(Acc, T) -> Acc) -> Result<Acc, E> {
        match self {
            DrainStep::Accumulate(a, value) => Ok(acc(a, value)),
            DrainStep::Keep(result) => result,
            DrainStep::Fail(e) => Err(e),
        }
    }
}

/// The result of draining a stream: the steps of its items, one after another.
pub open spec fn drained<Acc, T, E>(
    result: Result<Acc, E>,
    items: Seq<Result<T, E>>,
    acc: spec_fn(Acc, T) -> Acc,
) -> Result<Acc, E>
    decreases items.len(),
{
    if items.len() == 0 {
        result
    } else {
        drain_step(drained(result, items.drop_last(), acc), items.last()).taken(acc)
    }
}

/// How often draining a stream cancels the I/O of the scope: at its start, and at steps
/// that fail.
pub open spec fn drain_cancels<Acc, T, E>(
    result: Result<Acc, E>,
    items: Seq<Result<T, E>>,
    acc: spec_fn(Acc, T) -> Acc,
) -> nat
    decreases items.len(),
{
    if items.len() == 0 {
        if result is Err {
            1
        } else {
            0
        }
    } else {
        let before = items.drop_last();
        drain_cancels(result, before, acc) + (if drain_step(
            drained(result, before, acc),
            items.last(),
        ) is Fail {
            1nat
        } else {
            0nat
        })
    }
}

/// Draining a stream cancels the I/O of the scope exactly once if the result was an error
/// or an item is, else never.
pub proof fn law_drain_cancels_once<Acc, T, E>(
    result: Result<Acc, E>,
    items: Seq<Result<T, E>>,
    acc: spec_fn(Acc, T) -> Acc,
)
    ensures
        drain_cancels(result, items, acc) == (if drained(result, items, acc) is Err {
            1nat
        } else {
            0nat
        }),
        drained(result, items, acc) is Err == (result is Err || exists|i: int|
            0 <= i < items.len() && #[trigger] items[i] is Err),
    decreases items.len(),
{
    if items.len() > 0 {
        let front = items.drop_last();
        law_drain_cancels_once(result, front, acc);
        assert forall|i: int| 0 <= i < front.len() implies front[i] == #[trigger] items[i] by {}
        assert(items[items.len() - 1] == items.last());
        if drained(result, front, acc) is Err && !(result is Err) {
            let i = choose|i: int| 0 <= i < front.len() && #[trigger] front[i] is Err;
            assert(items[i] is Err);
        }
    }
}

/// Draining a stream without errors accumulates all its values, in order.
pub proof fn law_drain_accumulates<Acc, T, E>(
    start: Acc,
    values: Seq<T>,
    acc: spec_fn(Acc, T) -> Acc,
)
    ensures
        drained(Ok::<Acc, E>(start), values.map_values(|v: T| Ok::<T, E>(v)), acc) == Ok::<Acc, E>(
            values.fold_left(start, acc),
        ),
    decreases values.len(),
{
    let items = values.map_values(|v: T| Ok::<T, E>(v));
    if values.len() > 0 {
        law_drain_accumulates::<Acc, T, E>(start, values.drop_last(), acc);
        assert(items.drop_last() =~= values.drop_last().map_values(|v: T| Ok::<T, E>(v)));
        assert(items.last() == Ok::<T, E>(values.last()));
    }
}

/// Draining a stream gives the first error, whatever follows it: a result that was an
/// error before stays, else the first item that is one.
pub proof fn law_drain_gives_the_first_error<Acc, T, E>(
    result: Result<Acc, E>,
    items: Seq<Result<T, E>>,
    acc: spec_fn(Acc, T) -> Acc,
    k: int,
)
    requires
        0 <= k < items.len(),
        items[k] is Err,
        forall|i: int| 0 <= i < k ==> #[trigger] items[i] is Ok,
    ensures
        result is Err ==> drained(result, items, acc) == result,
        result is Ok ==> drained(result, items, acc) == Err::<Acc, E>(items[k]->Err_0),
    decreases items.len(),
{
    let front = items.drop_last();
    if k < items.len() - 1 {
        assert forall|i: int| 0 <= i < k implies #[trigger] front[i] is Ok by {
            assert(items[i] is Ok);
        }
        law_drain_gives_the_first_error(result, front, acc, k);
    } else {
        lemma_drain_ok(result, front, acc);
    }
}

/// Draining a stream without errors gives no error that was not there before.
proof fn lemma_drain_ok<Acc, T, E>(
    result: Result<Acc, E>,
    items: Seq<Result<T, E>>,
    acc: spec_fn(Acc, T) -> Acc,
)
    requires
        forall|i: int| 0 <= i < items.len() ==> #[trigger] items[i] is Ok,
    ensures
        drained(result, items, acc) is Ok == result is Ok,
        result is Err ==> drained(result, items, acc) == result,
    decreases items.len(),
{
    if items.len() > 0 {
        let front = items.drop_last();
        assert forall|i: int| 0 <= i < front.len() implies #[trigger] front[i] is Ok by {
            assert(items[i] is Ok);
        }
        lemma_drain_ok(result, front, acc);
        assert(items[items.len() - 1] is Ok);
    }
}

/// A future of which it is known whether it is for the polled ring.
pub trait IsIoPoll {
    /// Whether the future's operation is for the polled ring.
    spec fn io_poll(&self) -> bool;

    /// Whether the future's operation is for the polled ring.
    fn is_io_poll(&self) -> (b: bool)
        ensures
            b == self.io_poll(),
    ;
}

/// A future, or the error for which there is none.
pub enum ErrnoOrFuture<F> {
    Error { errno: Errno },
    Future { fut: F },
}

impl<F: IsIoPoll> IsIoPoll for ErrnoOrFuture<F> {
    open spec fn io_poll(&self) -> bool {
        match *self {
            ErrnoOrFuture::Error { errno: _ } => false,
            ErrnoOrFuture::Future { fut } => fut.io_poll(),
        }
    }

    fn is_io_poll(&self) -> (b: bool) {
        match self {
            ErrnoOrFuture::Error { errno: _ } => false,
            ErrnoOrFuture::Future { fut } => fut.is_io_poll(),
        }
    }
}

impl<F> ErrnoOrFuture<F> {
    /// What a poll gives where a poll of the future gives `inner`.
    pub open spec fn given<T>(self, inner: Poll<Result<T, Errno>>) -> Poll<Result<T, Errno>> {
        match self {
            ErrnoOrFuture::Error { errno } => Poll::Ready(Err(errno)),
            ErrnoOrFuture::Future { fut: _ } => inner,
        }
    }

    /// What a poll gives: the error, or what a poll of the future gave.
    pub fn poll<T>(&self, inner: Poll<Result<T, Errno>>) -> (p: Poll<Result<T, Errno>>)
        ensures
            p == self.given(inner),
    {
        match self {
            ErrnoOrFuture::Error { errno } => Poll::Ready(Err(*errno)),
            ErrnoOrFuture::Future { fut: _ } => inner,
        }
    }

    /// Whether the future is over, where `inner` says that of the future behind it; an
    /// error always is.
    pub fn is_terminated(&self, inner: bool) -> (b: bool)
        ensures
            b == (*self is Error || inner),
    {
        match self {
            ErrnoOrFuture::Error { errno: _ } => true,
            ErrnoOrFuture::Future { fut: _ } => inner,
        }
    }
}

/// A future whose operation is handed to the kernel as soon as it was first polled.
pub struct SubmitFuture<F: IsIoPoll> {
    pub future: F,
    pub polled: bool,
}

/// What a poll of a [`SubmitFuture`] gives.
pub enum SubmitPoll<T> {
    Ready(T),
    Pending,
    /// Pending, and the kernel is to be entered now, for the polled ring if `iopoll`.
    Submit { iopoll: bool },
}

/// Has the operation of a future handed to the kernel as soon as the future is polled,
/// for the least latency, at the cost of submitting it alone.
pub fn submit<F: IsIoPoll>(fut: F) -> (f: SubmitFuture<F>)
    ensures
        f.future == fut,
        !f.polled,
{
    SubmitFuture { future: fut, polled: false }
}

/// What a poll of a [`SubmitFuture`] gives, where `polled` says whether one was pending
/// before, `iopoll` for which ring the operation is and `inner` what a poll of the future
/// gave.
pub open spec fn submit_poll<T>(polled: bool, iopoll: bool, inner: Poll<T>) -> SubmitPoll<T> {
    match inner {
        Poll::Ready(value) => SubmitPoll::Ready(value),
        Poll::Pending => if polled {
            SubmitPoll::Pending
        } else {
            SubmitPoll::Submit { iopoll }
        },
    }
}

impl<F: IsIoPoll> SubmitFuture<F> {
    /// Takes in what a poll of the future gave: the first time that it is pending, the
    /// kernel is to be entered.
    pub fn poll<T>(&mut self, inner: Poll<T>) -> (p: SubmitPoll<T>)
        ensures
            final(self).future == old(self).future,
            final(self).polled == (old(self).polled || inner is Pending),
            p == submit_poll(old(self).polled, old(self).future.io_poll(), inner),
    {
        match inner {
            Poll::Ready(value) => SubmitPoll::Ready(value),
            Poll::Pending => {
                if !self.polled {
                    self.polled = true;
                    SubmitPoll::Submit { iopoll: self.future.is_io_poll() }
                } else {
                    SubmitPoll::Pending
                }
            },
        }
    }
}

/// Opens an I/O scope for the running task and returns the one that it was in. What the
/// task begins from now on is noted in the new scope.
pub fn io_scope(state: &mut TaskState) -> (outer: Option<IoScopeCompletions>)
    requires
        old(state)@.valid(),
        old(state)@.current_task is Some,
    ensures
        final(state)@.valid(),
        final(state)@ == old(state)@.with_scope(
            old(state)@.current_task->0,
            Some(IoScopeView::empty()),
        ),
        outer is Some == old(state)@.scope(old(state)@.current_task->0) is Some,
        outer matches Some(o) ==> o@ == old(state)@.scope(old(state)@.current_task->0)->0,
{
    let key: u64 = match state.get_current_task() {
        Some(key) => key,
        None => 0,
    };
    let scope = IoScopeCompletions::new();
    state.replace_io_scope_completions(key, Some(scope))
}

/// The thread after the I/O of the running task's scope was canceled and given up.
pub open spec fn scope_io_canceled(s: StateView) -> StateView {
    let key = s.current_task->0;
    let scope = s.scopes[key];
    s.with_scope(
        key,
        Some(IoScopeView { completions: Seq::empty(), ..scope }),
    ).cancel_and_return(scope.completions)
}

/// The thread after the waits of the running task's scope were canceled and woken.
pub open spec fn scope_waits_canceled(s: StateView) -> StateView {
    let key = s.current_task->0;
    let scope = s.scopes[key];
    s.with_scope(key, Some(IoScopeView { waits: Seq::empty(), ..scope })).cancel_waits(scope.waits)
}

/// Cancels the I/O that the running task began in its I/O scope. The scope stays open.
///
/// Before this the program enters the kernel, so that all I/O is submitted; after it, it
/// enters the kernel again, so that the cancel requests are, and then calls
/// [`io_scope_cancel_waits`].
pub fn io_scope_cancel(state: &mut TaskState)
    requires
        old(state)@.valid(),
        old(state)@.current_task is Some,
        old(state)@.scopes.contains_key(old(state)@.current_task->0),
        in_flight_room(
            old(state)@,
            old(state)@.scopes[old(state)@.current_task->0].completions.len() as int,
        ),
    ensures
        final(state)@.valid(),
        final(state)@ == scope_io_canceled(old(state)@),
{
    if let Some(key) = state.get_current_task() {
        state.cancel_io_scope_completions(key);
    }
}

/// Cancels and wakes the waits that the running task began in its I/O scope. The scope
/// stays open.
pub fn io_scope_cancel_waits(state: &mut TaskState)
    requires
        old(state)@.valid(),
        old(state)@.current_task is Some,
        old(state)@.scopes.contains_key(old(state)@.current_task->0),
    ensures
        final(state)@.valid(),
        final(state)@ == scope_waits_canceled(old(state)@),
{
    if let Some(key) = state.get_current_task() {
        state.cancel_io_scope_waits(key);
    }
}

/// Closes the I/O scope of the running task, which is in `outer` again, and returns what
/// was begun in the scope that closes.
pub fn io_scope_close(state: &mut TaskState, outer: Option<IoScopeCompletions>) -> (gathered:
    Option<IoScopeCompletions>)
    requires
        old(state)@.valid(),
        old(state)@.current_task is Some,
    ensures
        final(state)@.valid(),
        final(state)@ == old(state)@.with_scope(
            old(state)@.current_task->0,
            match outer {
                Some(o) => Some(o@),
                None => None,
            },
        ),
        gathered is Some == old(state)@.scope(old(state)@.current_task->0) is Some,
        gathered matches Some(g) ==> g@ == old(state)@.scope(old(state)@.current_task->0)->0,
{
    let key: u64 = match state.get_current_task() {
        Some(key) => key,
        None => 0,
    };
    state.replace_io_scope_completions(key, outer)
}

/// The thread, and the operations to wait for, after a scope that closed canceled what it
/// had gathered: operations that have their result are dropped first.
pub open spec fn gathered_canceled(s: StateView, gathered: IoScopeView) -> (StateView, Seq<u64>) {
    let r = s.retain_incomplete(gathered.completions, 0);
    (r.0.cancel_completions(r.1).cancel_waits(gathered.waits), r.1)
}

/// Cancels what a scope that closed had gathered. The program then enters the kernel, and
/// drops those that have their result, until none is left.
pub fn io_scope_cancel_gathered(state: &mut TaskState, gathered: &mut IoScopeCompletions)
    requires
        old(state)@.valid(),
        in_flight_room(old(state)@, old(gathered)@.completions.len() as int),
    ensures
        final(state)@.valid(),
        (final(state)@, final(gathered)@.completions) == gathered_canceled(
            old(state)@,
            old(gathered)@,
        ),
        final(gathered)@.waits == Seq::<u64>::empty(),
{
    proof {
        lemma_retain_keeps_room(old(state)@, old(gathered)@.completions, 0);
    }
    state.retain_incomplete(&mut gathered.completions);
    state.cancel_completions(&gathered.completions);
    let mut waits: Vec<u64> = Vec::new();
    core::mem::swap(&mut waits, &mut gathered.waits);
    state.cancel_waits(&waits);
}

proof fn lemma_retain_keeps_room(s: StateView, ids: Seq<u64>, i: nat)
    ensures
        s.retain_incomplete(ids, i).0.stats == s.stats,
        s.retain_incomplete(ids, i).1.len() <= ids.len(),
    decreases ids.len() - i,
{
    if i < ids.len() {
        if s.io_incomplete(ids[i as int]) {
            lemma_retain_keeps_room(s, ids, i + 1);
        } else {
            lemma_retain_keeps_room(
                s.return_completion(ids[i as int]),
                ids.update(i as int, ids.last()).drop_last(),
                i,
            );
        }
    }
}

/// Closing the scope that was just opened puts the running task back where it was.
pub proof fn law_scope_nests(s: StateView, key: u64)
    ensures
        s.with_scope(key, Some(IoScopeView::empty())).with_scope(key, s.scope(key)) == s,
        s.with_scope(key, Some(IoScopeView::empty())).scope(key) == Some(IoScopeView::empty()),
{
    let t = s.with_scope(key, Some(IoScopeView::empty())).with_scope(key, s.scope(key));
    assert(t.scopes =~= s.scopes);
}

/// Whether operation `id` is bound to end: it ended as canceled, or the kernel was asked to
/// cancel it.
pub open spec fn io_canceled(s: StateView, id: u64) -> bool {
    s.completions.contains_key(id) && match s.completions[id].completion.state {
        CompletionState::Completed { result } => result == Err::<u32, Errno>(
            Errno { code: ECANCELED },
        ),
        CompletionState::Submitted { waker: _, activity_id: _, tag: _, canceled } => canceled,
        _ => false,
    }
}

proof fn lemma_cancel_completions(s: StateView, ids: Seq<u64>)
    ensures
        forall|x: u64|
            s.io_incomplete(x) && #[trigger] ids.contains(x) ==> io_canceled(
                s.cancel_completions(ids),
                x,
            ),
        forall|x: u64|
            s.io_incomplete(x) ==> #[trigger] s.cancel_completions(ids).io_incomplete(x)
                || io_canceled(s.cancel_completions(ids), x),
    decreases ids.len(),
{
    if ids.len() > 0 {
        let front = ids.drop_last();
        lemma_cancel_completions(s, front);
        let t = s.cancel_completions(front);
        let u = t.cancel_completion(ids.last());
        assert forall|x: u64| s.io_incomplete(x) && #[trigger] ids.contains(x) implies io_canceled(
            u,
            x,
        ) by {
            assert(t.io_incomplete(x) || io_canceled(t, x));
            if x != ids.last() {
                let j = choose|j: int| 0 <= j < ids.len() && ids[j] == x;
                assert(front[j] == x);
                assert(front.contains(x));
                assert(io_canceled(t, x));
            }
        }
        assert forall|x: u64| s.io_incomplete(x) implies #[trigger] u.io_incomplete(x)
            || io_canceled(u, x) by {
            assert(t.io_incomplete(x) || io_canceled(t, x));
        }
    }
}

proof fn lemma_cancel_waits_keeps_completions(s: StateView, ids: Seq<u64>)
    ensures
        s.cancel_waits(ids).completions == s.completions,
    decreases ids.len(),
{
    if ids.len() > 0 {
        lemma_cancel_waits_keeps_completions(s, ids.drop_last());
    }
}

/// When a scope closes, every operation that was begun in it and has no result is canceled,
/// and is waited for.
pub proof fn law_scope_cancels_what_is_in_flight(s: StateView, gathered: IoScopeView, id: u64)
    requires
        gathered.completions.contains(id),
        s.io_incomplete(id),
    ensures
        io_canceled(gathered_canceled(s, gathered).0, id),
        gathered_canceled(s, gathered).1.contains(id),
{
    law_retain_incomplete_keeps_the_rest(s, gathered.completions, 0);
    let r = s.retain_incomplete(gathered.completions, 0);
    lemma_cancel_completions(r.0, r.1);
    lemma_cancel_waits_keeps_completions(r.0.cancel_completions(r.1), gathered.waits);
    assert(r.1.contains(id));
    assert(r.0.io_incomplete(id));
}

/// When nothing is left to wait for, every operation that was begun in the scope is
/// complete.
pub proof fn law_closed_scope_is_complete(s: StateView, ids: Seq<u64>, id: u64)
    requires
        ids.contains(id),
        s.retain_incomplete(ids, 0).1.len() == 0,
    ensures
        !s.io_incomplete(id),
{
    law_retain_incomplete_keeps_the_rest(s, ids, 0);
    if s.io_incomplete(id) {
        assert(s.retain_incomplete(ids, 0).1.contains(id));
    }
}

/// A wait that its I/O scope canceled reports that at its next poll, whatever became of
/// what it waits for, and reports it once: the future is not over, and the poll after that
/// is an ordinary one.
pub proof fn law_canceled_wait_reports_it_once(
    s: StateView,
    id: u64,
    list: Seq<u64>,
    alive: bool,
    complete: bool,
    waker: Waker,
    tag: u32,
    expected: bool,
    complete_then: bool,
)
    requires
        s.waits.contains_key(id),
        s.waits[id].held,
    ensures
        ({
            let c = s.cancel_wait(id);
            let r = wait_poll(c, list, alive, Some(id), complete, waker, tag, expected);
            let next = wait_poll(
                r.state,
                r.list,
                r.alive,
                r.wait,
                complete_then,
                waker,
                tag,
                expected,
            );
            &&& c.wait_canceled(Some(id))
            &&& r.outcome == WaitPoll::Canceled
            &&& r.alive == alive
            &&& r.wait == Some(id)
            &&& r.list == list
            &&& !r.state.wait_canceled(Some(id))
            &&& s.tasks[s.current_task->0].ready != TaskReadyState::Aborted ==> next.outcome == (
            if complete_then {
                WaitPoll::Ready
            } else {
                WaitPoll::Pending
            })
        }),
{
    let c = s.cancel_wait(id);
    assert(c.current_task == s.current_task);
    if s.tasks[s.current_task->0].ready != TaskReadyState::Aborted {
        assert(c.tasks[c.current_task->0].ready != TaskReadyState::Aborted);
    }
}

/// Canceling the waits of a scope reaches every wait of a future that still exists.
pub proof fn law_scope_cancel_reaches_its_waits(s: StateView, ids: Seq<u64>, id: u64)
    requires
        ids.contains(id),
        s.waits.contains_key(id),
        s.waits[id].held,
    ensures
        s.cancel_waits(ids).wait_canceled(Some(id)),
{
    lemma_cancel_waits(s, ids, id);
}

proof fn lemma_cancel_waits(s: StateView, ids: Seq<u64>, id: u64)
    requires
        s.waits.contains_key(id),
        s.waits[id].held,
    ensures
        s.cancel_waits(ids).waits.contains_key(id),
        s.cancel_waits(ids).waits[id].held,
        ids.contains(id) ==> s.cancel_waits(ids).waits[id].canceled,
    decreases ids.len(),
{
    if ids.len() > 0 {
        let front = ids.drop_last();
        lemma_cancel_waits(s, front, id);
        if ids.contains(id) && ids.last() != id {
            let j = choose|j: int| 0 <= j < ids.len() && ids[j] == id;
            assert(front[j] == id);
        }
    }
}

/// A cancellation in an inner I/O scope leaves the waits and operations of an outer one
/// alone: it reaches only what was begun in the inner one.
pub proof fn law_inner_cancel_leaves_the_outer_scope_alone(
    s: StateView,
    inner: IoScopeView,
    wait: u64,
    operation: u64,
)
    requires
        !inner.waits.contains(wait),
        !inner.completions.contains(operation),
    ensures
        ({
            let t = s.cancel_waits(inner.waits);
            &&& t.waits.contains_key(wait) == s.waits.contains_key(wait)
            &&& t.waits.contains_key(wait) ==> t.waits[wait] == s.waits[wait]
        }),
        ({
            let t = s.cancel_and_return(inner.completions);
            &&& t.completions.contains_key(operation) == s.completions.contains_key(operation)
            &&& t.completions.contains_key(operation) ==> t.completions[operation]
                == s.completions[operation]
        }),
{
    lemma_cancel_waits_elsewhere(s, inner.waits, wait);
    lemma_cancel_and_return_elsewhere(s, inner.completions, operation);
}

/// Nested I/O scopes cancel their own waits. A cancellation in the inner scope reaches the
/// wait that was begun there, and leaves one of the outer scope as it was; a cancellation
/// in the outer scope then reaches that one. A wait that the scope did not gather when it
/// was canceled is not affected.
pub proof fn law_nested_scopes_cancel_their_own_waits(
    s: StateView,
    key: u64,
    inner: IoScopeView,
    outer: IoScopeView,
    inner_wait: u64,
    outer_wait: u64,
    later_wait: u64,
)
    requires
        s.scope(key) == Some(inner),
        inner.waits.contains(inner_wait),
        !inner.waits.contains(outer_wait),
        !inner.waits.contains(later_wait),
        outer.waits.contains(outer_wait),
        s.waits.contains_key(inner_wait) && s.waits[inner_wait].held,
        s.waits.contains_key(outer_wait) && s.waits[outer_wait].held,
        s.waits.contains_key(later_wait),
    ensures
        ({
            let canceled = s.with_scope(
                key,
                Some(IoScopeView { waits: Seq::empty(), ..inner }),
            ).cancel_waits(inner.waits);
            &&& canceled.wait_canceled(Some(inner_wait))
            &&& canceled.waits.contains_key(outer_wait)
            &&& canceled.waits[outer_wait] == s.waits[outer_wait]
            &&& canceled.waits.contains_key(later_wait)
            &&& canceled.waits[later_wait] == s.waits[later_wait]
            &&& canceled.with_scope(key, Some(outer)).cancel_waits(outer.waits).wait_canceled(
                Some(outer_wait),
            )
        }),
{
    let emptied = s.with_scope(key, Some(IoScopeView { waits: Seq::empty(), ..inner }));
    let canceled = emptied.cancel_waits(inner.waits);
    lemma_cancel_waits(emptied, inner.waits, inner_wait);
    lemma_cancel_waits_elsewhere(emptied, inner.waits, outer_wait);
    lemma_cancel_waits_elsewhere(emptied, inner.waits, later_wait);
    lemma_cancel_waits(canceled.with_scope(key, Some(outer)), outer.waits, outer_wait);
}

proof fn lemma_cancel_waits_elsewhere(s: StateView, ids: Seq<u64>, id: u64)
    requires
        !ids.contains(id),
    ensures
        s.cancel_waits(ids).waits.contains_key(id) == s.waits.contains_key(id),
        s.waits.contains_key(id) ==> s.cancel_waits(ids).waits[id] == s.waits[id],
    decreases ids.len(),
{
    if ids.len() > 0 {
        lemma_drop_last(ids);
        lemma_cancel_waits_elsewhere(s, ids.drop_last(), id);
    }
}

proof fn lemma_cancel_and_return_elsewhere(s: StateView, ids: Seq<u64>, id: u64)
    requires
        !ids.contains(id),
    ensures
        s.cancel_and_return(ids).completions.contains_key(id) == s.completions.contains_key(id),
        s.completions.contains_key(id) ==> s.cancel_and_return(ids).completions[id]
            == s.completions[id],
    decreases ids.len(),
{
    if ids.len() > 0 {
        lemma_drop_last(ids);
        lemma_cancel_and_return_elsewhere(s, ids.drop_last(), id);
    }
}

/// The thread after its virtual clock was enabled or disabled.
pub open spec fn clock_enabled(s: StateView, enabled: bool, system_now: Instant) -> StateView {
    s.with_clock(
        if !enabled {
            None
        } else if s.clock is Some {
            s.clock
        } else {
            Some(crate::virtual_clock::ClockView::start(system_now))
        },
    )
}

/// Enables or disables the virtual clock. A new clock starts at `system_now`, the time of
/// the system; a thread that has one keeps it with its timers.
pub fn virtual_clock_enable(state: &mut TaskState, enabled: bool, system_now: Instant)
    requires
        old(state)@.valid(),
    ensures
        final(state)@.valid(),
        final(state)@ == clock_enabled(old(state)@, enabled, system_now),
{
    state.enable_clock(enabled, system_now);
}

/// Moves the virtual clock by `duration` and wakes what the expired timers wake, in
/// deadline order. Returns how many expired.
pub fn virtual_clock_advance(state: &mut TaskState, duration: Duration) -> (fired: usize)
    requires
        old(state)@.valid(),
        old(state)@.clock is Some,
        is_instant(old(state)@.clock->0.target_nanos(duration)),
    ensures
        final(state)@.valid(),
        final(state)@.clock is Some,
        final(state)@.clock->0.current@ == old(state)@.clock->0.target_nanos(duration),
        final(state)@ == old(state)@.clock_advanced_to(final(state)@.clock->0.current),
        fired == old(state)@.clock->0.fired(final(state)@.clock->0.current).len(),
{
    state.advance_clock(duration)
}

/// Moves the virtual clock to `target`, never back, and wakes what the expired timers
/// wake, in deadline order. Returns how many expired.
pub fn virtual_clock_advance_to(state: &mut TaskState, target: Instant) -> (fired: usize)
    requires
        old(state)@.valid(),
        old(state)@.clock is Some,
    ensures
        final(state)@.valid(),
        final(state)@ == old(state)@.clock_advanced_to(target),
        fired == old(state)@.clock->0.fired(target).len(),
{
    state.advance_clock_to(target)
}

/// The current virtual time.
pub fn virtual_clock_now(state: &TaskState) -> (t: Instant)
    requires
        state@.clock is Some,
    ensures
        t == state@.clock->0.current,
{
    let clock = state.clock();
    clock.unwrap().now()
}

/// The time at which the virtual clock started.
pub fn virtual_clock_epoch(state: &TaskState) -> (t: Instant)
    requires
        state@.clock is Some,
    ensures
        t == state@.clock->0.epoch,
{
    let clock = state.clock();
    clock.unwrap().epoch()
}

/// The deadline of the next virtual timer, `None` where none is pending.
pub fn virtual_clock_next_deadline(state: &TaskState) -> (d: Option<Instant>)
    requires
        state@.clock is Some,
    ensures
        d == state@.clock->0.next_deadline(),
{
    let clock = state.clock();
    clock.unwrap().next_deadline()
}

/// The number of pending virtual timers.
pub fn virtual_clock_pending_timers(state: &TaskState) -> (n: usize)
    requires
        state@.clock is Some,
    ensures
        n == state@.clock->0.timers.len(),
{
    let clock = state.clock();
    clock.unwrap().pending_timers()
}

/// Installs or replaces the callback that is asked at each idle point how far to move the
/// virtual clock.
pub fn virtual_clock_set_idle_advance(state: &mut TaskState, callback: u64)
    requires
        old(state)@.valid(),
        old(state)@.clock is Some,
    ensures
        final(state)@.valid(),
        final(state)@ == old(state)@.with_clock(
            Some(old(state)@.clock->0.set_idle_advance(Some(callback))),
        ),
{
    state.set_idle_advance(Some(callback));
}

/// Removes the callback that is asked at idle points.
pub fn virtual_clock_clear_idle_advance(state: &mut TaskState)
    requires
        old(state)@.valid(),
        old(state)@.clock is Some,
    ensures
        final(state)@.valid(),
        final(state)@ == old(state)@.with_clock(
            Some(old(state)@.clock->0.set_idle_advance(None)),
        ),
{
    state.set_idle_advance(None);
}

/// Whether a callback for idle points is installed.
pub fn virtual_clock_has_idle_advance(state: &TaskState) -> (b: bool)
    requires
        state@.clock is Some,
    ensures
        b == (state@.clock->0.idle_advance_fn is Some),
{
    state.has_idle_advance()
}

/// A yield lets every task that is ready with I/O priority run before the one that
/// yields: it stands behind them.
pub proof fn law_yield_io_lets_others_run(s: StateView, key: u64)
    requires
        s.valid(),
        s.ready_state(key) == TaskReadyState::Running,
        !s.high_priority(),
    ensures
        s.schedule_io(key).fill == s.fill.push(key),
        s.schedule_io(key).ready_io == s.ready_io,
{
}

/// A wake-up by a task with high priority reaches the cohort that is being polled.
pub proof fn law_high_priority_is_inherited(s: StateView, key: u64)
    requires
        s.valid(),
        s.high_priority(),
        s.ready_state(key) == TaskReadyState::Suspend,
    ensures
        s.schedule_io(key).ready_io == s.ready_io.push(key),
        s.schedule_io(key).fill == s.fill,
{
}

} // verus!
