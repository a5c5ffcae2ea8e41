//! An operation on a ring, as a future.

use vstd::prelude::*;

use crate::errno::Errno;
use crate::model::{Completion, CompletionState, StateView, TaskReadyState, Waker};
use crate::operations::IsIoPoll;
use crate::requests::IoRequest;
use crate::task::io::in_flight_room;
use crate::task::TaskState;
use crate::tracing::Events;

verus! {

/// An operation of a task. It is handed to the kernel when it is polled first.
#[derive(Clone, Copy, Debug, PartialEq, Eq)]
pub struct RingFuture {
    pub request: IoRequest,
    /// The key of the operation.
    pub completion: u64,
    pub tag: u32,
    /// Whether a poll gave a result.
    pub terminated: bool,
}

/// What a poll of an operation gives.
#[derive(Clone, Copy, Debug, PartialEq, Eq)]
pub enum RingPoll {
    /// The operation is over.
    Ready(Result<usize, Errno>),
    /// The operation is in the kernel.
    Pending,
    /// Pending, and the request is to be queued on its ring now.
    Submit,
    /// The task was aborted: it has to unwind now.
    Aborted,
}

/// A poll of an operation: the operation and the thread after it, and what it gives.
pub struct RingStep {
    pub future: RingFuture,
    pub state: StateView,
    pub poll: RingPoll,
}

impl RingFuture {
    /// The operation that a task begins.
    pub open spec fn begun(s: StateView, request: IoRequest) -> Completion {
        Completion {
            state: CompletionState::Idle { timespec: request.timeout is Some },
            tag: s.next_tag,
            task_index: s.tasks[s.current_task->0].task_index,
            iopoll: request.polled,
        }
    }

    /// The thread after a task began an operation, which its I/O scope gathers.
    pub open spec fn after_begin(s: StateView, request: IoRequest) -> StateView {
        let tagged = StateView { next_tag: s.next_tag.wrapping_add(1), ..s };
        tagged.new_completion(RingFuture::begun(s, request)).io_registered(
            s.current_task->0,
            tagged.next_completion_id(),
        )
    }

    /// Begins an operation of the running task.
    pub fn new(request: IoRequest, state: &mut TaskState) -> (f: RingFuture)
        requires
            old(state)@.valid(),
            old(state)@.running(),
            old(state)@.next_completion < u64::MAX,
        ensures
            final(state)@.valid(),
            final(state)@ == RingFuture::after_begin(old(state)@, request),
            f == (RingFuture {
                request,
                completion: old(state)@.next_completion_id(),
                tag: old(state)@.next_tag,
                terminated: false,
            }),
    {
        let tag: u32 = state.get_next_tag();
        let task_index: u16 = match state.current_task_index() {
            Some(i) => i,
            None => 0,
        };
        let key: u64 = match state.get_current_task() {
            Some(key) => key,
            None => 0,
        };
        let completion: u64 = state.new_completion(
            Completion {
                state: CompletionState::Idle { timespec: request.timeout.is_some() },
                tag,
                task_index,
                iopoll: request.polled,
            },
        );
        state.register_io(key, completion);
        RingFuture { request, completion, tag, terminated: false }
    }

    /// Whether the operation can be polled: it was not over, and is still known.
    pub open spec fn pollable(self, s: StateView) -> bool {
        &&& s.running()
        &&& !self.terminated
        &&& s.completions.contains_key(self.completion)
        &&& !s.completions[self.completion].pooled
        &&& s.completions[self.completion].refs < u64::MAX
        &&& in_flight_room(s, 2)
    }

    /// The thread after the operation was handed to the kernel.
    pub open spec fn submitted(self, s: StateView, waker: Waker) -> StateView {
        let task = s.tasks[s.current_task->0];
        s.io_submitted(self.completion, waker, task.activity_id, self.tag).traced(
            task.task_index,
            Events::IoStart {
                activity_id: task.activity_id,
                fd: self.request.fd,
                tag: self.tag,
                io_type: self.request.io_type.number(),
            },
        )
    }

    /// A poll of the operation by the running task. An injected fault that is due is its
    /// result, and does not affect the operation itself.
    pub open spec fn poll_step(self, s: StateView, waker: Waker) -> RingStep {
        let counted = s.fault_counted();
        let over = RingFuture { terminated: true, ..self };
        if s.ready_state(s.current_task->0) == TaskReadyState::Aborted {
            RingStep { future: self, state: s, poll: RingPoll::Aborted }
        } else if s.fault_due() is Some {
            RingStep {
                future: over,
                state: counted,
                poll: RingPoll::Ready(Err(s.fault_due()->0)),
            }
        } else {
            match s.completions[self.completion].completion.state {
                CompletionState::Idle { timespec: _ } => RingStep {
                    future: self,
                    state: self.submitted(counted, waker),
                    poll: RingPoll::Submit,
                },
                CompletionState::Completed { result } => RingStep {
                    future: over,
                    state: counted.with_io_state(self.completion, CompletionState::Terminated),
                    poll: RingPoll::Ready(self.request.reported(result)),
                },
                _ => RingStep { future: self, state: counted, poll: RingPoll::Pending },
            }
        }
    }

    /// Polls the operation.
    pub fn poll(&mut self, state: &mut TaskState, waker: Waker) -> (poll: RingPoll)
        requires
            old(state)@.valid(),
            old(self).pollable(old(state)@),
        ensures
            final(state)@.valid(),
            (RingStep { future: *final(self), state: final(state)@, poll })
                == old(self).poll_step(old(state)@, waker),
    {
        if let Some(key) = state.get_current_task() {
            if matches!(state.get_state(key), TaskReadyState::Aborted) {
                return RingPoll::Aborted;
            }
        }
        if let Some(fault) = state.take_fault() {
            self.terminated = true;
            return RingPoll::Ready(Err(fault));
        }
        if let Some(CompletionState::Idle { .. }) = state.completion_state(self.completion) {
            let activity_id: u128 = state.get_current_activity_id();
            let task_index: u16 = match state.current_task_index() {
                Some(i) => i,
                None => 0,
            };
            state.submit_completion(self.completion, waker, activity_id, self.tag);
            state.write_event(
                task_index,
                Events::IoStart {
                    activity_id,
                    fd: self.request.fd,
                    tag: self.tag,
                    io_type: self.request.io_type.as_u8(),
                },
            );
            return RingPoll::Submit;
        }
        match state.take_result(self.completion) {
            Some(result) => {
                self.terminated = true;
                RingPoll::Ready(self.request.report(result))
            },
            None => RingPoll::Pending,
        }
    }

    /// Whether a poll gave a result.
    pub fn is_terminated(&self) -> (b: bool)
        ensures
            b == self.terminated,
    {
        self.terminated
    }

    /// Has the operation end soon: one that the kernel does not have ends at once.
    pub fn cancel(&mut self, state: &mut TaskState)
        requires
            old(state)@.valid(),
            in_flight_room(old(state)@, 1),
        ensures
            final(state)@.valid(),
            *final(self) == *old(self),
            final(state)@ == old(state)@.cancel_completion(old(self).completion),
    {
        state.cancel_completion(self.completion);
    }

    /// Whether the kernel works on the operation, and so on the memory behind it.
    pub fn in_kernel(&self, state: &TaskState) -> (b: bool)
        ensures
            b == (state@.completions.contains_key(self.completion)
                && state@.completions[self.completion].completion.state is Submitted),
    {
        match state.completion_state(self.completion) {
            Some(CompletionState::Submitted { .. }) => true,
            _ => false,
        }
    }

    /// Gives the operation up.
    pub fn release(&mut self, state: &mut TaskState)
        requires
            old(state)@.valid(),
        ensures
            final(state)@.valid(),
            *final(self) == (RingFuture { terminated: true, ..*old(self) }),
            final(state)@ == old(state)@.return_completion(old(self).completion),
    {
        self.terminated = true;
        state.return_completion(self.completion);
    }
}

impl IsIoPoll for RingFuture {
    open spec fn io_poll(&self) -> bool {
        self.request.polled
    }

    fn is_io_poll(&self) -> (b: bool) {
        self.request.polled
    }
}

/// The thread after `n` polls of operations were counted against an injected fault.
pub open spec fn polls_counted(s: StateView, n: nat) -> StateView
    decreases n,
{
    if n == 0 {
        s
    } else {
        polls_counted(s, (n - 1) as nat).fault_counted()
    }
}

proof fn lemma_polls_counted(s: StateView, count: usize, fault: Errno, n: nat)
    requires
        s.fault == Some((count, fault)),
        n <= count,
    ensures
        polls_counted(s, n) == (StateView { fault: Some(((count - n) as usize, fault)), ..s }),
    decreases n,
{
    if n > 0 {
        lemma_polls_counted(s, count, fault, (n - 1) as nat);
    }
}

/// After a fault was injected with a count, so many polls of operations go on as if there
/// were none, the next one gives the fault, and those after it go on.
pub proof fn law_fault_comes_once(s: StateView, count: usize, fault: Errno, n: nat)
    ensures
        ({
            let injected = StateView { fault: Some((count, fault)), ..s };
            &&& n < count ==> polls_counted(injected, n).fault_due() is None
            &&& polls_counted(injected, count as nat).fault_due() == Some(fault)
            &&& n > count ==> polls_counted(injected, n).fault_due() is None
        }),
    decreases n,
{
    let injected = StateView { fault: Some((count, fault)), ..s };
    lemma_polls_counted(injected, count, fault, count as nat);
    if n < count {
        lemma_polls_counted(injected, count, fault, n);
    } else if n > count {
        lemma_polls_after(injected, count, fault, n);
    }
}

proof fn lemma_polls_after(s: StateView, count: usize, fault: Errno, n: nat)
    requires
        s.fault == Some((count, fault)),
        n > count,
    ensures
        polls_counted(s, n).fault is None,
    decreases n,
{
    if n == count + 1 {
        lemma_polls_counted(s, count, fault, count as nat);
    } else {
        lemma_polls_after(s, count, fault, (n - 1) as nat);
    }
}

/// An operation that was canceled before it was handed to the kernel never reaches it, and
/// says that it was canceled.
pub proof fn law_canceled_before_submission(f: RingFuture, s: StateView, waker: Waker)
    requires
        f.pollable(s),
        s.completions[f.completion].completion.state is Idle,
        s.fault is None,
        s.ready_state(s.current_task->0) != TaskReadyState::Aborted,
    ensures
        ({
            let canceled = s.cancel_completion(f.completion);
            let step = f.poll_step(canceled, waker);
            &&& step.poll == RingPoll::Ready(Err(Errno { code: crate::errno::ECANCELED }))
            &&& step.state.stats == s.stats
            &&& canceled.cancels == s.cancels
        }),
{
}

} // verus!
