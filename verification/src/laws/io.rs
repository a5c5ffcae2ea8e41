//! What becomes of an operation on a ring, from its begin to its result.

use vstd::prelude::*;

use crate::errno::Errno;
use crate::laws::scheduling::wrote_events;
use crate::model::{
    CancelRequest, CompletionState, Cqe, IoScopeView, RingEnter, StateView, TaskReadyState, Waker,
};
use crate::requests::IoRequest;
use crate::ring_future::{RingFuture, RingPoll};
use crate::stats::EnterStats;
use crate::tracing::{EventEnvelope, Events};

verus! {

/// Whether operations other than `id` are the same in two states.
pub open spec fn other_operations_same(s: StateView, t: StateView, id: u64) -> bool {
    forall|k: u64|
        k != id ==> (#[trigger] t.completions.contains_key(k) == s.completions.contains_key(k)
            && t.completions[k] == s.completions[k])
}

/// Whether nothing but operations, the pool and the trace changed.
pub open spec fn only_operations_changed(s: StateView, t: StateView) -> bool {
    t == (StateView {
        completions: t.completions,
        completion_pool: t.completion_pool,
        next_completion: t.next_completion,
        trace: t.trace,
        ..s
    })
}

/// Whether the kernel has operation `id`.
pub open spec fn kernel_has(s: StateView, id: u64) -> bool {
    &&& s.completions.contains_key(id)
    &&& !s.completions[id].pooled
    &&& s.completions[id].completion.state is Submitted
}

/// A wake-up leaves operations, counters and the rings alone.
proof fn lemma_wake_leaves_operations(s: StateView, waker: Waker)
    ensures
        s.wake(waker).completions == s.completions,
        s.wake(waker).completion_pool == s.completion_pool,
        s.wake(waker).next_completion == s.next_completion,
        s.wake(waker).stats == s.stats,
        s.wake(waker).cancels == s.cancels,
        s.wake(waker).scopes == s.scopes,
        s.wake(waker).waits == s.waits,
        s.wake(waker).clock == s.clock,
        s.wake(waker).trace.enabled == s.trace.enabled,
        s.wake(waker).trace.thread_idx == s.trace.thread_idx,
        s.wake(waker).trace.events.len() >= s.trace.events.len(),
        s.wake(waker).trace.events.take(s.trace.events.len() as int) == s.trace.events,
{
    let t = s.wake(waker);
    assert(t.trace.events.take(s.trace.events.len() as int) =~= s.trace.events);
}

/// The result that the kernel reports is the operation's, number for number; a cancellation
/// that nobody asked for is a timeout. The kernel owns the operation no more. Other
/// operations, and the counters, stay as they are.
pub proof fn law_completion_keeps_the_kernels_result(
    s: StateView,
    id: u64,
    result: Result<u32, Errno>,
)
    requires
        kernel_has(s, id),
    ensures
        ({
            let t = s.io_completed(Cqe { user_data: Some(id), result });
            let canceled = s.completions[id].completion.state->Submitted_canceled;
            let held = s.completions[id].refs > 1;
            let kept = s.completions[id].refs <= 1 && s.completion_pool.len() < 4096;
            &&& held || kept ==> {
                &&& t.completions.contains_key(id)
                &&& t.completions[id].completion.state is Completed
                &&& result matches Ok(n)
                    ==> t.completions[id].completion.state->Completed_result == Ok::<u32, Errno>(n)
                &&& result matches Err(e) ==> t.completions[id].completion.state->Completed_result
                    == Err::<u32, Errno>(
                    Errno {
                        code: if e.code == 125 && !canceled {
                            62
                        } else {
                            e.code
                        },
                    },
                )
                &&& t.completions[id].completion.tag == s.completions[id].completion.tag
                &&& t.completions[id].completion.task_index
                    == s.completions[id].completion.task_index
                &&& t.completions[id].completion.iopoll == s.completions[id].completion.iopoll
            }
            &&& held ==> {
                &&& t.completions[id].refs == s.completions[id].refs - 1
                &&& !t.completions[id].pooled
                &&& t.completion_pool == s.completion_pool
            }
            &&& kept ==> {
                &&& t.completions[id].pooled
                &&& t.completion_pool.len() == s.completion_pool.len() + 1
                &&& t.completion_pool.last() == id
                &&& t.completion_pool.drop_last() == s.completion_pool
            }
            &&& !held && !kept ==> !t.completions.contains_key(id) && t.completion_pool
                == s.completion_pool
            &&& other_operations_same(s, t, id)
            &&& t.stats == s.stats
            &&& t.cancels == s.cancels
            &&& t.scopes == s.scopes
            &&& t.waits == s.waits
        }),
{
    let c = s.completions[id].completion;
    let t = s.io_completed(Cqe { user_data: Some(id), result });
    assert(s.completion_pool.push(id).drop_last() =~= s.completion_pool);
    match c.state {
        CompletionState::Submitted { waker, activity_id, tag, canceled } => {
            let reported = crate::model::reported_result(result, canceled);
            let done = s.traced(
                c.task_index,
                Events::IoEnd { activity_id, result: crate::model::result_code(reported), tag },
            ).with_io_state(id, CompletionState::Completed { result: reported });
            lemma_wake_leaves_operations(done.return_completion(id), waker);
        },
        _ => {},
    }
}

/// A completion that the kernel reports wakes whoever waits for the operation, and its trace
/// names the operation's task, activity and tag, and 0 or the error's number.
pub proof fn law_completion_wakes_and_is_traced(
    s: StateView,
    id: u64,
    result: Result<u32, Errno>,
)
    requires
        kernel_has(s, id),
    ensures
        ({
            let t = s.io_completed(Cqe { user_data: Some(id), result });
            let c = s.completions[id].completion;
            let n = s.trace.events.len() as int;
            &&& c.state->Submitted_waker matches Waker::Task(key) ==> {
                s.tasks.contains_key(key) && (s.tasks[key].ready == TaskReadyState::Suspend
                    || s.tasks[key].ready == TaskReadyState::Running)
                    ==> t.tasks[key].ready == TaskReadyState::Ready && (t.fill.contains(key)
                    || t.ready_io.contains(key))
            }
            &&& c.state->Submitted_waker matches Waker::Foreign(w) ==> t.pending_wakes
                == s.pending_wakes.push(w) && t.tasks == s.tasks
            &&& c.state->Submitted_waker is Task ==> t.pending_wakes == s.pending_wakes
            &&& forall|k: u64|
                c.state->Submitted_waker != Waker::Task(k) ==> t.tasks[k] == #[trigger] s.tasks[k]
            &&& s.trace.enabled ==> {
                &&& t.trace.events.len() > n
                &&& t.trace.events.take(n) == s.trace.events
                &&& t.trace.events[n] == (EventEnvelope {
                    thread_index: s.trace.thread_idx,
                    task_index: c.task_index,
                    event: Events::IoEnd {
                        activity_id: c.state->Submitted_activity_id,
                        tag: c.state->Submitted_tag,
                        result: match result {
                            Ok(_) => 0,
                            Err(e) => if e.code == 125 && !c.state->Submitted_canceled {
                                62
                            } else {
                                e.code
                            },
                        },
                    },
                })
            }
            &&& !s.trace.enabled ==> t.trace == s.trace
        }),
{
    let c = s.completions[id].completion;
    let t = s.io_completed(Cqe { user_data: Some(id), result });
    let n = s.trace.events.len() as int;
    match c.state {
        CompletionState::Submitted { waker, activity_id, tag, canceled } => {
            let reported = crate::model::reported_result(result, canceled);
            let done = s.traced(
                c.task_index,
                Events::IoEnd { activity_id, result: crate::model::result_code(reported), tag },
            ).with_io_state(id, CompletionState::Completed { result: reported }).return_completion(
                id,
            );
            lemma_wake_leaves_operations(done, waker);
            assert(done.trace.events.len() >= n);
            assert(t.trace.events.take(done.trace.events.len() as int) == done.trace.events);
            assert(t.trace.events.take(n) =~= t.trace.events.take(
                done.trace.events.len() as int,
            ).take(n));
            if s.trace.enabled {
                assert(done.trace.events.take(n) =~= s.trace.events);
                assert(t.trace.events.take(n + 1)[n] == t.trace.events[n]);
                assert(done.trace.events.len() == n + 1);
                assert(t.trace.events.take(n + 1)[n] == done.trace.events[n]);
            }
            if let Waker::Task(key) = waker {
                assert(t.fill.len() > s.fill.len() ==> t.fill[t.fill.len() - 1] == key);
                assert(t.ready_io.len() > s.ready_io.len() ==> t.ready_io[t.ready_io.len() - 1]
                    == key);
            }
        },
        _ => {},
    }
}

/// The completion of a timeout that belongs to an operation changes nothing, and completions
/// are taken in one after another.
pub proof fn law_completions_are_taken_in_order(
    s: StateView,
    cqes: Seq<Cqe>,
    cqe: Cqe,
    result: Result<u32, Errno>,
)
    ensures
        s.io_completed(Cqe { user_data: None, result }) == s,
        s.all_io_completed(Seq::empty()) == s,
        s.all_io_completed(cqes.push(cqe)) == s.all_io_completed(cqes).io_completed(cqe),
{
    assert(cqes.push(cqe).drop_last() =~= cqes);
}

/// Whether the running task can poll an operation and find how it stands: the task is not
/// aborted, and no injected fault is due.
pub open spec fn polls_as_it_stands(t: StateView) -> bool {
    &&& t.current_task is Some
    &&& t.tasks.contains_key(t.current_task->0)
    &&& t.tasks[t.current_task->0].ready != TaskReadyState::Aborted
    &&& t.fault matches Some((n, _)) ==> n > 0
}

/// What the kernel reports of an operation that a future holds is what that future's next
/// poll gives: the number that the kernel reported, or its error, where a cancellation that
/// nobody asked for is a timeout, and a timeout by a deadline is `ETIMEDOUT`.
pub proof fn law_poll_gives_the_kernels_result(
    f: RingFuture,
    s: StateView,
    result: Result<u32, Errno>,
    t: StateView,
    waker: Waker,
)
    requires
        kernel_has(s, f.completion),
        s.completions[f.completion].refs > 1,
        t.completions[f.completion] == s.io_completed(
            Cqe { user_data: Some(f.completion), result },
        ).completions[f.completion],
        polls_as_it_stands(t),
    ensures
        ({
            let r = f.poll_step(t, waker);
            let canceled = s.completions[f.completion].completion.state->Submitted_canceled;
            &&& result matches Ok(n) ==> r.poll == RingPoll::Ready(Ok(n as usize))
            &&& result matches Err(e) ==> {
                &&& e.code == 125 && canceled ==> r.poll == RingPoll::Ready(
                    Err(Errno { code: 125 }),
                )
                &&& (e.code == 125 && !canceled) || e.code == 62 ==> r.poll == RingPoll::Ready(
                    Err(
                        Errno {
                            code: if f.request.by_deadline {
                                110
                            } else {
                                62
                            },
                        },
                    ),
                )
                &&& e.code != 125 && e.code != 62 ==> r.poll == RingPoll::Ready(Err(e))
            }
            &&& r.future.terminated
            &&& r.future.request == f.request && r.future.completion == f.completion
                && r.future.tag == f.tag
            &&& r.state.completions[f.completion].completion.state is Terminated
            &&& r.state.completions[f.completion].refs == t.completions[f.completion].refs
            &&& r.state.tasks == t.tasks && r.state.stats == t.stats && r.state.trace == t.trace
            &&& other_operations_same(t, r.state, f.completion)
        }),
{
    law_completion_keeps_the_kernels_result(s, f.completion, result);
}

/// The first poll of an operation hands it to the kernel, under the waker of that poll and
/// the activity of the running task; the kernel owns it too from then on, and it is counted
/// on its ring, twice where a timeout of its own goes with it.
pub proof fn law_first_poll_submits(f: RingFuture, s: StateView, waker: Waker)
    requires
        s.completions.contains_key(f.completion),
        s.completions[f.completion].completion.state is Idle,
        s.completions[f.completion].refs < u64::MAX,
        s.stats.in_flight_io + 2 <= u64::MAX,
        s.stats.in_flight_io_poll + 2 <= u64::MAX,
        polls_as_it_stands(s),
    ensures
        ({
            let r = f.poll_step(s, waker);
            let t = r.state;
            let e = s.completions[f.completion];
            let task = s.tasks[s.current_task->0];
            let n: int = if e.completion.state->Idle_timespec {
                2
            } else {
                1
            };
            &&& r.poll == RingPoll::Submit
            &&& r.future == f
            &&& t.completions[f.completion].completion.state == (CompletionState::Submitted {
                waker,
                activity_id: task.activity_id,
                tag: f.tag,
                canceled: false,
            })
            &&& t.completions[f.completion].refs == e.refs + 1
            &&& t.completions[f.completion].pooled == e.pooled
            &&& t.completions[f.completion].completion.iopoll == e.completion.iopoll
            &&& t.completions[f.completion].completion.task_index == e.completion.task_index
            &&& other_operations_same(s, t, f.completion)
            &&& t.stats.in_flight_io == s.stats.in_flight_io + (if e.completion.iopoll {
                0int
            } else {
                n
            })
            &&& t.stats.in_flight_io_poll == s.stats.in_flight_io_poll + (if e.completion.iopoll {
                n
            } else {
                0int
            })
            &&& t.tasks == s.tasks && t.fill == s.fill && t.ready_io == s.ready_io && t.ready_cpu
                == s.ready_cpu && t.cancels == s.cancels
            &&& wrote_events(
                s,
                t,
                seq![
                    EventEnvelope {
                        thread_index: s.trace.thread_idx,
                        task_index: task.task_index,
                        event: Events::IoStart {
                            activity_id: task.activity_id,
                            fd: f.request.fd,
                            tag: f.tag,
                            io_type: f.request.io_type.number(),
                        },
                    },
                ],
            )
        }),
{
    let t = f.poll_step(s, waker).state;
    assert(t.trace.events =~= (if s.trace.enabled {
        s.trace.events + seq![t.trace.events.last()]
    } else {
        s.trace.events
    }));
}

/// Polls while the kernel has the operation find nothing; the operation, and the waker under
/// which it was handed over, stay as they are.
pub proof fn law_poll_waits_for_the_kernel(f: RingFuture, s: StateView, waker: Waker)
    requires
        kernel_has(s, f.completion),
        polls_as_it_stands(s),
    ensures
        f.poll_step(s, waker).poll == RingPoll::Pending,
        f.poll_step(s, waker).future == f,
        f.poll_step(s, waker).state == (StateView { fault: f.poll_step(s, waker).state.fault, ..s }),
{
}

/// A poll by an aborted task changes nothing and unwinds. An injected fault that is due is
/// the result of the poll of any other task, and leaves the operation alone; it is then
/// used up. One that is not due comes one poll nearer.
pub proof fn law_abort_and_faults_come_first(f: RingFuture, s: StateView, waker: Waker)
    requires
        s.current_task is Some,
        s.tasks.contains_key(s.current_task->0),
    ensures
        ({
            let r = f.poll_step(s, waker);
            let aborted = s.tasks[s.current_task->0].ready == TaskReadyState::Aborted;
            &&& aborted ==> r.poll == RingPoll::Aborted && r.future == f && r.state == s
            &&& !aborted ==> {
                &&& s.fault matches Some((n, e)) ==> {
                    &&& n == 0 ==> r.poll == RingPoll::Ready(Err(e)) && r.future.terminated
                        && r.state.fault is None && r.state == (StateView { fault: None, ..s })
                    &&& n > 0 ==> r.state.fault == Some(((n - 1) as usize, e))
                }
                &&& s.fault is None ==> r.state.fault is None
            }
        }),
{
}

/// A new operation has one owner and has not reached the kernel. It carries the running
/// task's index, the ring and the kind of timeout that were asked for, and a tag of its own.
/// Its name is that of no other operation that anybody holds. A scope of the running task
/// holds it too, behind those begun before.
pub proof fn law_begun_operation_is_new(s: StateView, request: IoRequest)
    requires
        s.valid(),
        s.current_task is Some,
        s.tasks.contains_key(s.current_task->0),
        s.next_completion < u64::MAX,
    ensures
        ({
            let t = RingFuture::after_begin(s, request);
            let key = s.current_task->0;
            let id = s.next_completion_id();
            let e = t.completions[id];
            &&& !s.completions.contains_key(id) || s.completions[id].pooled
            &&& t.completions.contains_key(id)
            &&& e.completion.state == (CompletionState::Idle {
                timespec: request.timeout is Some,
            })
            &&& e.completion.tag == s.next_tag
            &&& e.completion.task_index == s.tasks[key].task_index
            &&& e.completion.iopoll == request.polled
            &&& !e.pooled
            &&& s.scopes.contains_key(key) ==> {
                &&& e.refs == 2
                &&& t.scopes[key].completions == s.scopes[key].completions.push(id)
                &&& t.scopes[key].waits == s.scopes[key].waits
                &&& t.scopes == s.scopes.insert(key, t.scopes[key])
            }
            &&& !s.scopes.contains_key(key) ==> e.refs == 1 && t.scopes == s.scopes
            &&& t.next_tag as int == (s.next_tag + 1) % 0x1_0000_0000
            &&& other_operations_same(s, t, id)
            &&& s.completion_pool.len() > 0 ==> id == s.completion_pool[0] && t.completion_pool
                == s.completion_pool.subrange(1, s.completion_pool.len() as int)
                && t.next_completion == s.next_completion
            &&& s.completion_pool.len() == 0 ==> id == s.next_completion && t.completion_pool
                == s.completion_pool && t.next_completion == s.next_completion + 1
            &&& t.stats == s.stats && t.cancels == s.cancels && t.tasks == s.tasks && t.trace
                == s.trace
        }),
{
    if s.completion_pool.len() > 0 {
        assert(s.completions[s.completion_pool[0]].pooled);
        assert(s.completion_pool.drop_first() =~= s.completion_pool.subrange(
            1,
            s.completion_pool.len() as int,
        ));
    }
}

/// The last owner who gives an operation up leaves it to the pool, while that holds fewer
/// than 4096; any other leaves one owner less. Nothing else changes.
pub proof fn law_last_owner_fills_the_pool(s: StateView, id: u64)
    requires
        s.completions.contains_key(id),
        !s.completions[id].pooled,
        s.completions[id].refs >= 1,
    ensures
        ({
            let t = s.return_completion(id);
            let e = s.completions[id];
            &&& e.refs > 1 ==> {
                &&& t.completions.contains_key(id)
                &&& t.completions[id].refs == e.refs - 1
                &&& !t.completions[id].pooled
                &&& t.completions[id].completion == e.completion
                &&& t.completion_pool == s.completion_pool
            }
            &&& e.refs == 1 && s.completion_pool.len() < 4096 ==> {
                &&& t.completions.contains_key(id)
                &&& t.completions[id].refs == 1
                &&& t.completions[id].pooled
                &&& t.completion_pool == s.completion_pool.push(id)
            }
            &&& e.refs == 1 && s.completion_pool.len() >= 4096 ==> {
                &&& !t.completions.contains_key(id)
                &&& t.completion_pool == s.completion_pool
            }
            &&& other_operations_same(s, t, id)
            &&& t.next_completion == s.next_completion && t.trace == s.trace
            &&& only_operations_changed(s, t)
        }),
{
}

/// Giving up what is in the pool, or is not there at all, changes nothing.
pub proof fn law_pooled_operation_has_no_owner(s: StateView, id: u64)
    ensures
        !s.completions.contains_key(id) || s.completions[id].pooled ==> s.return_completion(id)
            == s,
{
}

/// A cancel ends an operation that the kernel does not have with `ECANCELED`. One that it
/// has is marked, the request to cancel it goes behind those before it, to the ring that has
/// the operation, and is counted there. Anything else stays as it is.
pub proof fn law_cancel_reaches_every_operation(s: StateView, id: u64)
    requires
        s.completions.contains_key(id),
        s.stats.in_flight_io < u64::MAX,
        s.stats.in_flight_io_poll < u64::MAX,
    ensures
        ({
            let t = s.cancel_completion(id);
            let c = s.completions[id].completion;
            let more = c.state is Submitted && !c.state->Submitted_canceled;
            &&& c.state is Idle ==> t.completions[id].completion.state == (
            CompletionState::Completed { result: Err(Errno { code: 125 }) })
            &&& more ==> {
                &&& t.completions[id].completion.state == (CompletionState::Submitted {
                    waker: c.state->Submitted_waker,
                    activity_id: c.state->Submitted_activity_id,
                    tag: c.state->Submitted_tag,
                    canceled: true,
                })
                &&& t.cancels == s.cancels.push(CancelRequest { completion: id, iopoll: c.iopoll })
            }
            &&& !more ==> t.cancels == s.cancels
            &&& t.stats.in_flight_io == s.stats.in_flight_io + (if more && !c.iopoll {
                1int
            } else {
                0int
            })
            &&& t.stats.in_flight_io_poll == s.stats.in_flight_io_poll + (if more && c.iopoll {
                1int
            } else {
                0int
            })
            &&& !(c.state is Idle) && !more ==> t == s
            &&& t.completions.contains_key(id) && t.completions[id].refs == s.completions[id].refs
                && t.completions[id].pooled == s.completions[id].pooled
            &&& t.completions[id].completion.tag == c.tag
            &&& t.completions[id].completion.task_index == c.task_index
            &&& t.completions[id].completion.iopoll == c.iopoll
            &&& other_operations_same(s, t, id)
            &&& t.tasks == s.tasks && t.trace == s.trace && t.waits == s.waits && t.scopes
                == s.scopes && t.completion_pool == s.completion_pool
        }),
{
}

/// A cancel of all operations of a scope reaches them one by one, in order, and each that is
/// given up then loses one owner.
pub proof fn law_cancels_follow_each_other(s: StateView, ids: Seq<u64>, id: u64)
    ensures
        s.cancel_completions(Seq::empty()) == s,
        s.cancel_completions(ids.push(id)) == s.cancel_completions(ids).cancel_completion(id),
        s.cancel_and_return(Seq::empty()) == s,
        s.cancel_and_return(ids.push(id)) == s.cancel_and_return(ids).cancel_completion(
            id,
        ).return_completion(id),
        s.return_completions(Seq::empty()) == s,
        s.return_completions(ids.push(id)) == s.return_completions(ids).return_completion(id),
        s.cancel_waits(Seq::empty()) == s,
        s.cancel_waits(ids.push(id)) == s.cancel_waits(ids).cancel_wait(id),
        s.release_waits(Seq::empty()) == s,
        s.release_waits(ids.push(id)) == s.release_waits(ids).release_wait(id),
        s.wake_waits(Seq::empty()) == s,
        s.wake_waits(ids.push(id)) == s.wake_waits(ids).wake_wait(id),
        s.tasks_dropped(Seq::empty()) == s,
        s.tasks_dropped(ids.push(id)) == s.tasks_dropped(ids).task_dropped(id),
{
    assert(ids.push(id).drop_last() =~= ids);
}

/// Whether operation `id` ended, or the kernel was asked to cancel it: it cannot reach the
/// kernel, or go on there unasked, any more.
pub open spec fn asked_to_end(s: StateView, id: u64) -> bool {
    s.completions.contains_key(id) ==> match s.completions[id].completion.state {
        CompletionState::Idle { .. } => false,
        CompletionState::Submitted { canceled, .. } => canceled,
        _ => true,
    }
}

/// After the operations of a scope were canceled, every one of them has ended or is asked to.
pub proof fn law_scope_cancel_spares_none(s: StateView, ids: Seq<u64>)
    ensures
        forall|i: int|
            0 <= i < ids.len() ==> asked_to_end(s.cancel_completions(ids), #[trigger] ids[i]),
        forall|k: u64|
            asked_to_end(s, k) ==> #[trigger] asked_to_end(s.cancel_completions(ids), k),
    decreases ids.len(),
{
    if ids.len() > 0 {
        let front = ids.drop_last();
        law_scope_cancel_spares_none(s, front);
        assert forall|i: int| 0 <= i < ids.len() implies asked_to_end(
            s.cancel_completions(ids),
            #[trigger] ids[i],
        ) by {
            if i < front.len() {
                assert(front[i] == ids[i]);
                assert(asked_to_end(s.cancel_completions(front), front[i]));
            }
        }
        assert forall|k: u64| asked_to_end(s, k) implies #[trigger] asked_to_end(
            s.cancel_completions(ids),
            k,
        ) by {
            assert(asked_to_end(s.cancel_completions(front), k));
        }
    }
}

/// The kernel is entered to wait there exactly when no task is ready, nobody asked for busy
/// polling, the call is not for the polled ring and nothing is in flight on that ring.
pub proof fn law_waits_only_when_there_is_nothing_to_do(
    s: StateView,
    busy_poll: bool,
    iopoll: bool,
    now: u64,
)
    ensures
        ({
            let plan = s.enter_plan(busy_poll, iopoll, now);
            &&& plan.want ==> s.fill.len() == 0
            &&& plan.want ==> s.ready_io.len() == 0
            &&& plan.want ==> s.ready_cpu.len() == 0
            &&& plan.want ==> !busy_poll
            &&& plan.want ==> !iopoll
            &&& plan.want ==> s.stats.in_flight_io_poll == 0
            &&& s.fill.len() == 0 && s.ready_io.len() == 0 && s.ready_cpu.len() == 0 && !busy_poll
                && !iopoll && s.stats.in_flight_io_poll == 0 ==> plan.want
        }),
{
}

/// What is planned of a call into the kernel is for the ring that was asked for, under a tag
/// of its own, and tells when it began and what is in flight on that ring. The clock of the
/// calls that wait starts where it waits, that of the others where it does not, and neither
/// where the polled ring has nothing in flight: then the kernel need not be entered.
pub proof fn law_call_is_planned_for_its_ring(
    s: StateView,
    busy_poll: bool,
    iopoll: bool,
    now: u64,
)
    ensures
        ({
            let plan = s.enter_plan(busy_poll, iopoll, now);
            let t = s.enter_begun(busy_poll, iopoll, now);
            let idle = iopoll && s.stats.in_flight_io_poll == 0;
            &&& s.enter_idle(iopoll) == idle
            &&& plan.iopoll == iopoll
            &&& plan.ring_tag == s.next_tag
            &&& plan.start_time == now
            &&& plan.in_flight_io == (if iopoll {
                s.stats.in_flight_io_poll
            } else {
                s.stats.in_flight_io
            })
            &&& t.next_tag as int == (s.next_tag + 1) % 0x1_0000_0000
            &&& t.enter_stats_wait == (if plan.want && !idle {
                EnterStats { start: now, ..s.enter_stats_wait }
            } else {
                s.enter_stats_wait
            })
            &&& t.enter_stats == (if !plan.want && !idle {
                EnterStats { start: now, ..s.enter_stats }
            } else {
                s.enter_stats
            })
            &&& t == (StateView {
                next_tag: t.next_tag,
                enter_stats: t.enter_stats,
                enter_stats_wait: t.enter_stats_wait,
                ..s
            })
        }),
{
}

/// When a call ended, its duration counts once, for the calls that wait or for the others:
/// the total grows by it, and the shortest and the longest bound it.
pub proof fn law_call_is_timed_once(s: StateView, want: bool, now: u64)
    requires
        want ==> s.enter_stats_wait.start <= now && s.enter_stats_wait.sum + (now
            - s.enter_stats_wait.start) <= u64::MAX && s.enter_stats_wait.count < u64::MAX,
        !want ==> s.enter_stats.start <= now && s.enter_stats.sum + (now - s.enter_stats.start)
            <= u64::MAX && s.enter_stats.count < u64::MAX,
    ensures
        ({
            let t = s.enter_stopped(want, now);
            &&& want ==> timed_once(s.enter_stats_wait, t.enter_stats_wait, now) && t.enter_stats
                == s.enter_stats
            &&& !want ==> timed_once(s.enter_stats, t.enter_stats, now) && t.enter_stats_wait
                == s.enter_stats_wait
            &&& t == (StateView {
                enter_stats: t.enter_stats,
                enter_stats_wait: t.enter_stats_wait,
                ..s
            })
            &&& s.enter_stats_of(want) == (if want {
                s.enter_stats_wait
            } else {
                s.enter_stats
            })
        }),
{
}

/// Whether `after` holds one call more than `before`, which lasted from `before.start` to
/// `now`.
pub open spec fn timed_once(before: EnterStats, after: EnterStats, now: u64) -> bool {
    let elapsed: int = now - before.start;
    &&& after.sum == before.sum + elapsed
    &&& after.count == before.count + 1
    &&& after.start == before.start
    &&& after.min <= elapsed && after.min <= before.min
    &&& after.min == elapsed || after.min == before.min
    &&& after.max >= elapsed && after.max >= before.max
    &&& after.max == elapsed || after.max == before.max
}

/// A call into the kernel leaves a trace exactly where it waited, submitted something or
/// found completions. It tells what was in flight before the call submitted more.
pub proof fn law_idle_calls_leave_no_trace(
    s: StateView,
    enter: RingEnter,
    submissions: u64,
    completions: u64,
)
    requires
        submissions <= enter.in_flight_io,
    ensures
        ({
            let t = s.enter_traced(enter, submissions, completions);
            &&& t == (StateView { trace: t.trace, ..s })
            &&& wrote_events(
                s,
                t,
                if !enter.want && submissions == 0 && completions == 0 {
                    Seq::empty()
                } else {
                    seq![
                        EventEnvelope {
                            thread_index: s.trace.thread_idx,
                            task_index: 0,
                            event: Events::RingEnterEnd {
                                submissions,
                                in_flight_io: (enter.in_flight_io - submissions) as u64,
                                start_time: enter.start_time,
                                completions,
                                tag: enter.ring_tag,
                                task_count: s.task_count as u32,
                                want: enter.want,
                                iopoll: enter.iopoll,
                            },
                        },
                    ]
                },
            )
        }),
{
    let t = s.enter_traced(enter, submissions, completions);
    if s.trace.enabled && (enter.want || submissions > 0 || completions > 0) {
        assert(t.trace.events =~= s.trace.events + seq![t.trace.events.last()]);
    } else {
        assert(s.trace.events =~= s.trace.events + Seq::<EventEnvelope>::empty());
    }
}

/// A call that ended is timed and traced, then its completions are taken in, and they are
/// counted off its ring, one for each, and off no other.
pub proof fn law_ended_call_is_counted_off(
    s: StateView,
    enter: RingEnter,
    submissions: u64,
    now: u64,
    hint: u64,
    cqes: Seq<Cqe>,
)
    requires
        s.valid(),
        s.can_complete(cqes),
        enter.iopoll ==> cqes.len() <= s.stats.in_flight_io_poll,
        !enter.iopoll ==> cqes.len() <= s.stats.in_flight_io,
    ensures
        ({
            let t = s.enter_ended(enter, submissions, now, hint, cqes);
            let taken = s.enter_stopped(enter.want, now).enter_traced(
                enter,
                submissions,
                hint,
            ).all_io_completed(cqes);
            &&& t.stats.in_flight_io == s.stats.in_flight_io - (if enter.iopoll {
                0int
            } else {
                cqes.len() as int
            })
            &&& t.stats.in_flight_io_poll == s.stats.in_flight_io_poll - (if enter.iopoll {
                cqes.len() as int
            } else {
                0int
            })
            &&& t.stats.tasks_polled_io == s.stats.tasks_polled_io
            &&& t.stats.tasks_polled_cpu == s.stats.tasks_polled_cpu
            &&& t == (StateView { stats: t.stats, ..taken })
        }),
{
    crate::model::law_completions_are_counted_off(s, enter, submissions, now, hint, cqes);
}

/// The operations of a call into the kernel that are held by a future have their results
/// when the call is over: each the one that the kernel reported of it.
pub proof fn law_every_completion_arrives(s: StateView, cqes: Seq<Cqe>, i: int, id: u64)
    requires
        s.valid(),
        s.can_complete(cqes),
        0 <= i < cqes.len(),
        cqes[i].user_data == Some(id),
        s.completions[id].refs > 1,
    ensures
        ({
            let e = s.all_io_completed(cqes).completions[id];
            &&& s.all_io_completed(cqes).completions.contains_key(id)
            &&& e.completion.state is Completed
            &&& cqes[i].result matches Ok(n) ==> e.completion.state->Completed_result == Ok::<
                u32,
                Errno,
            >(n)
            &&& cqes[i].result matches Err(x) ==> (x.code != 125
                ==> e.completion.state->Completed_result == Err::<u32, Errno>(x))
        }),
    decreases cqes.len(),
{
    let front = cqes.drop_last();
    assert forall|j: int| 0 <= j < front.len() implies front[j] == cqes[j] by {}
    assert(s.can_complete(front));
    let t = s.all_io_completed(front);
    if i == cqes.len() - 1 {
        assert forall|j: int| 0 <= j < front.len() implies (#[trigger] front[j]).user_data != Some(
            id,
        ) by {
            assert(cqes[j].user_data != cqes[i].user_data);
        }
        lemma_untouched(s, front, id);
        assert(s.in_kernel(id));
        law_completion_keeps_the_kernels_result(t, id, cqes[i].result);
        assert(cqes.last() == (Cqe { user_data: Some(id), result: cqes[i].result }));
    } else {
        law_every_completion_arrives(s, front, i, id);
        if let Some(other) = cqes.last().user_data {
            assert(cqes[cqes.len() - 1].user_data == Some(other));
            assert(other != id);
            assert forall|j: int| 0 <= j < front.len() implies (#[trigger] front[j]).user_data
                != Some(other) by {
                assert(cqes[j].user_data != cqes[cqes.len() - 1].user_data);
            }
            assert(s.in_kernel(other));
            lemma_untouched(s, front, other);
            law_completion_keeps_the_kernels_result(t, other, cqes.last().result);
            assert(s.all_io_completed(cqes) == t.io_completed(
                Cqe { user_data: Some(other), result: cqes.last().result },
            ));
            assert(s.all_io_completed(cqes).completions.contains_key(id)
                == t.completions.contains_key(id));
        }
    }
}

/// An operation that no completion is for stays as it is.
proof fn lemma_untouched(s: StateView, cqes: Seq<Cqe>, id: u64)
    requires
        s.valid(),
        s.can_complete(cqes),
        s.completions.contains_key(id),
        forall|j: int| 0 <= j < cqes.len() ==> (#[trigger] cqes[j]).user_data != Some(id),
    ensures
        s.all_io_completed(cqes).completions.contains_key(id),
        s.all_io_completed(cqes).completions[id] == s.completions[id],
    decreases cqes.len(),
{
    if cqes.len() > 0 {
        let front = cqes.drop_last();
        assert forall|j: int| 0 <= j < front.len() implies front[j] == cqes[j] by {}
        assert(s.can_complete(front));
        assert forall|j: int| 0 <= j < front.len() implies (#[trigger] front[j]).user_data != Some(
            id,
        ) by {
            assert(cqes[j].user_data != Some(id));
        }
        lemma_untouched(s, front, id);
        let t = s.all_io_completed(front);
        if let Some(other) = cqes.last().user_data {
            assert(cqes[cqes.len() - 1].user_data == Some(other));
            assert(s.in_kernel(other));
            assert forall|j: int| 0 <= j < front.len() implies (#[trigger] front[j]).user_data
                != Some(other) by {
                assert(cqes[j].user_data != cqes[cqes.len() - 1].user_data);
            }
            lemma_untouched(s, front, other);
            law_completion_keeps_the_kernels_result(t, other, cqes.last().result);
            assert(s.all_io_completed(cqes) == t.io_completed(
                Cqe { user_data: Some(other), result: cqes.last().result },
            ));
            assert(s.all_io_completed(cqes).completions.contains_key(id)
                == t.completions.contains_key(id));
        }
    }
}

/// An operation is noted in the scope of a task that has one, behind those noted before, and
/// has one owner more then; where there is no scope nothing changes.
pub proof fn law_scope_gathers_operations(s: StateView, key: u64, id: u64)
    requires
        s.completions.contains_key(id),
        s.completions[id].refs < u64::MAX,
    ensures
        ({
            let t = s.io_registered(key, id);
            &&& !s.scopes.contains_key(key) ==> t == s
            &&& s.scopes.contains_key(key) ==> {
                &&& t.scopes[key].completions == s.scopes[key].completions.push(id)
                &&& t.scopes[key].waits == s.scopes[key].waits
                &&& t.scopes == s.scopes.insert(key, t.scopes[key])
                &&& t.completions[id].refs == s.completions[id].refs + 1
                &&& t.completions[id].completion == s.completions[id].completion
                &&& t.completions[id].pooled == s.completions[id].pooled
                &&& other_operations_same(s, t, id)
                &&& t == (StateView { scopes: t.scopes, completions: t.completions, ..s })
            }
        }),
{
}

/// When a task that is over is dropped with a scope that it left open, the scope is gone and
/// its operations and waits are given up; other scopes stay.
pub proof fn law_dropped_task_gives_its_scope_up(s: StateView, key: u64)
    ensures
        ({
            let t = s.task_dropped(key);
            let closed = StateView { scopes: s.scopes.remove(key), ..s };
            &&& !s.scopes.contains_key(key) ==> t == s
            &&& s.scopes.contains_key(key) ==> t == closed.return_completions(
                s.scopes[key].completions,
            ).release_waits(s.scopes[key].waits)
            &&& s.scope(key) == (if s.scopes.contains_key(key) {
                Some(s.scopes[key])
            } else {
                None::<IoScopeView>
            })
        }),
{
}

/// Whether operation `id` waits for its result.
pub open spec fn unfinished(s: StateView, id: u64) -> bool {
    &&& s.completions.contains_key(id)
    &&& s.completions[id].completion.state is Idle || s.completions[id].completion.state
        is Submitted
}

/// What is retained of the operations of a scope are those that still wait for their
/// result: all of them, and no other.
pub proof fn law_retained_are_the_unfinished(s: StateView, ids: Seq<u64>, i: nat)
    requires
        i <= ids.len(),
        forall|j: int| 0 <= j < i ==> unfinished(s, #[trigger] ids[j]),
    ensures
        ({
            let r = s.retain_incomplete(ids, i);
            &&& forall|j: int| 0 <= j < r.1.len() ==> unfinished(s, #[trigger] r.1[j])
            &&& forall|j: int| 0 <= j < r.1.len() ==> ids.contains(#[trigger] r.1[j])
            &&& forall|k: u64| #[trigger] ids.contains(k) && unfinished(s, k) ==> r.1.contains(k)
            &&& r.0.tasks == s.tasks && r.0.stats == s.stats && r.0.trace == s.trace && r.0.waits
                == s.waits && r.0.cancels == s.cancels
        }),
    decreases ids.len() - i,
{
    if i < ids.len() {
        let id = ids[i as int];
        if s.io_incomplete(id) {
            law_retained_are_the_unfinished(s, ids, i + 1);
        } else {
            let t = s.return_completion(id);
            let rest = ids.update(i as int, ids.last()).drop_last();
            assert forall|k: u64| #[trigger] unfinished(t, k) == unfinished(s, k) by {}
            assert forall|j: int| 0 <= j < i implies unfinished(t, #[trigger] rest[j]) by {
                assert(rest[j] == ids[j]);
            }
            law_retained_are_the_unfinished(t, rest, i);
            let r = t.retain_incomplete(rest, i);
            assert forall|j: int| 0 <= j < r.1.len() implies unfinished(s, #[trigger] r.1[j]) by {
                assert(unfinished(t, r.1[j]));
            }
            assert forall|j: int| 0 <= j < r.1.len() implies ids.contains(#[trigger] r.1[j]) by {
                assert(rest.contains(r.1[j]));
                let m = choose|m: int| 0 <= m < rest.len() && rest[m] == r.1[j];
                if m == i {
                    assert(ids[ids.len() - 1] == r.1[j]);
                } else {
                    assert(ids[m] == r.1[j]);
                }
            }
            assert forall|k: u64| #[trigger] ids.contains(k) && unfinished(s, k) implies r.1.contains(
                k,
            ) by {
                let m = choose|m: int| 0 <= m < ids.len() && ids[m] == k;
                assert(m != i);
                if m == ids.len() - 1 {
                    assert(rest[i as int] == k);
                } else {
                    assert(rest[m] == k);
                }
                assert(rest.contains(k));
                assert(unfinished(t, k));
            }
        }
    }
}

/// Of the operations of a scope those that have their result are given up, each once; the
/// others, and those of other scopes, stay as they are.
pub proof fn law_finished_operations_are_given_up(s: StateView, ids: Seq<u64>, i: nat, id: u64)
    requires
        ids.no_duplicates(),
        i <= ids.len(),
        forall|j: int| 0 <= j < i ==> unfinished(s, #[trigger] ids[j]),
    ensures
        ({
            let t = s.retain_incomplete(ids, i).0;
            let gives_up = ids.contains(id) && s.completions.contains_key(id) && !unfinished(s, id)
                && !s.completions[id].pooled;
            &&& !gives_up ==> t.completions.contains_key(id) == s.completions.contains_key(id)
                && t.completions[id] == s.completions[id]
            &&& gives_up && s.completions[id].refs > 1 ==> {
                &&& t.completions.contains_key(id)
                &&& t.completions[id].refs == s.completions[id].refs - 1
                &&& t.completions[id].completion == s.completions[id].completion
                &&& !t.completions[id].pooled
            }
            &&& gives_up && s.completions[id].refs <= 1 ==> !t.completions.contains_key(id)
                || t.completions[id].pooled
        }),
    decreases ids.len() - i,
{
    if i < ids.len() {
        let first = ids[i as int];
        if s.io_incomplete(first) {
            law_finished_operations_are_given_up(s, ids, i + 1, id);
        } else {
            let t = s.return_completion(first);
            let rest = ids.update(i as int, ids.last()).drop_last();
            assert forall|k: u64| #[trigger] unfinished(t, k) == unfinished(s, k) by {}
            assert forall|j: int| 0 <= j < i implies unfinished(t, #[trigger] rest[j]) by {
                assert(rest[j] == ids[j]);
            }
            assert forall|j: int, k: int| 0 <= j < k < rest.len() implies rest[j] != rest[k] by {
                let x = if j == i {
                    ids.len() - 1
                } else {
                    j
                };
                let y = if k == i {
                    ids.len() - 1
                } else {
                    k
                };
                assert(rest[j] == ids[x]);
                assert(rest[k] == ids[y]);
            }
            law_finished_operations_are_given_up(t, rest, i, id);
            assert(!rest.contains(first)) by {
                if rest.contains(first) {
                    let m = choose|m: int| 0 <= m < rest.len() && rest[m] == first;
                    if m == i {
                        assert(ids[ids.len() - 1] == ids[i as int]);
                    } else {
                        assert(ids[m] == ids[i as int]);
                    }
                }
            }
            assert(ids.contains(first));
            if id != first {
                assert(rest.contains(id) == ids.contains(id)) by {
                    if ids.contains(id) {
                        let m = choose|m: int| 0 <= m < ids.len() && ids[m] == id;
                        if m == ids.len() - 1 {
                            assert(rest[i as int] == id);
                        } else {
                            assert(rest[m] == id);
                        }
                    }
                    if rest.contains(id) {
                        let m = choose|m: int| 0 <= m < rest.len() && rest[m] == id;
                        if m == i {
                            assert(ids[ids.len() - 1] == id);
                        } else {
                            assert(ids[m] == id);
                        }
                    }
                }
            }
        }
    }
}

} // verus!
