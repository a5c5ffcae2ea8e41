//! Which task runs, and when.

use vstd::prelude::*;

use crate::model::{StateView, TaskReadyState, TaskRun, TaskView, Waker};
use crate::tracing::{EventEnvelope, Events};

verus! {

/// Whether the running task has high priority.
pub open spec fn runs_with_priority(s: StateView) -> bool {
    match s.current_task {
        Some(k) => s.tasks.contains_key(k) && s.tasks[k].high_priority,
        None => false,
    }
}

/// Whether tasks other than `key` are the same in two states.
pub open spec fn other_tasks_same(s: StateView, t: StateView, key: u64) -> bool {
    forall|k: u64|
        k != key ==> (#[trigger] t.tasks.contains_key(k) == s.tasks.contains_key(k)
            && t.tasks[k] == s.tasks[k])
}

/// Whether `key` was put at the end of the list that the running task's priority calls for:
/// the cohort that is being polled, or the next one.
pub open spec fn put_at_the_end(s: StateView, t: StateView, key: u64) -> bool {
    &&& t.ready_cpu == s.ready_cpu
    &&& if runs_with_priority(s) {
        t.ready_io.len() == s.ready_io.len() + 1 && t.ready_io.last() == key
            && t.ready_io.drop_last() == s.ready_io && t.fill == s.fill
    } else {
        t.fill.len() == s.fill.len() + 1 && t.fill.last() == key && t.fill.drop_last() == s.fill
            && t.ready_io == s.ready_io
    }
}

/// Whether nothing that the ready lists, the clock and I/O are about changed.
pub open spec fn rest_same(s: StateView, t: StateView) -> bool {
    &&& t.task_count == s.task_count
    &&& t.last_ready_cpu == s.last_ready_cpu
    &&& t.stats == s.stats
    &&& t.enter_stats == s.enter_stats
    &&& t.enter_stats_wait == s.enter_stats_wait
    &&& t.current_task == s.current_task
    &&& t.indices == s.indices
    &&& t.completed_tasks == s.completed_tasks
    &&& t.scopes == s.scopes
    &&& t.next_key == s.next_key
    &&& t.keep_running == s.keep_running
    &&& t.fault == s.fault
    &&& t.clock == s.clock
    &&& t.waits == s.waits
    &&& t.next_wait == s.next_wait
    &&& t.completions == s.completions
    &&& t.completion_pool == s.completion_pool
    &&& t.next_completion == s.next_completion
    &&& t.pending_wakes == s.pending_wakes
    &&& t.cancels == s.cancels
}

/// Whether exactly these events were written after those of `s`, where a sink is set up.
pub open spec fn wrote_events(s: StateView, t: StateView, events: Seq<EventEnvelope>) -> bool {
    &&& t.trace.enabled == s.trace.enabled
    &&& t.trace.thread_idx == s.trace.thread_idx
    &&& t.trace.events == (if s.trace.enabled {
        s.trace.events + events
    } else {
        s.trace.events
    })
}

/// Whether task `key` of `s` was made `ready` and scheduled: it stands at the end of the list
/// that the running task's priority calls for, under a new tag, the schedule was traced, and
/// nothing else changed.
pub open spec fn scheduled_as(
    s: StateView,
    t: StateView,
    key: u64,
    ready: TaskReadyState,
) -> bool {
    &&& t.tasks.contains_key(key)
    &&& t.tasks[key].ready == ready
    &&& t.tasks[key].tag == s.next_tag
    &&& t.tasks[key].activity_id == s.tasks[key].activity_id
    &&& t.tasks[key].tenant_id == s.tasks[key].tenant_id
    &&& t.tasks[key].task_index == s.tasks[key].task_index
    &&& t.tasks[key].high_priority == s.tasks[key].high_priority
    &&& t.tasks[key].joining == s.tasks[key].joining
    &&& t.next_tag as int == (s.next_tag + 1) % 0x1_0000_0000
    &&& other_tasks_same(s, t, key)
    &&& put_at_the_end(s, t, key)
    &&& rest_same(s, t)
    &&& wrote_events(
        s,
        t,
        seq![
            EventEnvelope {
                thread_index: s.trace.thread_idx,
                task_index: s.tasks[key].task_index,
                event: Events::TaskScheduled {
                    activity_id: s.tasks[key].activity_id,
                    tenant_id: s.tasks[key].tenant_id,
                    tag: s.next_tag,
                    io: true,
                },
            },
        ],
    )
}

proof fn lemma_scheduled(s: StateView, key: u64, ready: TaskReadyState)
    requires
        s.tasks.contains_key(key),
    ensures
        scheduled_as(s, s.with_ready(key, ready).enqueued(key), key, ready),
{
    let t = s.with_ready(key, ready).enqueued(key);
    assert(s.fill.push(key).drop_last() =~= s.fill);
    assert(s.ready_io.push(key).drop_last() =~= s.ready_io);
    assert(runs_with_priority(s) == s.with_ready(key, ready).high_priority());
    let event = EventEnvelope {
        thread_index: s.trace.thread_idx,
        task_index: s.tasks[key].task_index,
        event: Events::TaskScheduled {
            activity_id: s.tasks[key].activity_id,
            tenant_id: s.tasks[key].tenant_id,
            tag: s.next_tag,
            io: true,
        },
    };
    assert(s.trace.events.push(event) =~= s.trace.events + seq![event]);
}

/// An abort of a suspended task, whoever waits for it, marks the task and schedules it, so
/// that its next poll unwinds. A ready one is marked and keeps its place. A task that is
/// running, aborted or over stays as it is.
pub proof fn law_abort_reaches_every_live_task(s: StateView, key: u64)
    requires
        s.valid(),
    ensures
        ({
            let t = s.abort(key);
            &&& s.tasks.contains_key(key) && s.tasks[key].ready == TaskReadyState::Suspend
                ==> scheduled_as(s, t, key, TaskReadyState::Aborted)
            &&& s.tasks.contains_key(key) && s.tasks[key].ready == TaskReadyState::Ready ==> {
                &&& t.tasks.contains_key(key)
                &&& t.tasks[key] == (TaskView { ready: TaskReadyState::Aborted, ..s.tasks[key] })
                &&& other_tasks_same(s, t, key)
                &&& t.fill == s.fill && t.ready_io == s.ready_io && t.ready_cpu == s.ready_cpu
                &&& t.trace == s.trace && t.next_tag == s.next_tag
                &&& rest_same(s, t)
            }
            &&& s.tasks.contains_key(key) && (s.tasks[key].ready == TaskReadyState::Suspend
                || s.tasks[key].ready == TaskReadyState::Ready) ==> t.fill.contains(key)
                || t.ready_io.contains(key) || t.ready_cpu.contains(key)
            &&& !s.tasks.contains_key(key) || s.tasks[key].ready == TaskReadyState::Running
                || s.tasks[key].ready == TaskReadyState::Aborted || s.tasks[key].ready
                == TaskReadyState::Complete ==> t == s
        }),
{
    let t = s.abort(key);
    if s.tasks.contains_key(key) && s.tasks[key].ready == TaskReadyState::Suspend {
        lemma_scheduled(s, key, TaskReadyState::Aborted);
        assert(t.fill.len() > s.fill.len() ==> t.fill[t.fill.len() - 1] == key);
        assert(t.ready_io.len() > s.ready_io.len() ==> t.ready_io[t.ready_io.len() - 1] == key);
    }
}

/// A wake-up of a task that runs or is suspended makes it ready, at the end of the list that
/// the running task's priority calls for; any other task stays as it is.
pub proof fn law_wake_schedules_whoever_can_run(s: StateView, key: u64)
    ensures
        ({
            let t = s.wake(Waker::Task(key));
            if s.tasks.contains_key(key) && (s.tasks[key].ready == TaskReadyState::Running
                || s.tasks[key].ready == TaskReadyState::Suspend) {
                scheduled_as(s, t, key, TaskReadyState::Ready)
            } else {
                t == s
            }
        }),
        s.schedule_io(key) == s.wake(Waker::Task(key)),
{
    if s.tasks.contains_key(key) {
        lemma_scheduled(s, key, TaskReadyState::Ready);
    }
}

/// A wake-up that reaches beyond the tasks of the thread is noted behind those before it,
/// and changes nothing else.
pub proof fn law_foreign_wakes_are_noted_in_order(s: StateView, id: u64)
    ensures
        ({
            let t = s.wake(Waker::Foreign(id));
            &&& t.pending_wakes.len() == s.pending_wakes.len() + 1
            &&& t.pending_wakes.last() == id
            &&& t.pending_wakes.drop_last() == s.pending_wakes
            &&& t == (StateView { pending_wakes: t.pending_wakes, ..s })
        }),
{
    assert(s.pending_wakes.push(id).drop_last() =~= s.pending_wakes);
}

/// Wake-ups take effect one after another: those of two lists as those of one.
pub proof fn law_wakes_follow_each_other(s: StateView, first: Seq<Waker>, w: Waker)
    ensures
        s.wake_all(Seq::empty()) == s,
        s.wake_all(first.push(w)) == s.wake_all(first).wake(w),
{
    assert(first.push(w).drop_last() =~= first);
}

/// A task that waits for a wake-up gets it: where wake-ups reach a task that was running or
/// suspended, it is ready and in a ready list afterwards.
pub proof fn law_every_wake_arrives(s: StateView, wakers: Seq<Waker>, i: int, key: u64)
    requires
        0 <= i < wakers.len(),
        wakers[i] == Waker::Task(key),
        s.tasks.contains_key(key),
        s.tasks[key].ready == TaskReadyState::Running || s.tasks[key].ready
            == TaskReadyState::Suspend,
    ensures
        s.wake_all(wakers).tasks.contains_key(key),
        s.wake_all(wakers).tasks[key].ready == TaskReadyState::Ready,
        s.wake_all(wakers).fill.contains(key) || s.wake_all(wakers).ready_io.contains(key),
    decreases wakers.len(),
{
    let front = wakers.drop_last();
    let t = s.wake_all(front);
    lemma_wakes_keep(s, front, key);
    if i < front.len() {
        law_every_wake_arrives(s, front, i, key);
    }
    let u = t.wake(wakers.last());
    lemma_lists_grow(t, wakers.last(), key);
    if wakers.last() == Waker::Task(key) {
        if t.tasks[key].ready != TaskReadyState::Ready {
            assert(u.fill.len() > t.fill.len() ==> u.fill[u.fill.len() - 1] == key);
            assert(u.ready_io.len() > t.ready_io.len() ==> u.ready_io[u.ready_io.len() - 1]
                == key);
        }
    }
}

proof fn lemma_lists_grow(s: StateView, waker: Waker, key: u64)
    ensures
        s.fill.contains(key) ==> s.wake(waker).fill.contains(key),
        s.ready_io.contains(key) ==> s.wake(waker).ready_io.contains(key),
{
    let t = s.wake(waker);
    if s.fill.contains(key) {
        let j = choose|j: int| 0 <= j < s.fill.len() && s.fill[j] == key;
        assert(t.fill[j] == key);
    }
    if s.ready_io.contains(key) {
        let j = choose|j: int| 0 <= j < s.ready_io.len() && s.ready_io[j] == key;
        assert(t.ready_io[j] == key);
    }
}

/// Wake-ups leave a task in place; it stands as it did, or is ready and in a ready list.
proof fn lemma_wakes_keep(s: StateView, wakers: Seq<Waker>, key: u64)
    requires
        s.tasks.contains_key(key),
    ensures
        ({
            let t = s.wake_all(wakers);
            &&& t.tasks.contains_key(key)
            &&& t.tasks[key].ready == s.tasks[key].ready || (t.tasks[key].ready
                == TaskReadyState::Ready && (t.fill.contains(key) || t.ready_io.contains(key)))
        }),
    decreases wakers.len(),
{
    if wakers.len() > 0 {
        let t = s.wake_all(wakers.drop_last());
        lemma_wakes_keep(s, wakers.drop_last(), key);
        lemma_lists_grow(t, wakers.last(), key);
        let u = t.wake(wakers.last());
        assert(u.fill.len() > t.fill.len() && wakers.last() == Waker::Task(key) ==> u.fill[u.fill.len()
            - 1] == key);
        assert(u.ready_io.len() > t.ready_io.len() && wakers.last() == Waker::Task(key)
            ==> u.ready_io[u.ready_io.len() - 1] == key);
    }
}

/// A task that no wake-up is for stays as it is.
pub proof fn law_no_wake_no_change(s: StateView, wakers: Seq<Waker>, key: u64)
    requires
        forall|i: int| 0 <= i < wakers.len() ==> #[trigger] wakers[i] != Waker::Task(key),
    ensures
        s.wake_all(wakers).tasks.contains_key(key) == s.tasks.contains_key(key),
        s.wake_all(wakers).tasks[key] == s.tasks[key],
    decreases wakers.len(),
{
    if wakers.len() > 0 {
        let front = wakers.drop_last();
        assert forall|i: int| 0 <= i < front.len() implies #[trigger] front[i] != Waker::Task(
            key,
        ) by {
            assert(front[i] == wakers[i]);
        }
        law_no_wake_no_change(s, front, key);
        assert(wakers[wakers.len() - 1] != Waker::Task(key));
    }
}

/// A task that gives way to I/O is ready behind those with CPU priority, if it ran or was
/// suspended; any other task stays as it is.
pub proof fn law_cpu_schedule_goes_last(s: StateView, key: u64)
    ensures
        ({
            let t = s.schedule_cpu(key);
            if s.tasks.contains_key(key) && (s.tasks[key].ready == TaskReadyState::Running
                || s.tasks[key].ready == TaskReadyState::Suspend) {
                &&& t.tasks.contains_key(key)
                &&& t.tasks[key] == (TaskView { ready: TaskReadyState::Ready, ..s.tasks[key] })
                &&& other_tasks_same(s, t, key)
                &&& t.ready_cpu.len() == s.ready_cpu.len() + 1
                &&& t.ready_cpu.last() == key
                &&& t.ready_cpu.drop_last() == s.ready_cpu
                &&& t.fill == s.fill && t.ready_io == s.ready_io
                &&& t.trace == s.trace && t.next_tag == s.next_tag
                &&& rest_same(s, t)
            } else {
                t == s
            }
        }),
{
    assert(s.ready_cpu.push(key).drop_last() =~= s.ready_cpu);
}

/// A new task is ready, under a key and an index that no other task has, for the activity
/// and tenant that were asked for; nobody waits for it, and it has no priority.
pub proof fn law_new_task_is_ready_and_distinct(s: StateView, activity_id: u128, tenant_id: u128)
    requires
        s.valid(),
        s.indices.free.len() > 0 || s.indices.next <= 65535,
        s.next_key < u64::MAX,
        s.task_count < usize::MAX,
    ensures
        ({
            let t = s.schedule_new(activity_id, tenant_id);
            let key = s.next_key;
            &&& !s.tasks.contains_key(key)
            &&& t.tasks.contains_key(key)
            &&& t.tasks[key].activity_id == activity_id
            &&& t.tasks[key].tenant_id == tenant_id
            &&& t.tasks[key].ready == TaskReadyState::Ready
            &&& !t.tasks[key].high_priority
            &&& t.tasks[key].joining.len() == 0
            &&& t.tasks[key].tag == s.next_tag
            &&& t.tasks[key].task_index >= 1
            &&& forall|k: u64| #[trigger]
                s.tasks.contains_key(k) ==> s.tasks[k].task_index != t.tasks[key].task_index
            &&& other_tasks_same(s, t, key)
            &&& put_at_the_end(s, t, key)
            &&& t.task_count == s.task_count + 1
            &&& t.next_key == s.next_key + 1
            &&& t.next_tag as int == (s.next_tag + 1) % 0x1_0000_0000
            &&& t.current_task == s.current_task
            &&& t.completions == s.completions && t.waits == s.waits && t.scopes == s.scopes
            &&& t.clock == s.clock && t.stats == s.stats && t.keep_running == s.keep_running
            &&& wrote_events(
                s,
                t,
                seq![
                    EventEnvelope {
                        thread_index: s.trace.thread_idx,
                        task_index: t.tasks[key].task_index,
                        event: Events::TaskScheduled {
                            activity_id,
                            tenant_id,
                            tag: s.next_tag,
                            io: true,
                        },
                    },
                ],
            )
        }),
{
    let t = s.schedule_new(activity_id, tenant_id);
    let key = s.next_key;
    assert(!s.tasks.contains_key(key));
    assert(s.fill.push(key).drop_last() =~= s.fill);
    assert(s.ready_io.push(key).drop_last() =~= s.ready_io);
    assert(t.trace.events =~= (if s.trace.enabled {
        s.trace.events + seq![t.trace.events.last()]
    } else {
        s.trace.events
    }));
    let i = t.tasks[key].task_index;
    assert(i == s.indices.next_index());
    if s.indices.free.len() > 0 {
        assert(s.indices.free[s.indices.free.len() - 1] == i);
        assert(s.indices.free.contains(i));
    }
    assert forall|k: u64| #[trigger] s.tasks.contains_key(k) implies s.tasks[k].task_index != i by {
        assert(s.indices.used(s.tasks[k].task_index));
    }
}

/// A task that is over is a task no more: it is noted as completed, the count goes down by
/// one, and its index is free. Every other task is still there, under its index and for its
/// activity, and where the completion changed how it stands, it is ready now.
pub proof fn law_completed_task_is_gone(s: StateView, key: u64)
    requires
        s.valid(),
        s.tasks.contains_key(key),
    ensures
        ({
            let t = s.complete(key);
            &&& !t.tasks.contains_key(key)
            &&& t.task_count == s.task_count - 1
            &&& t.completed_tasks.len() == s.completed_tasks.len() + 1
            &&& t.completed_tasks.last() == key
            &&& t.completed_tasks.drop_last() == s.completed_tasks
            &&& t.indices.free.contains(s.tasks[key].task_index)
            &&& t.next_key == s.next_key
            &&& t.current_task == s.current_task
            &&& t.completions == s.completions
            &&& t.clock == s.clock
            &&& t.stats == s.stats
            &&& t.scopes == s.scopes
            &&& t.keep_running == s.keep_running
            &&& forall|k: u64|
                k != key ==> (#[trigger] t.tasks.contains_key(k)) == s.tasks.contains_key(k)
            &&& forall|k: u64|
                k != key && #[trigger] s.tasks.contains_key(k) ==> {
                    &&& t.tasks[k].task_index == s.tasks[k].task_index
                    &&& t.tasks[k].activity_id == s.tasks[k].activity_id
                    &&& t.tasks[k].tenant_id == s.tasks[k].tenant_id
                    &&& t.tasks[k].high_priority == s.tasks[k].high_priority
                    &&& t.tasks[k].joining == s.tasks[k].joining
                    &&& t.tasks[k] == s.tasks[k] || t.tasks[k].ready == TaskReadyState::Ready
                }
        }),
{
    let t = s.complete(key);
    let v = s.tasks[key];
    let done = TaskView { ready: TaskReadyState::Complete, joining: Seq::empty(), ..v };
    let marked = s.with_task(key, done);
    lemma_wakes_keep_tasks(marked, v.joining);
    let woken = marked.wake_waits(v.joining);
    assert(woken.completed_tasks.push(key).drop_last() =~= woken.completed_tasks);
    let free = t.indices.free;
    assert(free[free.len() - 1] == v.task_index);
    assert(t.completed_tasks.drop_last() =~= s.completed_tasks);
    assert forall|k: u64| k != key implies (#[trigger] t.tasks.contains_key(k))
        == s.tasks.contains_key(k) by {
        assert(woken.tasks.contains_key(k) == marked.tasks.contains_key(k));
    }
    assert forall|k: u64| k != key && #[trigger] s.tasks.contains_key(k) implies {
        &&& t.tasks[k].task_index == s.tasks[k].task_index
        &&& t.tasks[k].activity_id == s.tasks[k].activity_id
        &&& t.tasks[k].tenant_id == s.tasks[k].tenant_id
        &&& t.tasks[k].high_priority == s.tasks[k].high_priority
        &&& t.tasks[k].joining == s.tasks[k].joining
        &&& t.tasks[k] == s.tasks[k] || t.tasks[k].ready == TaskReadyState::Ready
    } by {
        assert(marked.tasks.contains_key(k));
    }
    assert(s.tasks.dom().contains(key));
    assert(s.tasks.dom().remove(key).len() == s.tasks.dom().len() - 1);
}

/// All who wait for a task are woken when it is over, in the order in which they began to wait,
/// and nobody else is.
pub proof fn law_completion_wakes_all_who_wait(s: StateView, key: u64)
    requires
        s.tasks.contains_key(key),
    ensures
        ({
            let t = s.complete(key);
            let over = StateView {
                tasks: s.tasks.insert(
                    key,
                    TaskView {
                        ready: TaskReadyState::Complete,
                        joining: Seq::empty(),
                        ..s.tasks[key]
                    },
                ),
                ..s
            };
            let woken = over.wake_waits(s.tasks[key].joining);
            &&& t.waits == woken.waits
            &&& t.fill == woken.fill && t.ready_io == woken.ready_io && t.ready_cpu
                == woken.ready_cpu
            &&& t.pending_wakes == woken.pending_wakes
            &&& t.trace == woken.trace
            &&& forall|k: u64| k != key ==> t.tasks[k] == #[trigger] woken.tasks[k]
        }),
{
}

/// Waking waits leaves tasks in place; where one stands otherwise then, it is ready.
pub proof fn lemma_wakes_keep_tasks(s: StateView, ids: Seq<u64>)
    ensures
        ({
            let t = s.wake_waits(ids);
            &&& forall|k: u64| (#[trigger] t.tasks.contains_key(k)) == s.tasks.contains_key(k)
            &&& forall|k: u64| #[trigger]
                s.tasks.contains_key(k) ==> {
                    &&& t.tasks[k].task_index == s.tasks[k].task_index
                    &&& t.tasks[k].activity_id == s.tasks[k].activity_id
                    &&& t.tasks[k].tenant_id == s.tasks[k].tenant_id
                    &&& t.tasks[k].high_priority == s.tasks[k].high_priority
                    &&& t.tasks[k].joining == s.tasks[k].joining
                    &&& t.tasks[k] == s.tasks[k] || t.tasks[k].ready == TaskReadyState::Ready
                }
            &&& t.completed_tasks == s.completed_tasks
            &&& t.indices == s.indices
            &&& t.task_count == s.task_count
            &&& t.next_key == s.next_key
            &&& t.current_task == s.current_task
            &&& t.completions == s.completions
            &&& t.clock == s.clock
            &&& t.stats == s.stats
            &&& t.scopes == s.scopes
            &&& t.keep_running == s.keep_running
        }),
    decreases ids.len(),
{
    if ids.len() > 0 {
        lemma_wakes_keep_tasks(s, ids.drop_last());
    }
}

/// The cohort that is polled next is the list that was filled, in the order in which it was
/// filled, once the last cohort is used up; a cohort that is not used up goes on.
pub proof fn law_cohort_is_the_filled_list(s: StateView)
    ensures
        ({
            let t = s.prepare_cohort();
            &&& s.ready_io.len() == 0 ==> t.ready_io == s.fill && t.fill.len() == 0
            &&& s.ready_io.len() > 0 ==> t.ready_io == s.ready_io && t.fill == s.fill
            &&& t.ready_cpu == s.ready_cpu && t.tasks == s.tasks && t.trace == s.trace
            &&& t.next_tag == s.next_tag
            &&& rest_same(s, t)
        }),
{
}

/// The task that is polled next is the first of the cohort; where that is used up, and no
/// task with CPU priority was just polled, the first of those; else none. It leaves its list,
/// is counted, and runs, unless it was aborted or is over.
pub proof fn law_next_task_is_the_first(s: StateView)
    ensures
        ({
            let t = s.get_ready();
            let from_io = s.ready_io.len() > 0;
            let from_cpu = s.ready_io.len() == 0 && !s.last_ready_cpu && s.ready_cpu.len() > 0;
            &&& from_io ==> {
                &&& s.next_ready() == Some(s.ready_io[0])
                &&& t.ready_io == s.ready_io.subrange(1, s.ready_io.len() as int)
                &&& t.ready_cpu == s.ready_cpu
                &&& !t.last_ready_cpu
                &&& t.stats.tasks_polled_io as int == (s.stats.tasks_polled_io + 1) % (u64::MAX + 1)
                &&& t.stats.tasks_polled_cpu == s.stats.tasks_polled_cpu
                &&& started_running(s, t, s.ready_io[0])
            }
            &&& from_cpu ==> {
                &&& s.next_ready() == Some(s.ready_cpu[0])
                &&& t.ready_cpu == s.ready_cpu.subrange(1, s.ready_cpu.len() as int)
                &&& t.ready_io == s.ready_io
                &&& t.last_ready_cpu
                &&& t.stats.tasks_polled_cpu as int == (s.stats.tasks_polled_cpu + 1) % (u64::MAX
                    + 1)
                &&& t.stats.tasks_polled_io == s.stats.tasks_polled_io
                &&& started_running(s, t, s.ready_cpu[0])
            }
            &&& !from_io && !from_cpu ==> s.next_ready() is None && t == (StateView {
                last_ready_cpu: false,
                ..s
            })
            &&& t.fill == s.fill
            &&& t.stats.in_flight_io == s.stats.in_flight_io
            &&& t.stats.in_flight_io_poll == s.stats.in_flight_io_poll
            &&& t.task_count == s.task_count && t.current_task == s.current_task
            &&& t.trace == s.trace && t.completions == s.completions && t.waits == s.waits
            &&& t.clock == s.clock && t.keep_running == s.keep_running
        }),
{
    assert(s.ready_io.len() > 0 ==> s.ready_io.drop_first() =~= s.ready_io.subrange(
        1,
        s.ready_io.len() as int,
    ));
    assert(s.ready_cpu.len() > 0 ==> s.ready_cpu.drop_first() =~= s.ready_cpu.subrange(
        1,
        s.ready_cpu.len() as int,
    ));
}

/// Whether task `key` runs in `t`, unless it was aborted or is over, and the other tasks are
/// as they were.
pub open spec fn started_running(s: StateView, t: StateView, key: u64) -> bool {
    &&& other_tasks_same(s, t, key)
    &&& t.tasks.contains_key(key) == s.tasks.contains_key(key)
    &&& s.tasks.contains_key(key) ==> t.tasks[key] == (TaskView {
        ready: if s.tasks[key].ready == TaskReadyState::Aborted || s.tasks[key].ready
            == TaskReadyState::Complete {
            s.tasks[key].ready
        } else {
            TaskReadyState::Running
        },
        ..s.tasks[key]
    })
}

/// A poll that leaves a task pending suspends it, unless it was woken or aborted during the
/// poll; it loses its priority, no task is current any more, and the end of the poll is
/// traced with where the task then stands.
pub proof fn law_pending_poll_suspends(s: StateView, run: TaskRun, cpu: u16)
    requires
        s.tasks.contains_key(run.key),
    ensures
        ({
            let t = s.poll_ended(run, false, cpu);
            let was = s.tasks[run.key].ready;
            let now = if was == TaskReadyState::Running {
                TaskReadyState::Suspend
            } else {
                was
            };
            &&& t.tasks.contains_key(run.key)
            &&& t.tasks[run.key] == (TaskView { ready: now, high_priority: false, ..s.tasks[run.key] })
            &&& other_tasks_same(s, t, run.key)
            &&& t.current_task is None
            &&& t.fill == s.fill && t.ready_io == s.ready_io && t.ready_cpu == s.ready_cpu
            &&& t.task_count == s.task_count && t.completions == s.completions
            &&& t.waits == s.waits && t.clock == s.clock
            &&& wrote_events(
                s,
                t,
                seq![
                    EventEnvelope {
                        thread_index: s.trace.thread_idx,
                        task_index: run.task_index,
                        event: Events::TaskRunEnd {
                            activity_id: run.activity_id,
                            start_time: run.start_time,
                            tag: run.tag,
                            cpu,
                            action: if now == TaskReadyState::Ready {
                                1
                            } else if now == TaskReadyState::Suspend {
                                3
                            } else if now == TaskReadyState::Aborted {
                                4
                            } else if now == TaskReadyState::Complete {
                                5
                            } else {
                                0
                            },
                            complete: false,
                        },
                    },
                ],
            )
        }),
{
    let t = s.poll_ended(run, false, cpu);
    assert(t.trace.events =~= (if s.trace.enabled {
        s.trace.events + seq![t.trace.events.last()]
    } else {
        s.trace.events
    }));
}

/// The end of a poll that ends its task completes it, and is traced as that.
pub proof fn law_last_poll_completes(s: StateView, run: TaskRun, cpu: u16)
    requires
        s.tasks.contains_key(run.key),
    ensures
        ({
            let t = s.poll_ended(run, true, cpu);
            let done = s.complete(run.key);
            &&& t.current_task is None
            &&& t.tasks == done.tasks && t.task_count == done.task_count
            &&& t.fill == done.fill && t.ready_io == done.ready_io && t.ready_cpu == done.ready_cpu
            &&& t.waits == done.waits && t.pending_wakes == done.pending_wakes
            &&& t.completed_tasks == done.completed_tasks
            &&& wrote_events(
                done,
                t,
                seq![
                    EventEnvelope {
                        thread_index: done.trace.thread_idx,
                        task_index: run.task_index,
                        event: Events::TaskRunEnd {
                            activity_id: run.activity_id,
                            start_time: run.start_time,
                            tag: run.tag,
                            cpu,
                            action: 5,
                            complete: true,
                        },
                    },
                ],
            )
        }),
{
    let t = s.poll_ended(run, true, cpu);
    let done = s.complete(run.key);
    assert(!done.tasks.contains_key(run.key));
    assert(t.trace.events =~= (if done.trace.enabled {
        done.trace.events + seq![t.trace.events.last()]
    } else {
        done.trace.events
    }));
}

/// While a task is polled it is the current one, and what is remembered of the poll is the
/// task's own.
pub proof fn law_polled_task_is_current(s: StateView, key: u64, now: u64)
    requires
        s.tasks.contains_key(key),
    ensures
        s.poll_begun(key) == (StateView { current_task: Some(key), ..s }),
        s.run_of(key, now).key == key,
        s.run_of(key, now).task_index == s.tasks[key].task_index,
        s.run_of(key, now).activity_id == s.tasks[key].activity_id,
        s.run_of(key, now).tag == s.tasks[key].tag,
        s.run_of(key, now).start_time == now,
{
}

/// Where a task stands appears in traces as these numbers; a key without a task is one whose
/// task is over.
pub proof fn law_states_have_their_numbers(s: StateView, key: u64)
    ensures
        TaskReadyState::Unknown.number() == 0,
        TaskReadyState::Ready.number() == 1,
        TaskReadyState::Running.number() == 2,
        TaskReadyState::Suspend.number() == 3,
        TaskReadyState::Aborted.number() == 4,
        TaskReadyState::Complete.number() == 5,
        s.tasks.contains_key(key) ==> s.ready_state(key) == s.tasks[key].ready,
        !s.tasks.contains_key(key) ==> s.ready_state(key) == TaskReadyState::Complete,
        s.any_ready() == (s.fill.len() > 0 || s.ready_io.len() > 0 || s.ready_cpu.len() > 0),
        s.queued(key) == (s.fill.contains(key) || s.ready_io.contains(key) || s.ready_cpu.contains(
            key,
        )),
        s.tasks.contains_key(key) ==> s.joining(key) == s.tasks[key].joining,
        !s.tasks.contains_key(key) ==> s.joining(key).len() == 0,
{
}

} // verus!
