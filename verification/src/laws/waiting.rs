//! Waits of tasks for events and for each other.

use vstd::prelude::*;

use crate::async_event::{for_reset, not_for_reset, EventView};
use crate::laws::scheduling::{lemma_wakes_keep_tasks, wrote_events};
use crate::model::{
    join_drop, join_poll, wait_drop, wait_poll, StateView, TaskReadyState, WaitData, WaitPoll,
    Waker,
};
use crate::seqs::{lemma_filter_has, lemma_filter_keeps};
use crate::tracing::{EventEnvelope, Events};

verus! {

/// Whether waits other than `id` are the same in two states.
pub open spec fn other_waits_same(s: StateView, t: StateView, id: u64) -> bool {
    forall|k: u64|
        k != id ==> (#[trigger] t.waits.contains_key(k) == s.waits.contains_key(k) && t.waits[k]
            == s.waits[k])
}

/// Whether wait `id` was canceled and did not report it yet.
pub open spec fn reports_cancel(s: StateView, wait: Option<u64>) -> bool {
    match wait {
        Some(id) => s.waits.contains_key(id) && s.waits[id].canceled,
        None => false,
    }
}

/// A canceled wait reports that at its next poll, whatever else there is to report, and
/// only once; it keeps its place.
pub proof fn law_cancellation_is_reported_first(
    s: StateView,
    list: Seq<u64>,
    alive: bool,
    id: u64,
    complete: bool,
    waker: Waker,
    tag: u32,
    expected: bool,
)
    requires
        s.waits.contains_key(id),
        s.waits[id].canceled,
    ensures
        ({
            let r = wait_poll(s, list, alive, Some(id), complete, waker, tag, expected);
            &&& r.outcome == WaitPoll::Canceled
            &&& r.list == list
            &&& r.alive == alive
            &&& r.wait == Some(id)
            &&& r.state.waits.contains_key(id)
            &&& r.state.waits[id] == (WaitData { canceled: false, ..s.waits[id] })
            &&& other_waits_same(s, r.state, id)
            &&& r.state == (StateView { waits: r.state.waits, ..s })
        }),
{
}

/// A wait of an aborted task ends in its abort, and wakes all who wait with it.
pub proof fn law_aborted_wait_wakes_the_others(
    s: StateView,
    list: Seq<u64>,
    alive: bool,
    wait: Option<u64>,
    complete: bool,
    waker: Waker,
    tag: u32,
    expected: bool,
)
    requires
        !reports_cancel(s, wait),
        s.current_task is Some,
        s.tasks[s.current_task->0].ready == TaskReadyState::Aborted,
    ensures
        ({
            let r = wait_poll(s, list, alive, wait, complete, waker, tag, expected);
            &&& r.outcome == WaitPoll::Aborted
            &&& r.alive == alive
            &&& r.wait == wait
            &&& alive ==> r.list.len() == 0 && r.state == s.wake_waits(list)
            &&& !alive ==> r.list == list && r.state == s
        }),
{
}

/// A wait whose condition holds ends, and changes nothing.
pub proof fn law_wait_ends_where_its_condition_holds(
    s: StateView,
    list: Seq<u64>,
    alive: bool,
    wait: Option<u64>,
    waker: Waker,
    tag: u32,
    expected: bool,
)
    requires
        !reports_cancel(s, wait),
        s.current_task is Some,
        s.tasks[s.current_task->0].ready != TaskReadyState::Aborted,
    ensures
        ({
            let r = wait_poll(s, list, alive, wait, true, waker, tag, expected);
            &&& r.outcome == WaitPoll::Ready
            &&& !r.alive
            &&& r.list == list
            &&& r.wait == wait
            &&& r.state == s
        }),
{
}

/// A wait whose condition does not hold stands in the list, under the waker of the last
/// poll. One that is new, or was woken, goes to the end, and its begin is traced; one that
/// stands in the list keeps its place. A new one carries the running task's index and
/// activity, and what it is waiting for. Where the task has a scope, that gathers the wait.
pub proof fn law_pending_wait_is_in_the_list(
    s: StateView,
    list: Seq<u64>,
    alive: bool,
    wait: Option<u64>,
    waker: Waker,
    tag: u32,
    expected: bool,
)
    requires
        !reports_cancel(s, wait),
        s.current_task is Some,
        s.tasks[s.current_task->0].ready != TaskReadyState::Aborted,
        wait matches Some(id) ==> s.waits.contains_key(id) && s.waits[id].scope_refs < u64::MAX,
        s.next_wait < u64::MAX,
    ensures
        ({
            let r = wait_poll(s, list, alive, wait, false, waker, tag, expected);
            let t = r.state;
            let key = s.current_task->0;
            let task = s.tasks[key];
            let id = match wait {
                Some(id) => id,
                None => s.next_wait,
            };
            let stands = wait is Some && s.waits[id].linked;
            let scoped: u64 = if s.scopes.contains_key(key) {
                1
            } else {
                0
            };
            let w = t.waits[id];
            &&& r.outcome == WaitPoll::Pending
            &&& r.alive
            &&& r.wait == Some(id)
            &&& t.waits.contains_key(id)
            &&& w.waker == Some(waker)
            &&& w.linked
            &&& wait is None ==> {
                &&& w.activity_id == task.activity_id
                &&& w.task_id == task.task_index
                &&& w.tag == tag
                &&& w.expected == expected
                &&& w.held
                &&& !w.canceled
                &&& w.scope_refs == scoped
                &&& t.next_wait == s.next_wait + 1
            }
            &&& wait is Some ==> {
                &&& w.activity_id == s.waits[id].activity_id
                &&& w.task_id == s.waits[id].task_id
                &&& w.tag == s.waits[id].tag
                &&& w.expected == s.waits[id].expected
                &&& w.held == s.waits[id].held
                &&& !w.canceled
                &&& w.scope_refs == s.waits[id].scope_refs + scoped
                &&& t.next_wait == s.next_wait
            }
            &&& stands ==> r.list == list && t.trace == s.trace
            &&& !stands ==> r.list == list.push(id) && wrote_events(
                s,
                t,
                seq![
                    EventEnvelope {
                        thread_index: s.trace.thread_idx,
                        task_index: w.task_id,
                        event: Events::AsyncWaitStart { activity_id: w.activity_id, tag },
                    },
                ],
            )
            &&& s.scopes.contains_key(key) ==> {
                &&& t.scopes[key].waits == s.scopes[key].waits.push(id)
                &&& t.scopes[key].completions == s.scopes[key].completions
                &&& t.scopes == s.scopes.insert(key, t.scopes[key])
            }
            &&& !s.scopes.contains_key(key) ==> t.scopes == s.scopes
            &&& other_waits_same(s, t, id)
            &&& t == (StateView {
                waits: t.waits,
                scopes: t.scopes,
                next_wait: t.next_wait,
                trace: t.trace,
                ..s
            })
        }),
{
    let t = wait_poll(s, list, alive, wait, false, waker, tag, expected).state;
    assert(t.trace.events =~= s.trace.events || t.trace.events =~= s.trace.events
        + seq![t.trace.events.last()]);
}

/// A wait that is woken stands in its list no more, and is forgotten where neither its future
/// nor a scope refers to it. Its end is traced, and its task woken.
pub proof fn law_woken_wait_leaves_its_list(s: StateView, id: u64)
    requires
        s.waits.contains_key(id),
    ensures
        ({
            let w = s.waits[id];
            let t = s.wake_wait(id);
            let kept = w.held || w.scope_refs > 0;
            let n = s.trace.events.len() as int;
            &&& t.waits.contains_key(id) == kept
            &&& kept ==> t.waits[id] == (WaitData { linked: false, ..w })
            &&& other_waits_same(s, t, id)
            &&& s.trace.enabled ==> {
                &&& t.trace.events.len() > n
                &&& t.trace.events[n] == (EventEnvelope {
                    thread_index: s.trace.thread_idx,
                    task_index: w.task_id,
                    event: Events::AsyncWaitEnd { activity_id: w.activity_id, tag: w.tag },
                })
            }
            &&& w.waker matches Some(Waker::Task(key)) ==> {
                s.tasks.contains_key(key) && (s.tasks[key].ready == TaskReadyState::Suspend
                    || s.tasks[key].ready == TaskReadyState::Running) ==> t.tasks[key].ready
                    == TaskReadyState::Ready && (t.fill.contains(key) || t.ready_io.contains(key))
            }
            &&& w.waker matches Some(Waker::Foreign(f)) ==> t.pending_wakes
                == s.pending_wakes.push(f)
            &&& w.waker is None ==> t.tasks == s.tasks && t.fill == s.fill && t.ready_io
                == s.ready_io && t.pending_wakes == s.pending_wakes
            &&& forall|k: u64|
                w.waker != Some(Waker::Task(k)) ==> t.tasks[k] == #[trigger] s.tasks[k]
        }),
{
    let w = s.waits[id];
    let t = s.wake_wait(id);
    if let Some(Waker::Task(key)) = w.waker {
        assert(t.fill.len() > s.fill.len() ==> t.fill[t.fill.len() - 1] == key);
        assert(t.ready_io.len() > s.ready_io.len() ==> t.ready_io[t.ready_io.len() - 1] == key);
    }
}

/// A wait that its scope cancels is marked and its task woken; the scope refers to it no
/// more, and it is forgotten where nothing else does.
pub proof fn law_canceled_wait_is_marked_and_woken(s: StateView, id: u64)
    requires
        s.waits.contains_key(id),
    ensures
        ({
            let w = s.waits[id];
            let t = s.cancel_wait(id);
            let kept = w.linked || w.held || w.scope_refs > 1;
            &&& t.waits.contains_key(id) == kept
            &&& kept ==> {
                &&& t.waits[id].canceled
                &&& w.scope_refs > 0 ==> t.waits[id].scope_refs == w.scope_refs - 1
                &&& w.scope_refs == 0 ==> t.waits[id].scope_refs == 0
                &&& t.waits[id].linked == w.linked && t.waits[id].held == w.held
                &&& t.waits[id].waker == w.waker && t.waits[id].tag == w.tag
                &&& t.waits[id].expected == w.expected && t.waits[id].task_id == w.task_id
                &&& t.waits[id].activity_id == w.activity_id
            }
            &&& other_waits_same(s, t, id)
            &&& w.waker matches Some(Waker::Task(key)) ==> {
                s.tasks.contains_key(key) && (s.tasks[key].ready == TaskReadyState::Suspend
                    || s.tasks[key].ready == TaskReadyState::Running) ==> t.tasks[key].ready
                    == TaskReadyState::Ready && (t.fill.contains(key) || t.ready_io.contains(key))
            }
            &&& w.waker matches Some(Waker::Foreign(f)) ==> t.pending_wakes
                == s.pending_wakes.push(f)
            &&& w.waker is None ==> t.tasks == s.tasks && t.fill == s.fill && t.ready_io
                == s.ready_io && t.pending_wakes == s.pending_wakes
            &&& t.completions == s.completions && t.cancels == s.cancels
        }),
{
    let w = s.waits[id];
    let t = s.cancel_wait(id);
    if let Some(Waker::Task(key)) = w.waker {
        assert(t.fill.len() > s.fill.len() ==> t.fill[t.fill.len() - 1] == key);
        assert(t.ready_io.len() > s.ready_io.len() ==> t.ready_io[t.ready_io.len() - 1] == key);
    }
}

/// A wait that a scope gives up has one reference less, is not canceled by that, and is
/// forgotten where nothing else refers to it. A wait that is not there stays that.
pub proof fn law_released_wait_is_not_canceled(s: StateView, id: u64)
    ensures
        ({
            let t = s.release_wait(id);
            let w = s.waits[id];
            let noted = s.waits.contains_key(id) && w.scope_refs > 0;
            let kept = w.linked || w.held || w.scope_refs > 1;
            &&& !noted ==> t == s
            &&& noted ==> {
                &&& t.waits.contains_key(id) == kept
                &&& kept ==> t.waits[id] == (WaitData {
                    scope_refs: (w.scope_refs - 1) as u64,
                    ..w
                })
                &&& other_waits_same(s, t, id)
                &&& t == (StateView { waits: t.waits, ..s })
            }
            &&& !s.waits.contains_key(id) ==> s.wake_wait(id) == s && s.cancel_wait(id) == s
        }),
{
}

/// A future that is dropped while it waits leaves the list, and the others keep their
/// places; a wait that is over does not touch the list. Either way the wait is forgotten
/// where nothing else refers to it, and nobody is woken.
pub proof fn law_dropped_wait_leaves_its_list(s: StateView, list: Seq<u64>, alive: bool, id: u64)
    requires
        s.waits.contains_key(id),
    ensures
        ({
            let w = s.waits[id];
            let r = wait_drop(s, list, alive, Some(id));
            let leaves = alive && w.linked;
            let kept = (w.linked && !leaves) || w.scope_refs > 0;
            &&& r.0.waits.contains_key(id) == kept
            &&& kept ==> r.0.waits[id] == (WaitData {
                held: false,
                linked: w.linked && !leaves,
                ..w
            })
            &&& other_waits_same(s, r.0, id)
            &&& r.0 == (StateView { waits: r.0.waits, ..s })
            &&& !leaves ==> r.1 == list
            &&& leaves ==> !r.1.contains(id)
            &&& leaves ==> forall|k: u64| k != id ==> #[trigger] r.1.contains(k) == list.contains(k)
            &&& leaves ==> r.1.len() <= list.len()
        }),
{
    let r = wait_drop(s, list, alive, Some(id));
    let w = s.waits[id];
    if alive && w.linked {
        let p = crate::model::not_id(id);
        if r.1.contains(id) {
            let i = choose|i: int| 0 <= i < r.1.len() && r.1[i] == id;
            lemma_filter_keeps(list, p, i);
        }
        assert forall|k: u64| k != id implies #[trigger] r.1.contains(k) == list.contains(k) by {
            if list.contains(k) {
                let i = choose|i: int| 0 <= i < list.len() && list[i] == k;
                lemma_filter_has(list, p, i);
            }
            if r.1.contains(k) {
                let i = choose|i: int| 0 <= i < r.1.len() && r.1[i] == k;
                lemma_filter_keeps(list, p, i);
            }
        }
        lemma_filter_shortens(list, p);
    }
}

/// Where there is no wait to be forgotten, dropping a future changes nothing.
pub proof fn law_dropping_no_wait_changes_nothing(
    s: StateView,
    list: Seq<u64>,
    alive: bool,
    wait: Option<u64>,
)
    requires
        wait matches Some(id) ==> !s.waits.contains_key(id),
    ensures
        wait_drop(s, list, alive, wait) == (s, list),
{
}

proof fn lemma_filter_shortens(list: Seq<u64>, p: spec_fn(u64) -> bool)
    ensures
        list.filter(p).len() <= list.len(),
    decreases list.len(),
{
    reveal(Seq::filter);
    if list.len() > 0 {
        lemma_filter_shortens(list.drop_last(), p);
    }
}

/// A wait for a task ends once that task is over, and stands among those who wait for it
/// until then; the others who wait for it keep their places, and other tasks are not
/// touched.
pub proof fn law_join_waits_for_the_end(
    s: StateView,
    key: u64,
    wait: Option<u64>,
    waker: Waker,
    tag: u32,
)
    requires
        !reports_cancel(s, wait),
        s.current_task is Some,
        s.tasks.contains_key(s.current_task->0),
        s.tasks[s.current_task->0].ready != TaskReadyState::Aborted,
        wait matches Some(id) ==> s.waits.contains_key(id) && s.waits[id].scope_refs < u64::MAX,
        s.next_wait < u64::MAX,
        s.tasks.contains_key(key) ==> s.tasks[key].ready != TaskReadyState::Complete,
    ensures
        ({
            let r = join_poll(s, key, true, wait, waker, tag);
            let id = match wait {
                Some(id) => id,
                None => s.next_wait,
            };
            let stands = wait is Some && s.waits[id].linked;
            &&& !s.tasks.contains_key(key) ==> r.outcome == WaitPoll::Ready && r.state == s
                && !r.alive
            &&& s.tasks.contains_key(key) ==> {
                &&& r.outcome == WaitPoll::Pending
                &&& r.alive
                &&& r.wait == Some(id)
                &&& r.state.tasks[key].joining == (if stands {
                    s.tasks[key].joining
                } else {
                    s.tasks[key].joining.push(id)
                })
                &&& r.state.tasks[key].ready == s.tasks[key].ready
                &&& r.state.waits.contains_key(id)
                &&& r.state.waits[id].waker == Some(waker)
                &&& r.state.waits[id].linked
                &&& wait is None ==> r.state.waits[id].task_id
                    == s.tasks[s.current_task->0].task_index && r.state.waits[id].activity_id
                    == s.tasks[s.current_task->0].activity_id
                &&& forall|k: u64|
                    k != key ==> (#[trigger] r.state.tasks.contains_key(k))
                        == s.tasks.contains_key(k) && r.state.tasks[k] == s.tasks[k]
                &&& r.state.fill == s.fill && r.state.ready_io == s.ready_io && r.state.ready_cpu
                    == s.ready_cpu
            }
        }),
{
    let r = join_poll(s, key, true, wait, waker, tag);
    if !s.tasks.contains_key(key) {
        assert(r.state == s);
    }
}

/// A canceled wait for a task says so and leaves those who wait for the task alone; where the
/// task that waits was aborted, they are all woken and wait no more.
pub proof fn law_join_ends_early(
    s: StateView,
    key: u64,
    wait: Option<u64>,
    waker: Waker,
    tag: u32,
)
    requires
        s.current_task is Some,
        s.tasks.contains_key(s.current_task->0),
        s.tasks.contains_key(key),
    ensures
        ({
            let r = join_poll(s, key, true, wait, waker, tag);
            let aborted = s.tasks[s.current_task->0].ready == TaskReadyState::Aborted;
            &&& reports_cancel(s, wait) ==> {
                &&& r.outcome == WaitPoll::Canceled
                &&& r.alive
                &&& r.state.tasks[key] == s.tasks[key]
                &&& !r.state.waits[wait->0].canceled
                &&& r.state.fill == s.fill && r.state.ready_io == s.ready_io
            }
            &&& !reports_cancel(s, wait) && aborted ==> {
                &&& r.outcome == WaitPoll::Aborted
                &&& r.state.tasks.contains_key(key)
                &&& r.state.tasks[key].joining.len() == 0
            }
        }),
{
    let without = s.with_joining(key, Seq::empty());
    lemma_wakes_keep_tasks(without, s.tasks[key].joining);
    assert(without.tasks.contains_key(key));
}

/// A future that waited for a task and is dropped is not among those who wait for it; the
/// others are, in their order, and nobody is woken.
pub proof fn law_dropped_join_leaves_the_task(s: StateView, key: u64, id: u64)
    requires
        s.tasks.contains_key(key),
        s.waits.contains_key(id),
        s.waits[id].linked,
    ensures
        ({
            let t = join_drop(s, key, true, Some(id));
            &&& !t.tasks[key].joining.contains(id)
            &&& forall|k: u64|
                k != id ==> #[trigger] t.tasks[key].joining.contains(k)
                    == s.tasks[key].joining.contains(k)
            &&& t.tasks[key].ready == s.tasks[key].ready
            &&& t.fill == s.fill && t.ready_io == s.ready_io && t.ready_cpu == s.ready_cpu
            &&& other_waits_same(s, t, id)
        }),
{
    law_dropped_wait_leaves_its_list(
        s.with_joining(key, Seq::empty()),
        s.tasks[key].joining,
        true,
        id,
    );
}

/// Setting an event and waking some of those who wait reaches those who wait longest, as
/// many as were asked for or as there are; the others keep waiting, in their order.
pub proof fn law_longest_waits_are_woken(e: EventView, count: nat)
    ensures
        ({
            let woken = e.first(count);
            let after = e.woken(count);
            &&& after.state
            &&& woken + after.waiting == e.waiting
            &&& woken.len() <= count
            &&& woken.len() < count ==> after.waiting.len() == 0
        }),
{
    if count <= e.waiting.len() {
        assert(e.first(count) + e.woken(count).waiting =~= e.waiting);
    } else {
        assert(e.waiting + Seq::<u64>::empty() =~= e.waiting);
    }
}

/// Setting an event leaves it set with nobody waiting, as waking as many as wait does.
pub proof fn law_set_event_has_no_waits(e: EventView, count: nat)
    requires
        count >= e.waiting.len(),
    ensures
        e.all_woken().state,
        e.all_woken().waiting.len() == 0,
        e.woken(count) == e.all_woken(),
        e.first(count) == e.waiting,
{
    crate::async_event::law_wake_n_wakes_all(e, count);
}

/// A reset wakes those who wait for it and no others: each wait for an event either is for
/// its reset, and is woken, or stays. The event is then not set.
pub proof fn law_reset_wakes_those_who_wait_for_it(s: StateView, e: EventView, id: u64)
    requires
        e.waiting.contains(id),
    ensures
        !e.was_reset(s).state,
        e.reset_wakes(s).contains(id) == (s.waits.contains_key(id) && !s.waits[id].expected),
        e.was_reset(s).waiting.contains(id) == (!s.waits.contains_key(id) || s.waits[id].expected),
        e.reset_wakes(s).len() + e.was_reset(s).waiting.len() == e.waiting.len(),
{
    let waiting = e.waiting;
    let i = choose|i: int| 0 <= i < waiting.len() && waiting[i] == id;
    let woken = waiting.filter(for_reset(s));
    let kept = waiting.filter(not_for_reset(s));
    if !s.waits.contains_key(id) || s.waits[id].expected {
        lemma_filter_has(waiting, not_for_reset(s), i);
        if woken.contains(id) {
            let j = choose|j: int| 0 <= j < woken.len() && woken[j] == id;
            lemma_filter_keeps(waiting, for_reset(s), j);
        }
    } else {
        lemma_filter_has(waiting, for_reset(s), i);
        if kept.contains(id) {
            let j = choose|j: int| 0 <= j < kept.len() && kept[j] == id;
            lemma_filter_keeps(waiting, not_for_reset(s), j);
        }
    }
    lemma_reset_splits(s, waiting);
}

proof fn lemma_reset_splits(s: StateView, waiting: Seq<u64>)
    ensures
        waiting.filter(for_reset(s)).len() + waiting.filter(not_for_reset(s)).len()
            == waiting.len(),
    decreases waiting.len(),
{
    reveal(Seq::filter);
    if waiting.len() > 0 {
        lemma_reset_splits(s, waiting.drop_last());
    }
}

} // verus!
