//! Waits: how a task comes to stand in a wait list, and how it leaves it.

use vstd::prelude::*;

use crate::model::{
    join_drop, join_poll, law_wait_poll_keeps_valid, not_id, wait_drop, wait_poll, wait_pollable,
    StateView, TaskReadyState, WaitData, WaitPoll, WaitStep, Waker,
};
use crate::tracing::Events;

use super::TaskState;

verus! {

broadcast use vstd::std_specs::hash::group_hash_axioms;

/// The tasks that wait for something, oldest first.
pub struct WaitList {
    pub ids: Vec<u64>,
}

impl View for WaitList {
    type V = Seq<u64>;

    open spec fn view(&self) -> Seq<u64> {
        self.ids@
    }
}

impl WaitList {
    /// Nobody waits.
    pub fn new() -> (l: WaitList)
        ensures
            l@ == Seq::<u64>::empty(),
    {
        WaitList { ids: Vec::new() }
    }

    /// Whether anybody waits.
    pub fn any_waiting(&self) -> (b: bool)
        ensures
            b == (self@.len() > 0),
    {
        self.ids.len() > 0
    }

    /// Wakes the oldest wait, if any, and returns whether there was one.
    pub fn wake_one(&mut self, state: &mut TaskState) -> (woke: bool)
        requires
            old(state)@.valid(),
        ensures
            final(state)@.valid(),
            woke == (old(self)@.len() > 0),
            woke ==> final(self)@ == old(self)@.drop_first() && final(state)@
                == old(state)@.wake_wait(old(self)@[0]),
            !woke ==> final(self)@ == old(self)@ && final(state)@ == old(state)@,
    {
        if self.ids.len() > 0 {
            let id: u64 = self.ids.remove(0);
            assert(self@ =~= old(self)@.drop_first());
            state.wake_wait(id);
            true
        } else {
            false
        }
    }

    /// Wakes everybody who waits, oldest first.
    pub fn wake_all(&mut self, state: &mut TaskState)
        requires
            old(state)@.valid(),
        ensures
            final(state)@.valid(),
            final(self)@ == Seq::<u64>::empty(),
            final(state)@ == old(state)@.wake_waits(old(self)@),
    {
        let mut ids: Vec<u64> = Vec::new();
        core::mem::swap(&mut ids, &mut self.ids);
        state.wake_waits(&ids);
    }

    /// Takes `id` out of the list.
    fn remove(&mut self, id: u64)
        ensures
            final(self)@ == old(self)@.filter(not_id(id)),
    {
        let ghost all = self@;
        let mut kept: Vec<u64> = Vec::new();
        let mut i: usize = 0;
        proof {
            reveal(Seq::filter);
            assert(all.take(0) =~= Seq::<u64>::empty());
        }
        while i < self.ids.len()
            invariant
                all == self.ids@,
                i <= all.len(),
                kept@ == all.take(i as int).filter(not_id(id)),
            decreases all.len() - i,
        {
            let x: u64 = self.ids[i];
            proof {
                reveal(Seq::filter);
                assert(all.take(i + 1).drop_last() =~= all.take(i as int));
                assert(all.take(i + 1).last() == x);
            }
            if x != id {
                kept.push(x);
            }
            i = i + 1;
        }
        assert(all.take(i as int) =~= all);
        self.ids = kept;
    }
}

/// A future that waits for something that has a wait list.
pub struct WaitFuture {
    /// Whether it still waits.
    pub alive: bool,
    /// Its wait, from the first poll that found nothing.
    pub wait: Option<u64>,
    /// For an event: whether it waits for the event to be set.
    pub expected: bool,
}

impl WaitFuture {
    /// A wait that was not polled yet.
    pub fn new(expected: bool) -> (f: WaitFuture)
        ensures
            f == (WaitFuture { alive: true, wait: None, expected }),
    {
        WaitFuture { alive: true, wait: None, expected }
    }

    /// Whether the wait is over.
    pub fn is_terminated(&self) -> (b: bool)
        ensures
            b == !self.alive,
    {
        !self.alive
    }

    /// Polls the wait from the running task. `complete` says whether what is waited
    /// for has come, `list` is where to wait for it, `waker` is what to wake then.
    pub fn poll(
        &mut self,
        list: &mut WaitList,
        complete: bool,
        state: &mut TaskState,
        waker: Waker,
        tag: u32,
    ) -> (outcome: WaitPoll)
        requires
            old(state)@.valid(),
            wait_pollable(old(state)@, old(self).alive, old(self).wait),
        ensures
            final(state)@.valid(),
            final(self).expected == old(self).expected,
            (WaitStep {
                state: final(state)@,
                list: final(list)@,
                alive: final(self).alive,
                wait: final(self).wait,
                outcome,
            }) == wait_poll(
                old(state)@,
                old(list)@,
                old(self).alive,
                old(self).wait,
                complete,
                waker,
                tag,
                old(self).expected,
            ),
    {
        proof {
            law_wait_poll_keeps_valid(
                old(state)@,
                old(list)@,
                old(self).alive,
                old(self).wait,
                complete,
                waker,
                tag,
                old(self).expected,
            );
        }
        if let Some(id) = self.wait {
            if state.take_canceled(id) {
                return WaitPoll::Canceled;
            }
        }
        let key: u64 = match state.get_current_task() {
            Some(key) => key,
            None => 0,
        };
        if matches!(state.get_state(key), TaskReadyState::Aborted) {
            if self.alive {
                list.wake_all(state);
            }
            return WaitPoll::Aborted;
        }
        if complete {
            self.alive = false;
            return WaitPoll::Ready;
        }
        let id: u64 = state.prepare_wait(key, self.wait, waker, tag, self.expected);
        self.wait = Some(id);
        if state.link_wait(id, tag) {
            list.ids.push(id);
        }
        state.register_wait(key, id);
        WaitPoll::Pending
    }

    /// Ends the future: a wait that is not over leaves its list.
    pub fn drop_wait(&mut self, list: &mut WaitList, state: &mut TaskState)
        requires
            old(state)@.valid(),
        ensures
            final(state)@.valid(),
            *final(self) == (WaitFuture { alive: false, wait: None, ..*old(self) }),
            (final(state)@, final(list)@) == wait_drop(
                old(state)@,
                old(list)@,
                old(self).alive,
                old(self).wait,
            ),
    {
        if let Some(id) = self.wait {
            if state.release_wait(id, self.alive) {
                list.remove(id);
            }
        }
        self.alive = false;
        self.wait = None;
    }
}

/// A wait for a task to complete.
pub struct TaskWait {
    /// The task that is waited for.
    pub key: u64,
    pub wait: WaitFuture,
}

impl TaskWait {
    /// A wait for task `key` that was not polled yet.
    pub fn new(key: u64) -> (f: TaskWait)
        ensures
            f == (TaskWait { key, wait: WaitFuture { alive: true, wait: None, expected: true } }),
    {
        TaskWait { key, wait: WaitFuture::new(true) }
    }

    /// Whether the wait is over.
    pub fn is_terminated(&self) -> (b: bool)
        ensures
            b == !self.wait.alive,
    {
        self.wait.is_terminated()
    }

    /// Polls the wait from the running task.
    pub fn poll(&mut self, state: &mut TaskState, waker: Waker, tag: u32) -> (outcome: WaitPoll)
        requires
            old(state)@.valid(),
            old(self).wait.expected,
            wait_pollable(old(state)@, old(self).wait.alive, old(self).wait.wait),
        ensures
            final(state)@.valid(),
            final(self).key == old(self).key,
            final(self).wait.expected,
            ({
                let r = join_poll(
                    old(state)@,
                    old(self).key,
                    old(self).wait.alive,
                    old(self).wait.wait,
                    waker,
                    tag,
                );
                &&& final(state)@ == r.state
                &&& final(self).wait.alive == r.alive
                &&& final(self).wait.wait == r.wait
                &&& outcome == r.outcome
            }),
    {
        let complete = matches!(state.get_state(self.key), TaskReadyState::Complete);
        let mut list = state.take_joining(self.key);
        let outcome = self.wait.poll(&mut list, complete, state, waker, tag);
        state.put_joining(self.key, list);
        outcome
    }

    /// Ends the future: a wait that is not over leaves the task's list.
    pub fn drop_wait(&mut self, state: &mut TaskState)
        requires
            old(state)@.valid(),
        ensures
            final(state)@.valid(),
            final(self).key == old(self).key,
            final(self).wait == (WaitFuture { alive: false, wait: None, ..old(self).wait }),
            final(state)@ == join_drop(
                old(state)@,
                old(self).key,
                old(self).wait.alive,
                old(self).wait.wait,
            ),
    {
        let mut list = state.take_joining(self.key);
        self.wait.drop_wait(&mut list, state);
        state.put_joining(self.key, list);
    }
}

impl TaskState {
    /// Takes the list of those who wait for a task.
    fn take_joining(&mut self, key: u64) -> (list: WaitList)
        requires
            old(self)@.valid(),
        ensures
            final(self)@.valid(),
            list@ == old(self)@.joining(key),
            final(self)@ == old(self)@.with_joining(key, Seq::empty()),
    {
        let mut list = WaitList::new();
        if let Some(mut task) = self.tasks.remove(&key) {
            core::mem::swap(&mut list.ids, &mut task.joining_tasks);
            self.tasks.insert(key, task);
        }
        assert(self@.tasks =~= old(self)@.with_joining(key, Seq::empty()).tasks);
        assert(self@.tasks.dom() =~= old(self)@.tasks.dom());
        list
    }

    /// Puts the list of those who wait for a task back; a task that is gone needs none.
    fn put_joining(&mut self, key: u64, list: WaitList)
        requires
            old(self)@.valid(),
        ensures
            final(self)@.valid(),
            final(self)@ == old(self)@.with_joining(key, list@),
    {
        if let Some(mut task) = self.tasks.remove(&key) {
            task.joining_tasks = list.ids;
            self.tasks.insert(key, task);
        }
        assert(self@.tasks =~= old(self)@.with_joining(key, list@).tasks);
        assert(self@.tasks.dom() =~= old(self)@.tasks.dom());
    }

    /// Clears the canceled mark of a wait and returns whether it was set.
    fn take_canceled(&mut self, id: u64) -> (was: bool)
        ensures
            was == old(self)@.wait_canceled(Some(id)),
            was ==> final(self)@ == (StateView {
                waits: old(self)@.waits.insert(
                    id,
                    WaitData { canceled: false, ..old(self)@.waits[id] },
                ),
                ..old(self)@
            }),
            !was ==> final(self)@ == old(self)@,
    {
        let mut w = match self.waits.get(&id) {
            Some(w) => *w,
            None => {
                return false;
            },
        };
        if w.canceled {
            w.canceled = false;
            self.waits.insert(id, w);
            true
        } else {
            false
        }
    }

    /// Whether a wait is for an event to be reset.
    pub fn waits_for_reset(&self, id: u64) -> (b: bool)
        ensures
            b == (self@.waits.contains_key(id) && !self@.waits[id].expected),
    {
        match self.waits.get(&id) {
            Some(w) => !w.expected,
            None => false,
        }
    }

    /// Makes the data of a first wait of task `key`, or gives a later one its new waker.
    fn prepare_wait(
        &mut self,
        key: u64,
        wait: Option<u64>,
        waker: Waker,
        tag: u32,
        expected: bool,
    ) -> (id: u64)
        requires
            old(self)@.current_task == Some(key),
            old(self)@.tasks.contains_key(key),
            old(self)@.next_wait < u64::MAX,
            wait matches Some(id) ==> old(self)@.waits.contains_key(id),
        ensures
            id == (match wait {
                Some(id) => id,
                None => old(self)@.next_wait,
            }),
            final(self)@ == old(self)@.wait_prepared(wait, waker, tag, expected),
    {
        match wait {
            Some(id) => {
                if let Some(w) = self.waits.get(&id) {
                    let mut w = *w;
                    w.waker = Some(waker);
                    self.waits.insert(id, w);
                }
                id
            },
            None => {
                let id: u64 = self.next_wait;
                self.next_wait = id + 1;
                if let Some(t) = self.tasks.get(&key) {
                    let w = WaitData {
                        activity_id: t.activity_id,
                        waker: Some(waker),
                        task_id: t.task_index,
                        canceled: false,
                        tag,
                        expected,
                        linked: false,
                        held: true,
                        scope_refs: 0,
                    };
                    self.waits.insert(id, w);
                }
                id
            },
        }
    }

    /// Marks a wait as standing in a list and traces that it begins. Returns whether it
    /// did not stand in one before.
    fn link_wait(&mut self, id: u64, tag: u32) -> (new: bool)
        requires
            old(self)@.waits.contains_key(id),
        ensures
            new == !old(self)@.waits[id].linked,
            final(self)@ == old(self)@.wait_linked(id, tag),
    {
        let mut w = match self.waits.get(&id) {
            Some(w) => *w,
            None => {
                return false;
            },
        };
        if w.linked {
            false
        } else {
            w.linked = true;
            self.waits.insert(id, w);
            self.trace_buffer.write_event(
                w.task_id,
                Events::AsyncWaitStart { activity_id: w.activity_id, tag },
            );
            true
        }
    }

    /// Notes a wait in the I/O scope of a task, where it has one.
    fn register_wait(&mut self, key: u64, id: u64)
        requires
            old(self)@.waits.contains_key(id),
            old(self)@.waits[id].scope_refs < u64::MAX,
        ensures
            final(self)@ == old(self)@.scope_noted(key, id),
    {
        if let Some(mut scope) = self.scopes.remove(&key) {
            scope.waits.push(id);
            self.scopes.insert(key, scope);
            if let Some(w) = self.waits.get(&id) {
                let mut w = *w;
                w.scope_refs = w.scope_refs + 1;
                self.waits.insert(id, w);
            }
        }
        assert(self@.scopes =~= old(self)@.scope_noted(key, id).scopes);
    }

    /// Notes that the future of a wait is gone. Returns whether the wait stood in a list
    /// that it has to leave, which is so only where the future still waited.
    fn release_wait(&mut self, id: u64, alive: bool) -> (leave: bool)
        requires
            old(self)@.valid(),
        ensures
            final(self)@.valid(),
            leave == (old(self)@.waits.contains_key(id) && alive && old(self)@.waits[id].linked),
            forall|list: Seq<u64>|
                final(self)@ == (#[trigger] wait_drop(old(self)@, list, alive, Some(id))).0,
    {
        let mut w = match self.waits.get(&id) {
            Some(w) => *w,
            None => {
                return false;
            },
        };
        let leave = alive && w.linked;
        if leave {
            w.linked = false;
        }
        w.held = false;
        self.put_wait(id, w);
        leave
    }
}

} // verus!
