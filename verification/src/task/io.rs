//! I/O operations: their life from creation to result, and the scopes that keep
//! track of them.

use vstd::prelude::*;

use crate::errno::{Errno, ECANCELED, ETIME};
use crate::model::{
    law_cancel_completion_keeps_valid, law_cancel_wait_keeps_valid, law_io_completed_keeps_valid,
    law_new_completion_keeps_valid, law_return_completion_keeps_valid, CancelRequest, Completion,
    CompletionEntry, CompletionState, Cqe, IoScopeView, StateView, Waker,
    MAX_COMPLETION_POOL_ENTRIES,
};
use crate::tracing::Events;

use super::{IoScopeCompletions, TaskState};

verus! {

broadcast use vstd::std_specs::hash::group_hash_axioms;

/// Room for `n` more operations in flight on either ring.
pub open spec fn in_flight_room(s: StateView, n: int) -> bool {
    s.stats.in_flight_io + n <= u64::MAX && s.stats.in_flight_io_poll + n <= u64::MAX
}

impl IoScopeCompletions {
    /// A scope in which nothing was begun.
    pub fn new() -> (s: IoScopeCompletions)
        ensures
            s@ == IoScopeView::empty(),
    {
        IoScopeCompletions { completions: Vec::new(), waits: Vec::new() }
    }
}

impl TaskState {
    /// Whether the running task is in an I/O scope.
    pub fn in_io_scope(&self) -> (b: bool)
        ensures
            b == (self@.current_task matches Some(key) && self@.scopes.contains_key(key)),
    {
        match self.current_task {
            Some(key) => self.scopes.contains_key(&key),
            None => false,
        }
    }

    /// How far operation `id` got; `None` where there is no such operation.
    pub fn completion_state(&self, id: u64) -> (s: Option<CompletionState>)
        ensures
            s is Some == self@.completions.contains_key(id),
            s matches Some(s) ==> s == self@.completions[id].completion.state,
    {
        match self.completions.get(&id) {
            Some(e) => Some(e.completion.state),
            None => None,
        }
    }

    /// Gives operation `id` up. Its last owner leaves it to the pool for reuse, while
    /// the pool has room.
    pub fn return_completion(&mut self, id: u64)
        requires
            old(self)@.valid(),
        ensures
            final(self)@.valid(),
            final(self)@ == old(self)@.return_completion(id),
    {
        proof {
            law_return_completion_keeps_valid(old(self)@, id);
        }
        let mut e = match self.completions.get(&id) {
            Some(e) => *e,
            None => {
                return ;
            },
        };
        if e.pooled {
            return ;
        }
        if e.refs > 1 {
            e.refs = e.refs - 1;
            self.completions.insert(id, e);
        } else if self.completion_pool.len() < MAX_COMPLETION_POOL_ENTRIES {
            e.pooled = true;
            self.completions.insert(id, e);
            self.completion_pool.push_back(id);
        } else {
            self.completions.remove(&id);
        }
    }

    /// Makes a new operation, reusing one from the pool where there is one.
    pub fn new_completion(&mut self, completion: Completion) -> (id: u64)
        requires
            old(self)@.valid(),
            old(self)@.next_completion < u64::MAX,
        ensures
            final(self)@.valid(),
            id == old(self)@.next_completion_id(),
            final(self)@ == old(self)@.new_completion(completion),
    {
        proof {
            law_new_completion_keeps_valid(old(self)@, completion);
        }
        let e = CompletionEntry { completion, refs: 1, pooled: false };
        if let Some(id) = self.completion_pool.pop_front() {
            assert(self.completion_pool@ =~= old(self)@.completion_pool.drop_first());
            self.completions.insert(id, e);
            id
        } else {
            let id: u64 = self.next_completion;
            self.next_completion = id + 1;
            self.completions.insert(id, e);
            id
        }
    }

    /// Notes that the program submitted an operation to the kernel.
    pub fn submit_completion(&mut self, id: u64, waker: Waker, activity_id: u128, tag: u32)
        requires
            old(self)@.valid(),
            old(self)@.completions.contains_key(id),
            old(self)@.completions[id].completion.state is Idle,
            !old(self)@.completions[id].pooled,
            old(self)@.completions[id].refs < u64::MAX,
            in_flight_room(old(self)@, 2),
        ensures
            final(self)@.valid(),
            final(self)@ == old(self)@.io_submitted(id, waker, activity_id, tag),
    {
        if let Some(e) = self.completions.get(&id) {
            let mut e = *e;
            let n: u64 = match e.completion.state {
                CompletionState::Idle { timespec: true } => 2,
                _ => 1,
            };
            e.completion.state = CompletionState::Submitted {
                waker,
                activity_id,
                tag,
                canceled: false,
            };
            e.refs = e.refs + 1;
            let iopoll = e.completion.iopoll;
            self.completions.insert(id, e);
            self.stats.increment_in_flight(iopoll, n);
        }
        assert(self@.pool_ok());
    }

    /// Takes the result of an operation that has one; the operation is then over.
    pub fn take_result(&mut self, id: u64) -> (r: Option<Result<u32, Errno>>)
        requires
            old(self)@.valid(),
        ensures
            final(self)@.valid(),
            r is Some == (old(self)@.completions.contains_key(id)
                && old(self)@.completions[id].completion.state is Completed),
            r matches Some(v) ==> v == old(self)@.completions[id].completion.state->Completed_result
                && final(self)@ == old(self)@.with_io_state(id, CompletionState::Terminated),
            r is None ==> final(self)@ == old(self)@,
    {
        let mut e = match self.completions.get(&id) {
            Some(e) => *e,
            None => {
                return None;
            },
        };
        match e.completion.state {
            CompletionState::Completed { result } => {
                e.completion.state = CompletionState::Terminated;
                self.completions.insert(id, e);
                assert(self@.pool_ok());
                Some(result)
            },
            _ => None,
        }
    }

    /// Cancels an operation: one that the kernel does not have yet ends at once; for one
    /// that it has, a cancel request is noted, once.
    pub fn cancel_completion(&mut self, id: u64)
        requires
            old(self)@.valid(),
            in_flight_room(old(self)@, 1),
        ensures
            final(self)@.valid(),
            final(self)@ == old(self)@.cancel_completion(id),
    {
        proof {
            law_cancel_completion_keeps_valid(old(self)@, id);
        }
        let mut e = match self.completions.get(&id) {
            Some(e) => *e,
            None => {
                return ;
            },
        };
        match e.completion.state {
            CompletionState::Idle { timespec: _ } => {
                e.completion.state = CompletionState::Completed {
                    result: Err(Errno { code: ECANCELED }),
                };
                self.completions.insert(id, e);
            },
            CompletionState::Submitted { waker, activity_id, tag, canceled } => {
                if !canceled {
                    e.completion.state = CompletionState::Submitted {
                        waker,
                        activity_id,
                        tag,
                        canceled: true,
                    };
                    self.completions.insert(id, e);
                    self.cancels.push(CancelRequest { completion: id, iopoll: e.completion.iopoll });
                    self.stats.increment_in_flight(e.completion.iopoll, 1);
                }
            },
            _ => {},
        }
    }

    /// Takes the cancel requests to hand to the kernel, oldest first.
    pub fn take_cancels(&mut self) -> (requests: Vec<CancelRequest>)
        requires
            old(self)@.valid(),
        ensures
            final(self)@.valid(),
            requests@ == old(self)@.cancels,
            final(self)@ == (StateView { cancels: Seq::empty(), ..old(self)@ }),
    {
        let mut requests: Vec<CancelRequest> = Vec::new();
        core::mem::swap(&mut requests, &mut self.cancels);
        requests
    }

    /// Takes in one completion that the kernel reports.
    pub fn complete_io(&mut self, cqe: Cqe)
        requires
            old(self)@.valid(),
            cqe.user_data matches Some(id) ==> old(self)@.in_kernel(id),
        ensures
            final(self)@.valid(),
            final(self)@ == old(self)@.io_completed(cqe),
    {
        proof {
            law_io_completed_keeps_valid(old(self)@, cqe);
        }
        let id: u64 = match cqe.user_data {
            Some(id) => id,
            None => {
                return ;
            },
        };
        let mut e = match self.completions.get(&id) {
            Some(e) => *e,
            None => {
                return ;
            },
        };
        if let CompletionState::Submitted { waker, activity_id, tag, canceled } =
            e.completion.state {
            let result = match cqe.result {
                Err(errno) => if errno.code == ECANCELED && !canceled {
                    Err(Errno { code: ETIME })
                } else {
                    Err(errno)
                },
                Ok(n) => Ok(n),
            };
            let code: i32 = match result {
                Ok(_) => 0,
                Err(errno) => errno.code,
            };
            self.trace_buffer.write_event(
                e.completion.task_index,
                Events::IoEnd { activity_id, result: code, tag },
            );
            e.completion.state = CompletionState::Completed { result };
            self.completions.insert(id, e);
            assert(self@.pool_ok());
            self.return_completion(id);
            self.wake(waker);
        }
    }

    /// Takes in the completions that the kernel reports on one ring, in order, and
    /// counts them off.
    pub fn complete_all_io(&mut self, cqes: &Vec<Cqe>, iopoll: bool)
        requires
            old(self)@.valid(),
            old(self)@.can_complete(cqes@),
            cqes@.len() <= old(self)@.stats.in_flight(iopoll),
        ensures
            final(self)@.valid(),
            final(self)@ == old(self)@.all_io_completed(cqes@).more_in_flight(
                iopoll,
                -(cqes@.len() as int),
            ),
    {
        let mut i: usize = 0;
        assert(cqes@.take(0) =~= Seq::<Cqe>::empty());
        while i < cqes.len()
            invariant
                i <= cqes@.len(),
                self@.valid(),
                self@ == old(self)@.all_io_completed(cqes@.take(i as int)),
                self@.stats == old(self)@.stats,
                forall|j: int|
                    i <= j < cqes@.len() && (#[trigger] cqes@[j]).user_data is Some
                        ==> self@.in_kernel(cqes@[j].user_data->0),
                old(self)@.can_complete(cqes@),
            decreases cqes@.len() - i,
        {
            let ghost before = self@;
            proof {
                law_io_completed_keeps_valid(before, cqes@[i as int]);
            }
            self.complete_io(cqes[i]);
            proof {
                let n = cqes@.take(i + 1);
                assert(n.drop_last() =~= cqes@.take(i as int));
                assert(n.last() == cqes@[i as int]);
                assert forall|j: int|
                    i + 1 <= j < cqes@.len() && (#[trigger] cqes@[j]).user_data is Some implies self@.in_kernel(
                    cqes@[j].user_data->0,
                ) by {
                    assert(before.in_kernel(cqes@[j].user_data->0));
                }
            }
            i = i + 1;
        }
        assert(cqes@.take(i as int) =~= cqes@);
        self.stats.decrement_in_flight(iopoll, cqes.len() as u64);
    }

    /// Replaces the I/O scope of a task and returns the one that it had.
    pub fn replace_io_scope_completions(
        &mut self,
        key: u64,
        scope: Option<IoScopeCompletions>,
    ) -> (old_scope: Option<IoScopeCompletions>)
        requires
            old(self)@.valid(),
        ensures
            final(self)@.valid(),
            old_scope is Some == old(self)@.scope(key) is Some,
            old_scope matches Some(s) ==> s@ == old(self)@.scope(key)->0,
            final(self)@ == old(self)@.with_scope(
                key,
                match scope {
                    Some(s) => Some(s@),
                    None => None,
                },
            ),
    {
        let old_scope = self.scopes.remove(&key);
        if let Some(s) = scope {
            self.scopes.insert(key, s);
        }
        assert(self@.scopes =~= old(self)@.with_scope(
            key,
            match scope {
                Some(s) => Some(s@),
                None => None,
            },
        ).scopes);
        old_scope
    }

    /// Notes an operation in the I/O scope of the task that begins it, where it has one.
    pub fn register_io(&mut self, key: u64, id: u64)
        requires
            old(self)@.valid(),
            old(self)@.completions.contains_key(id),
            !old(self)@.completions[id].pooled,
            old(self)@.completions[id].refs < u64::MAX,
        ensures
            final(self)@.valid(),
            final(self)@ == old(self)@.io_registered(key, id),
    {
        if let Some(mut scope) = self.scopes.remove(&key) {
            scope.completions.push(id);
            self.scopes.insert(key, scope);
            if let Some(e) = self.completions.get(&id) {
                let mut e = *e;
                e.refs = e.refs + 1;
                self.completions.insert(id, e);
            }
        }
        assert(self@.scopes =~= old(self)@.io_registered(key, id).scopes);
        assert(self@.pool_ok());
    }

    /// Cancels the operations `ids` and gives them up, in order.
    fn cancel_and_return(&mut self, ids: &Vec<u64>)
        requires
            old(self)@.valid(),
            in_flight_room(old(self)@, ids@.len() as int),
        ensures
            final(self)@.valid(),
            final(self)@ == old(self)@.cancel_and_return(ids@),
    {
        let mut i: usize = 0;
        assert(ids@.take(0) =~= Seq::<u64>::empty());
        while i < ids.len()
            invariant
                i <= ids@.len(),
                self@.valid(),
                in_flight_room(self@, ids@.len() - i),
                self@ == old(self)@.cancel_and_return(ids@.take(i as int)),
            decreases ids@.len() - i,
        {
            self.cancel_completion(ids[i]);
            self.return_completion(ids[i]);
            proof {
                let n = ids@.take(i + 1);
                assert(n.drop_last() =~= ids@.take(i as int));
                assert(n.last() == ids@[i as int]);
            }
            i = i + 1;
        }
        assert(ids@.take(i as int) =~= ids@);
    }

    /// Cancels the operations `ids`, in order.
    pub fn cancel_completions(&mut self, ids: &Vec<u64>)
        requires
            old(self)@.valid(),
            in_flight_room(old(self)@, ids@.len() as int),
        ensures
            final(self)@.valid(),
            final(self)@ == old(self)@.cancel_completions(ids@),
    {
        let mut i: usize = 0;
        assert(ids@.take(0) =~= Seq::<u64>::empty());
        while i < ids.len()
            invariant
                i <= ids@.len(),
                self@.valid(),
                in_flight_room(self@, ids@.len() - i),
                self@ == old(self)@.cancel_completions(ids@.take(i as int)),
            decreases ids@.len() - i,
        {
            self.cancel_completion(ids[i]);
            proof {
                let n = ids@.take(i + 1);
                assert(n.drop_last() =~= ids@.take(i as int));
                assert(n.last() == ids@[i as int]);
            }
            i = i + 1;
        }
        assert(ids@.take(i as int) =~= ids@);
    }

    /// Marks a wait of an I/O scope as canceled and wakes it.
    fn cancel_wait(&mut self, id: u64)
        requires
            old(self)@.valid(),
        ensures
            final(self)@.valid(),
            final(self)@ == old(self)@.cancel_wait(id),
    {
        proof {
            law_cancel_wait_keeps_valid(old(self)@, id);
        }
        let wait = match self.waits.get(&id) {
            Some(w) => *w,
            None => {
                return ;
            },
        };
        let mut marked = wait;
        marked.canceled = true;
        if marked.scope_refs > 0 {
            marked.scope_refs = marked.scope_refs - 1;
        }
        self.put_wait(id, marked);
        if let Some(waker) = wait.waker {
            assert(self@.valid());
            self.wake(waker);
        }
    }

    /// Cancels and wakes the waits of an I/O scope, in order.
    pub fn cancel_waits(&mut self, ids: &Vec<u64>)
        requires
            old(self)@.valid(),
        ensures
            final(self)@.valid(),
            final(self)@ == old(self)@.cancel_waits(ids@),
    {
        let mut i: usize = 0;
        assert(ids@.take(0) =~= Seq::<u64>::empty());
        while i < ids.len()
            invariant
                i <= ids@.len(),
                self@.valid(),
                self@ == old(self)@.cancel_waits(ids@.take(i as int)),
            decreases ids@.len() - i,
        {
            self.cancel_wait(ids[i]);
            proof {
                let n = ids@.take(i + 1);
                assert(n.drop_last() =~= ids@.take(i as int));
                assert(n.last() == ids@[i as int]);
            }
            i = i + 1;
        }
        assert(ids@.take(i as int) =~= ids@);
    }

    /// Cancels and gives up the operations of a task's I/O scope. The scope stays open.
    /// The program then enters the kernel, so that it gets the cancel requests, and goes
    /// on with [`TaskState::cancel_io_scope_waits`].
    pub fn cancel_io_scope_completions(&mut self, key: u64)
        requires
            old(self)@.valid(),
            old(self)@.scopes.contains_key(key),
            in_flight_room(old(self)@, old(self)@.scopes[key].completions.len() as int),
        ensures
            final(self)@.valid(),
            ({
                let scope = old(self)@.scopes[key];
                final(self)@ == old(self)@.with_scope(
                    key,
                    Some(IoScopeView { completions: Seq::empty(), ..scope }),
                ).cancel_and_return(scope.completions)
            }),
    {
        let mut ids: Vec<u64> = Vec::new();
        let ghost scope = old(self)@.scopes[key];
        if let Some(mut s) = self.scopes.remove(&key) {
            core::mem::swap(&mut ids, &mut s.completions);
            self.scopes.insert(key, s);
        }
        assert(self@.scopes =~= old(self)@.scopes.insert(
            key,
            IoScopeView { completions: Seq::empty(), ..scope },
        ));
        self.cancel_and_return(&ids);
    }

    /// Cancels and wakes the waits of a task's I/O scope. The scope stays open.
    pub fn cancel_io_scope_waits(&mut self, key: u64)
        requires
            old(self)@.valid(),
            old(self)@.scopes.contains_key(key),
        ensures
            final(self)@.valid(),
            ({
                let scope = old(self)@.scopes[key];
                final(self)@ == old(self)@.with_scope(
                    key,
                    Some(IoScopeView { waits: Seq::empty(), ..scope }),
                ).cancel_waits(scope.waits)
            }),
    {
        let mut ids: Vec<u64> = Vec::new();
        let ghost scope = old(self)@.scopes[key];
        if let Some(mut s) = self.scopes.remove(&key) {
            core::mem::swap(&mut ids, &mut s.waits);
            self.scopes.insert(key, s);
        }
        assert(self@.scopes =~= old(self)@.scopes.insert(
            key,
            IoScopeView { waits: Seq::empty(), ..scope },
        ));
        self.cancel_waits(&ids);
    }

    /// Drops from `ids` the operations that have their result, and gives those up.
    pub fn retain_incomplete(&mut self, ids: &mut Vec<u64>)
        requires
            old(self)@.valid(),
        ensures
            final(self)@.valid(),
            (final(self)@, final(ids)@) == old(self)@.retain_incomplete(old(ids)@, 0),
    {
        let mut index: usize = 0;
        while index < ids.len()
            invariant
                index <= ids@.len(),
                self@.valid(),
                self@.retain_incomplete(ids@, index as nat) == old(self)@.retain_incomplete(
                    old(ids)@,
                    0,
                ),
            decreases ids@.len() - index,
        {
            let id: u64 = ids[index];
            let retain = matches!(
                self.completion_state(id),
                Some(CompletionState::Idle { .. }) | Some(CompletionState::Submitted { .. })
            );
            if !retain {
                let ghost before = ids@;
                let _removed: u64 = ids.swap_remove(index);
                assert(ids@ =~= before.update(index as int, before.last()).drop_last());
                self.return_completion(id);
            } else {
                index = index + 1;
            }
        }
    }

    /// Forgets the complete tasks, and the I/O scopes that they left open. Returns their
    /// keys, oldest first, for the program to drop their futures.
    pub fn drop_completed_tasks(&mut self) -> (keys: Vec<u64>)
        requires
            old(self)@.valid(),
        ensures
            final(self)@.valid(),
            keys@ == old(self)@.completed_tasks,
            final(self)@ == (StateView {
                completed_tasks: Seq::empty(),
                ..old(self)@
            }).tasks_dropped(old(self)@.completed_tasks),
    {
        let mut keys: Vec<u64> = Vec::new();
        core::mem::swap(&mut keys, &mut self.completed_tasks);
        let ghost start = self@;
        let mut i: usize = 0;
        assert(keys@.take(0) =~= Seq::<u64>::empty());
        while i < keys.len()
            invariant
                i <= keys@.len(),
                self@.valid(),
                self@ == start.tasks_dropped(keys@.take(i as int)),
            decreases keys@.len() - i,
        {
            self.drop_task(keys[i]);
            proof {
                let n = keys@.take(i + 1);
                assert(n.drop_last() =~= keys@.take(i as int));
                assert(n.last() == keys@[i as int]);
            }
            i = i + 1;
        }
        assert(keys@.take(i as int) =~= keys@);
        keys
    }

    /// Gives up what the I/O scope of a complete task still refers to.
    fn drop_task(&mut self, key: u64)
        requires
            old(self)@.valid(),
        ensures
            final(self)@.valid(),
            final(self)@ == old(self)@.task_dropped(key),
    {
        if let Some(scope) = self.replace_io_scope_completions(key, None) {
            let ghost start = self@;
            let mut i: usize = 0;
            assert(scope.completions@.take(0) =~= Seq::<u64>::empty());
            while i < scope.completions.len()
                invariant
                    i <= scope.completions@.len(),
                    self@.valid(),
                    self@ == start.return_completions(scope.completions@.take(i as int)),
                decreases scope.completions@.len() - i,
            {
                self.return_completion(scope.completions[i]);
                proof {
                    let n = scope.completions@.take(i + 1);
                    assert(n.drop_last() =~= scope.completions@.take(i as int));
                    assert(n.last() == scope.completions@[i as int]);
                }
                i = i + 1;
            }
            assert(scope.completions@.take(i as int) =~= scope.completions@);
            let ghost mid = self@;
            let mut j: usize = 0;
            assert(scope.waits@.take(0) =~= Seq::<u64>::empty());
            while j < scope.waits.len()
                invariant
                    j <= scope.waits@.len(),
                    self@.valid(),
                    self@ == mid.release_waits(scope.waits@.take(j as int)),
                decreases scope.waits@.len() - j,
            {
                let id: u64 = scope.waits[j];
                if let Some(w) = self.waits.get(&id) {
                    let mut w = *w;
                    if w.scope_refs > 0 {
                        w.scope_refs = w.scope_refs - 1;
                        self.put_wait(id, w);
                    }
                }
                proof {
                    let n = scope.waits@.take(j + 1);
                    assert(n.drop_last() =~= scope.waits@.take(j as int));
                    assert(n.last() == scope.waits@[j as int]);
                }
                j = j + 1;
            }
            assert(scope.waits@.take(j as int) =~= scope.waits@);
        } else {
            assert(self@.scopes =~= old(self)@.scopes);
        }
    }
}

} // verus!
