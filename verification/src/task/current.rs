//! The running task, and what it asks of its thread.

use vstd::prelude::*;

use crate::errno::Errno;
use crate::model::{StateView, TaskView};

use super::TaskState;

verus! {

broadcast use vstd::std_specs::hash::group_hash_axioms;

impl StateView {
    /// The activity of the running task, none where no task is running.
    pub open spec fn current_activity_id(self) -> u128 {
        if self.running() {
            self.tasks[self.current_task->0].activity_id
        } else {
            0
        }
    }

    /// The tenant of the running task, none where no task is running.
    pub open spec fn current_tenant_id(self) -> u128 {
        if self.running() {
            self.tasks[self.current_task->0].tenant_id
        } else {
            0
        }
    }

    /// With the running task replaced, where there is one.
    pub open spec fn with_current(self, task: TaskView) -> Self {
        if self.running() {
            self.with_task(self.current_task->0, task)
        } else {
            self
        }
    }

    /// Whether the poll of an operation that begins now is to fail with an injected
    /// fault.
    pub open spec fn fault_due(self) -> Option<Errno> {
        match self.fault {
            Some((0, fault)) => Some(fault),
            _ => None,
        }
    }

    /// After the poll of an operation was counted against an injected fault.
    pub open spec fn fault_counted(self) -> Self {
        StateView {
            fault: match self.fault {
                Some((n, fault)) => if n == 0 {
                    None
                } else {
                    Some(((n - 1) as usize, fault))
                },
                None => None,
            },
            ..self
        }
    }
}

impl TaskState {
    /// The index of the running task in trace events.
    pub fn current_task_index(&self) -> (i: Option<u16>)
        ensures
            i is Some == self@.running(),
            i matches Some(i) ==> i == self@.tasks[self@.current_task->0].task_index,
    {
        match self.current_task {
            Some(key) => match self.tasks.get(&key) {
                Some(t) => Some(t.task_index),
                None => None,
            },
            None => None,
        }
    }

    /// The index of this thread.
    pub fn thread_index(&self) -> (i: u8)
        ensures
            i == self@.trace.thread_idx,
    {
        self.trace_buffer.thread_idx
    }

    /// The activity of the running task, none where no task is running.
    pub fn get_current_activity_id(&self) -> (id: u128)
        ensures
            id == self@.current_activity_id(),
    {
        match self.current_task {
            Some(key) => match self.tasks.get(&key) {
                Some(t) => t.activity_id,
                None => 0,
            },
            None => 0,
        }
    }

    /// The tenant of the running task, none where no task is running.
    pub fn get_current_tenant_id(&self) -> (id: u128)
        ensures
            id == self@.current_tenant_id(),
    {
        match self.current_task {
            Some(key) => match self.tasks.get(&key) {
                Some(t) => t.tenant_id,
                None => 0,
            },
            None => 0,
        }
    }

    /// Sets the activity and the tenant of the running task, where there is one.
    pub fn set_current_activity_id_and_tenant_id(&mut self, activity_id: u128, tenant_id: u128)
        requires
            old(self)@.valid(),
        ensures
            final(self)@.valid(),
            final(self)@ == old(self)@.with_current(
                TaskView {
                    activity_id,
                    tenant_id,
                    ..old(self)@.tasks[old(self)@.current_task->0]
                },
            ),
    {
        if let Some(key) = self.current_task {
            if let Some(mut t) = self.tasks.remove(&key) {
                t.activity_id = activity_id;
                t.tenant_id = tenant_id;
                self.tasks.insert(key, t);
            }
        }
        proof {
            let t = TaskView {
                activity_id,
                tenant_id,
                ..old(self)@.tasks[old(self)@.current_task->0]
            };
            assert(self@.tasks =~= old(self)@.with_current(t).tasks);
            assert(self@.tasks.dom() =~= old(self)@.tasks.dom());
        }
    }

    /// Sets the priority of the running task, where there is one.
    pub fn set_current_high_priority(&mut self, high_priority: bool)
        requires
            old(self)@.valid(),
        ensures
            final(self)@.valid(),
            final(self)@ == old(self)@.with_current(
                TaskView { high_priority, ..old(self)@.tasks[old(self)@.current_task->0] },
            ),
    {
        if let Some(key) = self.current_task {
            if let Some(mut t) = self.tasks.remove(&key) {
                t.high_priority = high_priority;
                self.tasks.insert(key, t);
            }
        }
        proof {
            let t = TaskView { high_priority, ..old(self)@.tasks[old(self)@.current_task->0] };
            assert(self@.tasks =~= old(self)@.with_current(t).tasks);
            assert(self@.tasks.dom() =~= old(self)@.tasks.dom());
        }
    }

    /// Lets the poll of an operation that follows the next `operation` ones fail with
    /// `fault`.
    pub fn inject_fault(&mut self, operation: usize, fault: Errno)
        requires
            old(self)@.valid(),
        ensures
            final(self)@.valid(),
            final(self)@ == (StateView { fault: Some((operation, fault)), ..old(self)@ }),
    {
        self.fault = Some((operation, fault));
    }

    /// Counts the poll of an operation against an injected fault, and returns the fault
    /// if it is due.
    pub fn take_fault(&mut self) -> (fault: Option<Errno>)
        requires
            old(self)@.valid(),
        ensures
            final(self)@.valid(),
            fault == old(self)@.fault_due(),
            final(self)@ == old(self)@.fault_counted(),
    {
        match self.fault {
            Some((n, fault)) => if n == 0 {
                self.fault = None;
                Some(fault)
            } else {
                self.fault = Some((n - 1, fault));
                None
            },
            None => None,
        }
    }
}

} // verus!
