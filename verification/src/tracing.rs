//! Trace events and the per-thread buffer that collects them.

use vstd::prelude::*;

verus! {

/// What happened. Activity and tenant identifiers are the 128 bits of a UUID.
#[derive(Clone, Copy, Debug, PartialEq, Eq, Structural)]
pub enum Events {
    /// A task became ready.
    TaskScheduled { activity_id: u128, tenant_id: u128, tag: u32, io: bool },
    /// A poll of a task ended.
    TaskRunEnd {
        activity_id: u128,
        start_time: u64,
        tag: u32,
        cpu: u16,
        action: u8,
        complete: bool,
    },
    /// The kernel was entered to submit and to collect I/O.
    RingEnterEnd {
        submissions: u64,
        in_flight_io: u64,
        start_time: u64,
        completions: u64,
        tag: u32,
        task_count: u32,
        want: bool,
        iopoll: bool,
    },
    /// A task began to wait for an event or for another task.
    AsyncWaitStart { activity_id: u128, tag: u32 },
    /// Such a wait was woken.
    AsyncWaitEnd { activity_id: u128, tag: u32 },
    /// An I/O operation was submitted.
    IoStart { activity_id: u128, fd: i32, tag: u32, io_type: u8 },
    /// An I/O operation completed, with 0 or an error number.
    IoEnd { activity_id: u128, result: i32, tag: u32 },
    /// An I/O operation could not be submitted.
    IoError { activity_id: u128, tag: u32, error: i32 },
    /// A TLS operation failed.
    TlsError { activity_id: u128, code: u64 },
    /// A future was dropped before it completed.
    FutureCanceled { activity_id: u128 },
}

/// An event with the thread and the task it belongs to.
#[derive(Clone, Copy, Debug, PartialEq, Eq, Structural)]
pub struct EventEnvelope {
    pub thread_index: u8,
    pub task_index: u16,
    pub event: Events,
}

/// The model of a trace buffer.
#[verifier::ext_equal]
pub struct TraceView {
    pub enabled: bool,
    pub thread_idx: u8,
    pub events: Seq<EventEnvelope>,
}

impl TraceView {
    /// The buffer after `event` of task `task_index`: one envelope longer where
    /// tracing is enabled.
    pub open spec fn write(self, task_index: u16, event: Events) -> Self {
        if self.enabled {
            TraceView {
                events: self.events.push(
                    EventEnvelope { thread_index: self.thread_idx, task_index, event },
                ),
                ..self
            }
        } else {
            self
        }
    }
}

/// Collects the trace events of one thread until they are drained to the program's
/// trace sink.
pub struct TraceBuffer {
    /// Whether a trace sink is configured.
    pub enabled: bool,
    /// The zero-based index of the thread.
    pub thread_idx: u8,
    /// The events that were not drained yet, in the order in which they happened.
    pub events: Vec<EventEnvelope>,
}

impl View for TraceBuffer {
    type V = TraceView;

    open spec fn view(&self) -> TraceView {
        TraceView { enabled: self.enabled, thread_idx: self.thread_idx, events: self.events@ }
    }
}

impl TraceBuffer {
    /// A buffer without a sink.
    pub fn new() -> (b: TraceBuffer)
        ensures
            b@ == (TraceView { enabled: false, thread_idx: 0, events: Seq::empty() }),
    {
        TraceBuffer { enabled: false, thread_idx: 0, events: Vec::new() }
    }

    /// Notes that `event` happened to the task with index `task_index`; does nothing
    /// where no sink is configured.
    pub fn write_event(&mut self, task_index: u16, event: Events)
        ensures
            final(self)@ == old(self)@.write(task_index, event),
    {
        if self.enabled {
            self.events.push(EventEnvelope { thread_index: self.thread_idx, task_index, event });
        }
    }

    /// Takes the collected events out, oldest first.
    pub fn drain(&mut self) -> (events: Vec<EventEnvelope>)
        ensures
            events@ == old(self)@.events,
            final(self)@ == (TraceView { events: Seq::empty(), ..old(self)@ }),
    {
        let mut events: Vec<EventEnvelope> = Vec::new();
        core::mem::swap(&mut events, &mut self.events);
        events
    }
}

} // verus!
