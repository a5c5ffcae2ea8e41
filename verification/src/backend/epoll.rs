//! Readiness through epoll: who waits for which descriptor.

use std::collections::HashMap;

use vstd::prelude::*;

use crate::model::Waker;

verus! {

broadcast use vstd::std_specs::hash::group_hash_axioms;

/// How many events are collected at once.
pub const EPOLL_EVENT_BATCH: usize = 64;

/// The token of the descriptor that interrupts a wait.
pub const EVENTFD_TOKEN: u64 = 0xffff_ffff_ffff_ffff;

/// A descriptor can be read.
pub const EPOLLIN: u32 = 1;

/// A descriptor can be written to.
pub const EPOLLOUT: u32 = 4;

/// A descriptor has an error.
pub const EPOLLERR: u32 = 8;

/// The other end of a descriptor hung up.
pub const EPOLLHUP: u32 = 16;

/// Who waits for a descriptor.
#[derive(Clone, Copy, Debug)]
pub struct FdWakers {
    pub read_waker: Option<Waker>,
    pub write_waker: Option<Waker>,
}

impl FdWakers {
    /// Whether nobody waits.
    pub open spec fn nobody(self) -> bool {
        self.read_waker is None && self.write_waker is None
    }

    /// The events to watch for.
    pub open spec fn flags(self) -> u32 {
        ((if self.read_waker is Some {
            EPOLLIN as int
        } else {
            0
        }) + (if self.write_waker is Some {
            EPOLLOUT as int
        } else {
            0
        })) as u32
    }

    /// With new waits; the old ones stay where there is no new one.
    pub open spec fn updated(self, read: Option<Waker>, write: Option<Waker>) -> FdWakers {
        FdWakers {
            read_waker: if read is Some {
                read
            } else {
                self.read_waker
            },
            write_waker: if write is Some {
                write
            } else {
                self.write_waker
            },
        }
    }
}

/// A change to the set of descriptors that the kernel watches. The token of a descriptor
/// is its number.
#[derive(Clone, Copy, Debug, PartialEq, Eq, Structural)]
pub enum EpollCommand {
    Add { fd: i32, flags: u32 },
    Modify { fd: i32, flags: u32 },
}

/// An event that the kernel reports.
#[derive(Clone, Copy, Debug)]
pub struct EpollEvent {
    pub token: u64,
    pub flags: u32,
}

/// Whether an event concerns those who want to read: the descriptor can be read, hung up
/// or has an error.
pub open spec fn readable(flags: u32) -> bool {
    flags & 0x19 != 0
}

/// Whether an event concerns those who want to write.
pub open spec fn writable(flags: u32) -> bool {
    flags & 0x1c != 0
}

/// The readers and writers of each descriptor, whom events wake and which descriptors are
/// then watched no more.
#[verifier::ext_equal]
pub struct Collected {
    pub waiting: Map<i32, FdWakers>,
    pub wakers: Seq<Waker>,
    pub deleted: Seq<i32>,
    /// How often the interrupt was reported.
    pub interrupts: nat,
}

/// A waker appended, if there is one.
pub open spec fn appended(wakers: Seq<Waker>, waker: Option<Waker>) -> Seq<Waker> {
    match waker {
        Some(w) => wakers.push(w),
        None => wakers,
    }
}

impl Collected {
    /// After one more event.
    pub open spec fn event(self, event: EpollEvent) -> Collected {
        let fd = event.token as i32;
        if event.token == EVENTFD_TOKEN {
            Collected { interrupts: self.interrupts + 1, ..self }
        } else if !self.waiting.contains_key(fd) {
            self
        } else {
            let w = self.waiting[fd];
            let left = FdWakers {
                read_waker: if readable(event.flags) {
                    None
                } else {
                    w.read_waker
                },
                write_waker: if writable(event.flags) {
                    None
                } else {
                    w.write_waker
                },
            };
            let woken = appended(
                appended(
                    self.wakers,
                    if readable(event.flags) {
                        w.read_waker
                    } else {
                        None
                    },
                ),
                if writable(event.flags) {
                    w.write_waker
                } else {
                    None
                },
            );
            Collected {
                waiting: if left.nobody() {
                    self.waiting.remove(fd)
                } else {
                    self.waiting.insert(fd, left)
                },
                wakers: woken,
                deleted: if left.nobody() {
                    self.deleted.push(fd)
                } else {
                    self.deleted
                },
                ..self
            }
        }
    }

    /// After these events, in order.
    pub open spec fn events(self, events: Seq<EpollEvent>) -> Collected
        decreases events.len(),
    {
        if events.len() == 0 {
            self
        } else {
            self.events(events.drop_last()).event(events.last())
        }
    }

    /// Before any event.
    pub open spec fn start(waiting: Map<i32, FdWakers>) -> Collected {
        Collected { waiting, wakers: Seq::empty(), deleted: Seq::empty(), interrupts: 0 }
    }
}

/// Every descriptor is watched for somebody.
pub open spec fn all_awaited(waiting: Map<i32, FdWakers>) -> bool {
    forall|fd: i32| #[trigger] waiting.contains_key(fd) ==> !waiting[fd].nobody()
}

/// How long to wait for events, in nanoseconds, where `want` are wanted.
pub open spec fn wait_nanos(want: usize) -> i64 {
    if want == 0 {
        0
    } else {
        10_000_000
    }
}

/// What a batch of events asks for.
pub struct Ready {
    /// Whom to wake, in order.
    pub wakers: Vec<Waker>,
    /// The descriptors that are watched no more.
    pub deleted: Vec<i32>,
    /// How often to read the descriptor that interrupts a wait.
    pub interrupts: usize,
}

/// Who waits for which descriptor.
pub struct EpollDriver {
    wakers: HashMap<i32, FdWakers>,
}

impl View for EpollDriver {
    type V = Map<i32, FdWakers>;

    closed spec fn view(&self) -> Map<i32, FdWakers> {
        self.wakers@
    }
}

impl EpollDriver {
    /// Nobody waits.
    pub fn new() -> (d: EpollDriver)
        ensures
            d@ == Map::<i32, FdWakers>::empty(),
            all_awaited(d@),
    {
        EpollDriver { wakers: HashMap::new() }
    }

    /// Lets `waker` wait until `fd` can be read.
    pub fn register_read(&mut self, fd: i32, waker: Waker) -> (command: EpollCommand)
        requires
            all_awaited(old(self)@),
        ensures
            all_awaited(final(self)@),
            (final(self)@, command) == registered(old(self)@, fd, Some(waker), None),
    {
        self.update_waker(fd, Some(waker), None)
    }

    /// Lets `waker` wait until `fd` can be written to.
    pub fn register_write(&mut self, fd: i32, waker: Waker) -> (command: EpollCommand)
        requires
            all_awaited(old(self)@),
        ensures
            all_awaited(final(self)@),
            (final(self)@, command) == registered(old(self)@, fd, None, Some(waker)),
    {
        self.update_waker(fd, None, Some(waker))
    }

    fn update_waker(&mut self, fd: i32, read: Option<Waker>, write: Option<Waker>) -> (command:
        EpollCommand)
        requires
            all_awaited(old(self)@),
            read is Some || write is Some,
        ensures
            all_awaited(final(self)@),
            (final(self)@, command) == registered(old(self)@, fd, read, write),
    {
        let known = match self.wakers.get(&fd) {
            Some(w) => Some(*w),
            None => None,
        };
        match known {
            Some(w) => {
                let mut w = w;
                if read.is_some() {
                    w.read_waker = read;
                }
                if write.is_some() {
                    w.write_waker = write;
                }
                self.wakers.insert(fd, w);
                EpollCommand::Modify { fd, flags: Self::compute_flags_for(&w) }
            },
            None => {
                let w = FdWakers { read_waker: read, write_waker: write };
                self.wakers.insert(fd, w);
                EpollCommand::Add { fd, flags: Self::compute_flags_for(&w) }
            },
        }
    }

    fn compute_flags_for(w: &FdWakers) -> (flags: u32)
        ensures
            flags == w.flags(),
    {
        let mut flags: u32 = 0;
        if w.read_waker.is_some() {
            flags = flags + EPOLLIN;
        }
        if w.write_waker.is_some() {
            flags = flags + EPOLLOUT;
        }
        flags
    }

    /// Lets nobody wait for `fd` any more. Returns whether it was watched and is to be
    /// watched no more.
    pub fn deregister(&mut self, fd: i32) -> (delete: bool)
        requires
            all_awaited(old(self)@),
        ensures
            all_awaited(final(self)@),
            delete == old(self)@.contains_key(fd),
            final(self)@ == old(self)@.remove(fd),
    {
        self.wakers.remove(&fd).is_some()
    }

    /// How long to wait for events, in nanoseconds: not at all where none is wanted, else
    /// for 10 milliseconds.
    pub fn collect_timeout(want: usize) -> (nanos: i64)
        ensures
            nanos == wait_nanos(want),
    {
        if want == 0 {
            0
        } else {
            10_000_000
        }
    }

    /// Takes in a batch of events: whom they concern is woken, and waits no more.
    pub fn collect_ready(&mut self, events: &Vec<EpollEvent>) -> (r: Ready)
        requires
            all_awaited(old(self)@),
        ensures
            all_awaited(final(self)@),
            (Collected {
                waiting: final(self)@,
                wakers: r.wakers@,
                deleted: r.deleted@,
                interrupts: r.interrupts as nat,
            }) == Collected::start(old(self)@).events(events@),
    {
        let mut wakers: Vec<Waker> = Vec::new();
        let mut deleted: Vec<i32> = Vec::new();
        let mut interrupts: usize = 0;
        let mut i: usize = 0;
        assert(events@.take(0) =~= Seq::<EpollEvent>::empty());
        while i < events.len()
            invariant
                i <= events@.len(),
                interrupts <= i,
                all_awaited(self@),
                (Collected {
                    waiting: self@,
                    wakers: wakers@,
                    deleted: deleted@,
                    interrupts: interrupts as nat,
                }) == Collected::start(old(self)@).events(events@.take(i as int)),
            decreases events@.len() - i,
        {
            let event = events[i];
            proof {
                let n = events@.take(i + 1);
                assert(n.drop_last() =~= events@.take(i as int));
                assert(n.last() == event);
            }
            i = i + 1;
            if event.token == EVENTFD_TOKEN {
                interrupts = interrupts + 1;
            } else {
                let fd: i32 = #[verifier::truncate] (event.token as i32);
                let known = match self.wakers.get(&fd) {
                    Some(w) => Some(*w),
                    None => None,
                };
                if let Some(w) = known {
                    let mut w = w;
                    if event.flags & 0x19 != 0 {
                        if let Some(waker) = w.read_waker.take() {
                            wakers.push(waker);
                        }
                    }
                    if event.flags & 0x1c != 0 {
                        if let Some(waker) = w.write_waker.take() {
                            wakers.push(waker);
                        }
                    }
                    if w.read_waker.is_none() && w.write_waker.is_none() {
                        self.wakers.remove(&fd);
                        deleted.push(fd);
                    } else {
                        self.wakers.insert(fd, w);
                    }
                }
            }
        }
        assert(events@.take(i as int) =~= events@);
        Ready { wakers, deleted, interrupts }
    }
}

/// Who waits after new waits were registered for `fd`, and what the kernel is told.
pub open spec fn registered(
    waiting: Map<i32, FdWakers>,
    fd: i32,
    read: Option<Waker>,
    write: Option<Waker>,
) -> (Map<i32, FdWakers>, EpollCommand) {
    if waiting.contains_key(fd) {
        let w = waiting[fd].updated(read, write);
        (waiting.insert(fd, w), EpollCommand::Modify { fd, flags: w.flags() })
    } else {
        let w = FdWakers { read_waker: read, write_waker: write };
        (waiting.insert(fd, w), EpollCommand::Add { fd, flags: w.flags() })
    }
}

/// A wait for one direction of a descriptor leaves the wait for the other one alone.
pub proof fn law_directions_are_independent(
    waiting: Map<i32, FdWakers>,
    fd: i32,
    reader: Waker,
    writer: Waker,
)
    ensures
        ({
            let once = registered(waiting, fd, Some(reader), None).0;
            let twice = registered(once, fd, None, Some(writer)).0;
            twice[fd] == (FdWakers { read_waker: Some(reader), write_waker: Some(writer) })
        }),
{
}

/// Whoever an event wakes waits no more: a second such event wakes nobody.
pub proof fn law_woken_once(c: Collected, event: EpollEvent)
    requires
        event.token != EVENTFD_TOKEN,
        all_awaited(c.waiting),
    ensures
        c.event(event).event(event).wakers == c.event(event).wakers,
{
    let fd = event.token as i32;
    if c.waiting.contains_key(fd) {
        let once = c.event(event);
        assert(!once.waiting.contains_key(fd) || (readable(event.flags)
            ==> once.waiting[fd].read_waker is None));
    }
}

/// A descriptor that hung up or failed wakes both directions and is watched no more.
pub proof fn law_hang_up_wakes_both(c: Collected, fd: i32, flags: u32)
    requires
        fd >= 0,
        c.waiting.contains_key(fd),
        readable(flags),
        writable(flags),
    ensures
        ({
            let w = c.waiting[fd];
            let after = c.event(EpollEvent { token: fd as u64, flags });
            &&& after.wakers == appended(appended(c.wakers, w.read_waker), w.write_waker)
            &&& !after.waiting.contains_key(fd)
            &&& after.deleted == c.deleted.push(fd)
        }),
{
    let token = fd as u64;
    assert(token as i32 == fd) by (bit_vector)
        requires
            fd >= 0,
            token == fd as u64,
    ;
}

} // verus!
