//! Whom readiness wakes, and how operations wait for it.

use vstd::prelude::*;

use crate::backend::epoll::{registered, Collected, EpollCommand, EpollEvent, FdWakers};
use crate::backend::select_driver::{
    lists_ready, not_ready, poll_entries, wakers_for, PollFd, SelectView,
};
use crate::epoll_future::{
    begun, ended, given_up, EpollUsizeFuture, IoOp, PollBegin, PollEnd, Readiness,
};
use crate::errno::Errno;
use crate::iocp_future::{awaited, forgotten, IocpUsizeFuture, UsizeOp};
use crate::model::Waker;

verus! {

/// The event of descriptor `fd` with these flags.
pub open spec fn event_of(fd: i32, flags: u32) -> EpollEvent {
    EpollEvent { token: fd as u64, flags }
}

proof fn lemma_event_of(fd: i32, flags: u32)
    requires
        fd >= 0,
    ensures
        event_of(fd, flags).token as i32 == fd,
        event_of(fd, flags).token != u64::MAX,
{
    let token = fd as u64;
    assert(token as i32 == fd && token != 0xffff_ffff_ffff_ffff) by (bit_vector)
        requires
            fd >= 0,
            token == fd as u64,
    ;
}

proof fn lemma_flags(flags: u32)
    ensures
        (flags & 0x19 != 0) == (flags & 1 != 0 || flags & 8 != 0 || flags & 16 != 0),
        (flags & 0x1c != 0) == (flags & 4 != 0 || flags & 8 != 0 || flags & 16 != 0),
{
    assert((flags & 0x19 != 0) == (flags & 1 != 0 || flags & 8 != 0 || flags & 16 != 0))
        by (bit_vector);
    assert((flags & 0x1c != 0) == (flags & 4 != 0 || flags & 8 != 0 || flags & 16 != 0))
        by (bit_vector);
}

/// Nobody, or the one who waits.
pub open spec fn as_seq(waker: Option<Waker>) -> Seq<Waker> {
    match waker {
        Some(w) => seq![w],
        None => Seq::empty(),
    }
}

/// An event wakes those whom its flags concern, the reader before the writer, behind those
/// woken before. `EPOLLIN` (1) concerns the reader, `EPOLLOUT` (4) the writer, `EPOLLERR` (8)
/// and `EPOLLHUP` (16) both. They wait no more, and whom the event does not concern waits
/// on. A descriptor for which nobody waits then is watched no more. Other descriptors stay
/// as they are.
pub proof fn law_event_wakes_by_its_flags(c: Collected, event: EpollEvent, fd: i32)
    requires
        event.token != u64::MAX,
        event.token as i32 == fd,
        c.waiting.contains_key(fd),
    ensures
        ({
            let w = c.waiting[fd];
            let flags = event.flags;
            let after = c.event(event);
            let reads = flags & 1 != 0 || flags & 8 != 0 || flags & 16 != 0;
            let writes = flags & 4 != 0 || flags & 8 != 0 || flags & 16 != 0;
            let reader_left = w.read_waker is Some && !reads;
            let writer_left = w.write_waker is Some && !writes;
            &&& after.wakers == c.wakers + (if reads {
                as_seq(w.read_waker)
            } else {
                Seq::empty()
            }) + (if writes {
                as_seq(w.write_waker)
            } else {
                Seq::empty()
            })
            &&& after.waiting.contains_key(fd) == (reader_left || writer_left)
            &&& reader_left || writer_left ==> {
                &&& after.waiting[fd].read_waker == (if reader_left {
                    w.read_waker
                } else {
                    None
                })
                &&& after.waiting[fd].write_waker == (if writer_left {
                    w.write_waker
                } else {
                    None
                })
                &&& after.deleted == c.deleted
            }
            &&& !reader_left && !writer_left ==> after.deleted == c.deleted.push(fd)
            &&& forall|k: i32|
                k != fd ==> (#[trigger] after.waiting.contains_key(k)) == c.waiting.contains_key(k)
                    && after.waiting[k] == c.waiting[k]
            &&& after.interrupts == c.interrupts
        }),
{
    let flags = event.flags;
    lemma_flags(flags);
    let w = c.waiting[fd];
    let after = c.event(event);
    let reads = flags & 1 != 0 || flags & 8 != 0 || flags & 16 != 0;
    let writes = flags & 4 != 0 || flags & 8 != 0 || flags & 16 != 0;
    assert(after.wakers =~= c.wakers + (if reads {
        as_seq(w.read_waker)
    } else {
        Seq::empty()
    }) + (if writes {
        as_seq(w.write_waker)
    } else {
        Seq::empty()
    }));
}

/// A descriptor that can be written to wakes its writer, who waits no more.
pub proof fn law_epollout_wakes_the_writer(c: Collected, fd: i32, flags: u32, writer: Waker)
    requires
        fd >= 0,
        flags & 4 == 4,
        c.waiting.contains_key(fd),
        c.waiting[fd].write_waker == Some(writer),
    ensures
        ({
            let after = c.event(event_of(fd, flags));
            &&& after.wakers.len() > c.wakers.len()
            &&& after.wakers.last() == writer
            &&& after.waiting.contains_key(fd) ==> after.waiting[fd].write_waker is None
        }),
{
    lemma_event_of(fd, flags);
    law_event_wakes_by_its_flags(c, event_of(fd, flags), fd);
}

/// A descriptor that can be read wakes its reader, who waits no more.
pub proof fn law_epollin_wakes_the_reader(c: Collected, fd: i32, flags: u32, reader: Waker)
    requires
        fd >= 0,
        flags & 1 == 1,
        c.waiting.contains_key(fd),
        c.waiting[fd].read_waker == Some(reader),
    ensures
        ({
            let after = c.event(event_of(fd, flags));
            &&& after.wakers.len() > c.wakers.len()
            &&& after.wakers[c.wakers.len() as int] == reader
            &&& after.waiting.contains_key(fd) ==> after.waiting[fd].read_waker is None
        }),
{
    lemma_event_of(fd, flags);
    law_event_wakes_by_its_flags(c, event_of(fd, flags), fd);
}

/// A descriptor with an error, or whose other end hung up, wakes its reader and its writer
/// and is watched no more.
pub proof fn law_errors_wake_both(c: Collected, fd: i32, flags: u32, reader: Waker, writer: Waker)
    requires
        fd >= 0,
        flags & 8 == 8 || flags & 16 == 16,
        c.waiting.contains_key(fd),
        c.waiting[fd].read_waker == Some(reader),
        c.waiting[fd].write_waker == Some(writer),
    ensures
        ({
            let after = c.event(event_of(fd, flags));
            &&& after.wakers == c.wakers.push(reader).push(writer)
            &&& !after.waiting.contains_key(fd)
        }),
{
    lemma_event_of(fd, flags);
    law_event_wakes_by_its_flags(c, event_of(fd, flags), fd);
    assert(c.event(event_of(fd, flags)).wakers =~= c.wakers.push(reader).push(writer));
}

/// What can only be read leaves its writer waiting, and what can only be written to its
/// reader; an event with neither leaves both.
pub proof fn law_other_direction_waits_on(c: Collected, fd: i32)
    requires
        fd >= 0,
        c.waiting.contains_key(fd),
    ensures
        c.waiting[fd].write_waker is Some ==> c.event(event_of(fd, 1)).waiting.contains_key(fd)
            && c.event(event_of(fd, 1)).waiting[fd].write_waker == c.waiting[fd].write_waker,
        c.waiting[fd].read_waker is Some ==> c.event(event_of(fd, 4)).waiting.contains_key(fd)
            && c.event(event_of(fd, 4)).waiting[fd].read_waker == c.waiting[fd].read_waker,
        c.waiting[fd].write_waker is None ==> c.event(event_of(fd, 4)).wakers == c.wakers,
        c.waiting[fd].read_waker is None ==> c.event(event_of(fd, 1)).wakers == c.wakers,
        c.event(event_of(fd, 0)).wakers == c.wakers,
{
    lemma_event_of(fd, 1);
    law_event_wakes_by_its_flags(c, event_of(fd, 1), fd);
    lemma_event_of(fd, 4);
    law_event_wakes_by_its_flags(c, event_of(fd, 4), fd);
    lemma_event_of(fd, 0);
    law_event_wakes_by_its_flags(c, event_of(fd, 0), fd);
    assert(1u32 & 4 == 0 && 1u32 & 8 == 0 && 1u32 & 16 == 0 && 4u32 & 1 == 0 && 4u32 & 8 == 0
        && 4u32 & 16 == 0 && 0u32 & 1 == 0 && 0u32 & 4 == 0 && 0u32 & 8 == 0 && 0u32 & 16 == 0)
        by (bit_vector);
    assert(c.waiting[fd].write_waker is None ==> c.event(event_of(fd, 4)).wakers =~= c.wakers);
    assert(c.waiting[fd].read_waker is None ==> c.event(event_of(fd, 1)).wakers =~= c.wakers);
    assert(c.event(event_of(fd, 0)).wakers =~= c.wakers);
}

/// The interrupt is counted and wakes nobody, an event of a descriptor that is not watched
/// does nothing, and events are taken in one after another, from nothing.
pub proof fn law_events_follow_each_other(
    c: Collected,
    waiting: Map<i32, FdWakers>,
    events: Seq<EpollEvent>,
    event: EpollEvent,
    fd: i32,
    flags: u32,
)
    ensures
        c.event(EpollEvent { token: 0xffff_ffff_ffff_ffff, flags }) == (Collected {
            interrupts: c.interrupts + 1,
            ..c
        }),
        fd >= 0 && !c.waiting.contains_key(fd) ==> c.event(event_of(fd, flags)) == c,
        c.events(Seq::empty()) == c,
        c.events(events.push(event)) == c.events(events).event(event),
        Collected::start(waiting).waiting == waiting,
        Collected::start(waiting).wakers.len() == 0,
        Collected::start(waiting).deleted.len() == 0,
        Collected::start(waiting).interrupts == 0,
{
    assert(events.push(event).drop_last() =~= events);
    if fd >= 0 {
        lemma_event_of(fd, flags);
    }
}

/// Whom a batch of events woke stays woken whatever comes after: a waker once collected is
/// never lost.
pub proof fn law_collected_wakers_stay(c: Collected, events: Seq<EpollEvent>)
    ensures
        c.events(events).wakers.len() >= c.wakers.len(),
        c.events(events).wakers.take(c.wakers.len() as int) == c.wakers,
    decreases events.len(),
{
    if events.len() == 0 {
        assert(c.wakers.take(c.wakers.len() as int) =~= c.wakers);
    } else {
        let front = c.events(events.drop_last());
        law_collected_wakers_stay(c, events.drop_last());
        let n = c.wakers.len() as int;
        let after = front.event(events.last());
        assert(after.wakers.len() >= front.wakers.len());
        assert(after.wakers.take(n) =~= front.wakers.take(n));
    }
}

/// The kernel is told to watch exactly the directions for which somebody waits: 1 for a
/// reader, 4 for a writer, 5 for both. A descriptor that is watched is changed, another one
/// added. A new wait takes the place of an older one in its direction, and leaves the other
/// direction and other descriptors alone.
pub proof fn law_watched_for_those_who_wait(
    waiting: Map<i32, FdWakers>,
    fd: i32,
    waker: Waker,
)
    ensures
        ({
            let r = registered(waiting, fd, Some(waker), None);
            let w = registered(waiting, fd, None, Some(waker));
            let known = waiting.contains_key(fd);
            let other_reads = known && waiting[fd].read_waker is Some;
            let other_writes = known && waiting[fd].write_waker is Some;
            let r_flags: u32 = if other_writes {
                5
            } else {
                1
            };
            let w_flags: u32 = if other_reads {
                5
            } else {
                4
            };
            &&& r.1 == (if known {
                EpollCommand::Modify { fd, flags: r_flags }
            } else {
                EpollCommand::Add { fd, flags: r_flags }
            })
            &&& w.1 == (if known {
                EpollCommand::Modify { fd, flags: w_flags }
            } else {
                EpollCommand::Add { fd, flags: w_flags }
            })
            &&& r.0.contains_key(fd) && r.0[fd].read_waker == Some(waker)
            &&& r.0[fd].write_waker == (if known {
                waiting[fd].write_waker
            } else {
                None
            })
            &&& w.0.contains_key(fd) && w.0[fd].write_waker == Some(waker)
            &&& w.0[fd].read_waker == (if known {
                waiting[fd].read_waker
            } else {
                None
            })
            &&& forall|k: i32|
                k != fd ==> (#[trigger] r.0.contains_key(k)) == waiting.contains_key(k) && r.0[k]
                    == waiting[k]
            &&& forall|k: i32|
                k != fd ==> (#[trigger] w.0.contains_key(k)) == waiting.contains_key(k) && w.0[k]
                    == waiting[k]
        }),
{
}

/// An operation that would block (`EAGAIN`, 11) waits: the driver knows its waker, in the
/// direction that was asked for, and epoll is told. Any other result is final and leaves the
/// driver alone.
pub proof fn law_blocked_operation_waits<T>(
    before: Readiness,
    waiting: Map<i32, FdWakers>,
    write: bool,
    waker: Waker,
    result: Result<T, Errno>,
    after: Readiness,
    waiting_after: Map<i32, FdWakers>,
    end: PollEnd<T>,
)
    requires
        ended(before, waiting, write, waker, result, after, waiting_after, end),
    ensures
        ({
            let blocked = result is Err && result->Err_0.code == 11;
            let known = waiting.contains_key(before.fd);
            let both = known && if write {
                waiting[before.fd].read_waker is Some
            } else {
                waiting[before.fd].write_waker is Some
            };
            let flags: u32 = if both {
                5
            } else if write {
                4
            } else {
                1
            };
            &&& after.fd == before.fd
            &&& blocked ==> {
                &&& end is Pending
                &&& after.registered
                &&& after.terminated == before.terminated
                &&& waiting_after.contains_key(before.fd)
                &&& write ==> waiting_after[before.fd].write_waker == Some(waker)
                    && waiting_after[before.fd].read_waker == (if known {
                    waiting[before.fd].read_waker
                } else {
                    None
                })
                &&& !write ==> waiting_after[before.fd].read_waker == Some(waker)
                    && waiting_after[before.fd].write_waker == (if known {
                    waiting[before.fd].write_waker
                } else {
                    None
                })
                &&& end == PollEnd::<T>::Pending(
                    if known {
                        EpollCommand::Modify { fd: before.fd, flags }
                    } else {
                        EpollCommand::Add { fd: before.fd, flags }
                    },
                )
                &&& forall|k: i32|
                    k != before.fd ==> (#[trigger] waiting_after.contains_key(k))
                        == waiting.contains_key(k) && waiting_after[k] == waiting[k]
            }
            &&& !blocked ==> {
                &&& end == PollEnd::Ready(result)
                &&& after.terminated
                &&& after.registered == before.registered
                &&& waiting_after == waiting
            }
        }),
{
}

/// A poll gives up the wait of the one before it and tries the operation; epoll is told
/// where it watched the descriptor. An operation that the driver does not have, which is one
/// on the descriptor -1, fails with `ENOSYS` (38) and is not tried.
pub proof fn law_poll_gives_the_last_wait_up<T>(
    before: Readiness,
    waiting: Map<i32, FdWakers>,
    after: Readiness,
    waiting_after: Map<i32, FdWakers>,
    begin: PollBegin<T>,
)
    requires
        begun(before, waiting, after, waiting_after, begin),
    ensures
        before.fd == -1 ==> {
            &&& begin == PollBegin::Ready(Err::<T, Errno>(Errno { code: 38 }))
            &&& after.terminated
            &&& waiting_after == waiting
        },
        before.fd != -1 ==> {
            &&& begin == (PollBegin::<T>::Try {
                delete: before.registered && waiting.contains_key(before.fd),
            })
            &&& !after.registered
            &&& after.terminated == before.terminated
            &&& before.registered ==> !waiting_after.contains_key(before.fd)
            &&& !before.registered ==> waiting_after == waiting
            &&& forall|k: i32|
                k != before.fd ==> (#[trigger] waiting_after.contains_key(k))
                    == waiting.contains_key(k) && waiting_after[k] == waiting[k]
        },
        after.fd == before.fd,
{
}

/// A wait that was never begun is not given up; one that was is gone from the driver, with
/// all that it knew of the descriptor, and nothing else.
pub proof fn law_given_up_wait_is_gone(r: Readiness, waiting: Map<i32, FdWakers>)
    ensures
        given_up(r, waiting).1 == (r.registered && waiting.contains_key(r.fd)),
        !r.registered ==> given_up(r, waiting).0 == waiting,
        r.registered ==> given_up(r, waiting).0 == waiting.remove(r.fd),
        !Readiness::fresh(r.fd).registered,
        !Readiness::fresh(r.fd).terminated,
        Readiness::fresh(r.fd).fd == r.fd,
{
}

/// Writes and sends wait to write, reads and receives to read.
pub proof fn law_operations_wait_in_their_direction(readiness: Readiness, flags: u32)
    ensures
        (EpollUsizeFuture { op: IoOp::Write, readiness }).writes(),
        (EpollUsizeFuture { op: IoOp::Send { flags }, readiness }).writes(),
        !(EpollUsizeFuture { op: IoOp::Read, readiness }).writes(),
        !(EpollUsizeFuture { op: IoOp::Recv { flags }, readiness }).writes(),
{
}

/// Whether a poll found something of socket `fd`.
pub open spec fn found(polled: Seq<PollFd>, fd: u64) -> bool {
    exists|i: int| 0 <= i < polled.len() && (#[trigger] polled[i]).fd == fd && polled[i].revents != 0
}

/// Of those who wait for sockets, exactly those are woken of whose socket a poll found
/// something, each once; they wait no more, and all others wait on.
pub proof fn law_found_sockets_are_woken(
    m: Map<u64, Waker>,
    polled: Seq<PollFd>,
    fds: Seq<u64>,
    fd: u64,
)
    requires
        lists_ready(m, polled, fds),
        m.contains_key(fd),
    ensures
        found(polled, fd) ==> {
            &&& !not_ready(m, polled).contains_key(fd)
            &&& wakers_for(m, fds).contains(m[fd])
            &&& fds.contains(fd)
        },
        !found(polled, fd) ==> {
            &&& not_ready(m, polled).contains_key(fd)
            &&& not_ready(m, polled)[fd] == m[fd]
            &&& !fds.contains(fd)
        },
        wakers_for(m, fds).len() == fds.len(),
        fds.no_duplicates(),
        forall|k: u64| #[trigger] not_ready(m, polled).contains_key(k) ==> m.contains_key(k),
        forall|k: u64| #[trigger] fds.contains(k) ==> m.contains_key(k) && found(polled, k),
        forall|i: int| 0 <= i < fds.len() ==> #[trigger] wakers_for(m, fds)[i] == m[fds[i]],
{
    assert forall|k: u64| #[trigger] fds.contains(k) implies found(polled, k) by {
        let i = choose|i: int|
            0 <= i < polled.len() && (#[trigger] polled[i]).fd == k && polled[i].revents != 0;
        assert(polled[i].fd == k);
    }
    if found(polled, fd) {
        let i = choose|i: int|
            0 <= i < polled.len() && (#[trigger] polled[i]).fd == fd && polled[i].revents != 0;
        assert(polled[i].fd == fd);
        assert(fds.contains(fd));
        let j = choose|j: int| 0 <= j < fds.len() && fds[j] == fd;
        assert(wakers_for(m, fds)[j] == m[fd]);
    }
}

/// The entry to poll a socket names the socket and what is asked of it, and has found nothing.
pub proof fn law_sockets_are_polled_in_order(fds: Seq<u64>, events: i16, i: int)
    requires
        0 <= i < fds.len(),
    ensures
        poll_entries(fds, events).len() == fds.len(),
        poll_entries(fds, events)[i].fd == fds[i],
        poll_entries(fds, events)[i].events == events,
        poll_entries(fds, events)[i].revents == 0,
{
}

/// A wait for a socket is kept in its direction, in the place of an older one, and giving it
/// up takes it out of both; other sockets stay as they are.
pub proof fn law_socket_waits_are_kept_and_forgotten(
    v: SelectView,
    fd: u64,
    waker: Waker,
    other: u64,
)
    requires
        other != fd,
    ensures
        awaited(v, fd, true, waker).write_wakers.contains_key(fd),
        awaited(v, fd, true, waker).write_wakers[fd] == waker,
        awaited(v, fd, true, waker).read_wakers == v.read_wakers,
        awaited(v, fd, false, waker).read_wakers.contains_key(fd),
        awaited(v, fd, false, waker).read_wakers[fd] == waker,
        awaited(v, fd, false, waker).write_wakers == v.write_wakers,
        awaited(v, fd, true, waker).write_wakers.contains_key(other)
            == v.write_wakers.contains_key(other),
        awaited(v, fd, true, waker).write_wakers[other] == v.write_wakers[other],
        awaited(v, fd, false, waker).read_wakers.contains_key(other)
            == v.read_wakers.contains_key(other),
        awaited(v, fd, false, waker).read_wakers[other] == v.read_wakers[other],
        !forgotten(true, fd, v).read_wakers.contains_key(fd),
        !forgotten(true, fd, v).write_wakers.contains_key(fd),
        forgotten(true, fd, v).read_wakers.contains_key(other) == v.read_wakers.contains_key(other),
        forgotten(true, fd, v).read_wakers[other] == v.read_wakers[other],
        forgotten(true, fd, v).write_wakers.contains_key(other)
            == v.write_wakers.contains_key(other),
        forgotten(true, fd, v).write_wakers[other] == v.write_wakers[other],
        forgotten(false, fd, v) == v,
{
}

/// The socket of a transfer is the one it was made for; a transfer whose result is known has
/// none.
pub proof fn law_transfer_knows_its_socket(f: IocpUsizeFuture)
    ensures
        f.op matches UsizeOp::Recv { fd, flags: _ } ==> f.socket() == Some(fd),
        f.op matches UsizeOp::Send { fd, flags: _ } ==> f.socket() == Some(fd),
        f.op is Ready ==> f.socket() is None,
{
}

} // verus!
