//! Readiness of sockets through `WSAPoll`: who waits for which socket.

use std::collections::HashMap;

use vstd::prelude::*;
use vstd::std_specs::hash::spec_keys_iter;
use vstd::std_specs::iter::IteratorSpec;

use crate::model::Waker;
use crate::seqs::lemma_push;

verus! {

broadcast use vstd::std_specs::hash::group_hash_axioms;

/// A socket can be read.
pub const POLLRDNORM: i16 = 256;

/// A socket can be written to.
pub const POLLOUT: i16 = 16;

/// What to poll of a socket, and what a poll found.
#[derive(Clone, Copy, Debug)]
pub struct PollFd {
    pub fd: u64,
    pub events: i16,
    pub revents: i16,
}

/// The model of the driver.
#[verifier::ext_equal]
pub struct SelectView {
    pub read_wakers: Map<u64, Waker>,
    pub write_wakers: Map<u64, Waker>,
}

/// What to do to find out which sockets are ready.
pub enum SelectPlan {
    /// Nobody waits: sleep this many milliseconds, then go on with nothing ready.
    Sleep { millis: u64 },
    /// Poll these sockets, for this many milliseconds at most.
    Poll { fds: Vec<PollFd>, timeout_ms: i32 },
}

/// Whether a poll found anything of `fd`.
pub open spec fn polled_ready(fds: Seq<PollFd>, fd: u64) -> bool {
    exists|i: int| 0 <= i < fds.len() && (#[trigger] fds[i]).fd == fd && fds[i].revents != 0
}

/// Whether `fds` lists each key of `m` once and nothing else.
pub open spec fn lists(m: Map<u64, Waker>, fds: Seq<u64>) -> bool {
    fds.no_duplicates() && forall|k: u64| #[trigger] fds.contains(k) <==> m.contains_key(k)
}

/// Whether `fds` lists those keys of `m` once that a poll found ready.
pub open spec fn lists_ready(m: Map<u64, Waker>, polled: Seq<PollFd>, fds: Seq<u64>) -> bool {
    &&& fds.no_duplicates()
    &&& forall|k: u64| #[trigger]
        fds.contains(k) <==> m.contains_key(k) && polled_ready(polled, k)
}

/// What of `m` is left when those that a poll found ready are gone.
pub open spec fn not_ready(m: Map<u64, Waker>, polled: Seq<PollFd>) -> Map<u64, Waker> {
    Map::new(|k: u64| m.contains_key(k) && !polled_ready(polled, k), |k: u64| m[k])
}

/// Who waits for these, in order.
pub open spec fn wakers_for(m: Map<u64, Waker>, fds: Seq<u64>) -> Seq<Waker> {
    fds.map_values(|fd: u64| m[fd])
}

/// The entries to poll these sockets for `events`.
pub open spec fn poll_entries(fds: Seq<u64>, events: i16) -> Seq<PollFd> {
    fds.map_values(|fd: u64| PollFd { fd, events, revents: 0 })
}

/// The keys of a map, in some order.
fn keys_of(m: &HashMap<u64, Waker>) -> (fds: Vec<u64>)
    ensures
        lists(m@, fds@),
{
    let ghost all = spec_keys_iter(m).remaining().unref();
    let mut fds: Vec<u64> = Vec::new();
    for k in it: m.keys()
        invariant
            it.seq().unref() == all,
            fds@ == all.take(it.index()),
    {
        let ghost i = it.index();
        fds.push(*k);
        assert(all.take(i).push(*k) =~= all.take(i + 1));
    }
    proof {
        assert(fds@ =~= all);
        assert forall|x: int, y: int| 0 <= x < y < all.len() implies all[x] != all[y] by {
            let keys = spec_keys_iter(m).remaining();
            assert(*keys[x] == all[x] && *keys[y] == all[y]);
        }
        assert forall|k: u64| #[trigger] all.contains(k) <==> m@.contains_key(k) by {
            assert(all.to_set().contains(k) <==> all.contains(k));
        }
    }
    fds
}

/// Whether a poll found anything of `fd`.
fn is_ready(polled: &Vec<PollFd>, fd: u64) -> (b: bool)
    ensures
        b == polled_ready(polled@, fd),
{
    let mut i: usize = 0;
    while i < polled.len()
        invariant
            i <= polled@.len(),
            forall|j: int| 0 <= j < i ==> !((#[trigger] polled@[j]).fd == fd && polled@[j].revents != 0),
        decreases polled@.len() - i,
    {
        if polled[i].fd == fd && polled[i].revents != 0 {
            return true;
        }
        i = i + 1;
    }
    false
}

/// Takes those out of `m` that a poll found ready, appends who waited for them to `wakers`
/// and returns which they were, in the same order.
fn take_ready(m: &mut HashMap<u64, Waker>, polled: &Vec<PollFd>, wakers: &mut Vec<Waker>) -> (taken:
    Vec<u64>)
    ensures
        lists_ready(old(m)@, polled@, taken@),
        final(m)@ == not_ready(old(m)@, polled@),
        final(wakers)@ == old(wakers)@ + wakers_for(old(m)@, taken@),
{
    let fds = keys_of(m);
    let mut taken: Vec<u64> = Vec::new();
    let mut i: usize = 0;
    assert(wakers@ =~= wakers@ + wakers_for(m@, taken@));
    while i < fds.len()
        invariant
            i <= fds@.len(),
            lists(old(m)@, fds@),
            taken@.no_duplicates(),
            forall|k: u64| #[trigger]
                taken@.contains(k) <==> fds@.take(i as int).contains(k) && polled_ready(polled@, k),
            wakers@ == old(wakers)@ + wakers_for(old(m)@, taken@),
            forall|k: u64| #[trigger]
                m@.contains_key(k) <==> old(m)@.contains_key(k) && !taken@.contains(k),
            forall|k: u64| #[trigger] m@.contains_key(k) ==> m@[k] == old(m)@[k],
        decreases fds@.len() - i,
    {
        let fd: u64 = fds[i];
        proof {
            lemma_push(fds@.take(i as int), fd);
            assert(fds@.take(i + 1) =~= fds@.take(i as int).push(fd));
            lemma_push(taken@, fd);
            assert(fds@.contains(fd));
            if fds@.take(i as int).contains(fd) {
                let j = choose|j: int| 0 <= j < i && fds@[j] == fd;
                assert(fds@[j] == fds@[i as int]);
            }
            assert(!taken@.contains(fd));
        }
        if is_ready(polled, fd) {
            if let Some(w) = m.remove(&fd) {
                let ghost before = taken@;
                wakers.push(w);
                taken.push(fd);
                assert(wakers_for(old(m)@, before.push(fd)) =~= wakers_for(old(m)@, before).push(w));
                assert(wakers@ =~= old(wakers)@ + wakers_for(old(m)@, taken@));
            }
        }
        i = i + 1;
    }
    assert(fds@.take(i as int) =~= fds@);
    assert(m@ =~= not_ready(old(m)@, polled@));
    taken
}

/// Who waits for which socket.
pub struct SelectDriver {
    read_wakers: HashMap<u64, Waker>,
    write_wakers: HashMap<u64, Waker>,
}

impl View for SelectDriver {
    type V = SelectView;

    closed spec fn view(&self) -> SelectView {
        SelectView { read_wakers: self.read_wakers@, write_wakers: self.write_wakers@ }
    }
}

impl SelectDriver {
    /// Nobody waits.
    pub fn new() -> (d: SelectDriver)
        ensures
            d@ == (SelectView { read_wakers: Map::empty(), write_wakers: Map::empty() }),
    {
        SelectDriver { read_wakers: HashMap::new(), write_wakers: HashMap::new() }
    }

    /// Lets `waker` wait until `fd` can be read.
    pub fn register_read(&mut self, fd: u64, waker: Waker)
        ensures
            final(self)@ == (SelectView {
                read_wakers: old(self)@.read_wakers.insert(fd, waker),
                ..old(self)@
            }),
    {
        self.read_wakers.insert(fd, waker);
    }

    /// Lets `waker` wait until `fd` can be written to.
    pub fn register_write(&mut self, fd: u64, waker: Waker)
        ensures
            final(self)@ == (SelectView {
                write_wakers: old(self)@.write_wakers.insert(fd, waker),
                ..old(self)@
            }),
    {
        self.write_wakers.insert(fd, waker);
    }

    /// Lets nobody wait for `fd` any more.
    pub fn deregister(&mut self, fd: u64)
        ensures
            final(self)@ == (SelectView {
                read_wakers: old(self)@.read_wakers.remove(fd),
                write_wakers: old(self)@.write_wakers.remove(fd),
            }),
    {
        self.read_wakers.remove(&fd);
        self.write_wakers.remove(&fd);
    }

    /// Plans how to find out which sockets are ready: first those to be read, then those
    /// to be written to, each in some order. Where nothing is wanted there is no wait,
    /// else one of 10 milliseconds.
    pub fn plan(&self, want: usize) -> (plan: SelectPlan)
        ensures
            match plan {
                SelectPlan::Sleep { millis } => {
                    &&& self@.read_wakers.dom() =~= Set::empty()
                    &&& self@.write_wakers.dom() =~= Set::empty()
                    &&& millis == (if want > 0 {
                        10u64
                    } else {
                        0u64
                    })
                },
                SelectPlan::Poll { fds, timeout_ms } => {
                    &&& !(self@.read_wakers.dom() =~= Set::empty() && self@.write_wakers.dom()
                        =~= Set::empty())
                    &&& timeout_ms == (if want > 0 {
                        10i32
                    } else {
                        0i32
                    })
                    &&& exists|r: Seq<u64>, w: Seq<u64>|
                        #![trigger poll_entries(r, POLLRDNORM), poll_entries(w, POLLOUT)]
                        lists(self@.read_wakers, r) && lists(self@.write_wakers, w) && fds@
                            == poll_entries(r, POLLRDNORM) + poll_entries(w, POLLOUT)
                },
            },
    {
        let reads = keys_of(&self.read_wakers);
        let writes = keys_of(&self.write_wakers);
        if reads.len() == 0 && writes.len() == 0 {
            proof {
                assert forall|k: u64| !self@.read_wakers.dom().contains(k) by {
                    assert(!reads@.contains(k));
                }
                assert forall|k: u64| !self@.write_wakers.dom().contains(k) by {
                    assert(!writes@.contains(k));
                }
            }
            return SelectPlan::Sleep {
                millis: if want > 0 {
                    10
                } else {
                    0
                },
            };
        }
        proof {
            if reads@.len() > 0 {
                assert(reads@.contains(reads@[0]));
                assert(self@.read_wakers.dom().contains(reads@[0]));
            } else {
                assert(writes@.contains(writes@[0]));
                assert(self@.write_wakers.dom().contains(writes@[0]));
            }
        }
        let mut fds: Vec<PollFd> = Vec::new();
        let mut i: usize = 0;
        while i < reads.len()
            invariant
                i <= reads@.len(),
                fds@ == poll_entries(reads@.take(i as int), POLLRDNORM),
            decreases reads@.len() - i,
        {
            fds.push(PollFd { fd: reads[i], events: POLLRDNORM, revents: 0 });
            assert(fds@ =~= poll_entries(reads@.take(i + 1), POLLRDNORM));
            i = i + 1;
        }
        assert(reads@.take(i as int) =~= reads@);
        let mut j: usize = 0;
        assert(fds@ =~= poll_entries(reads@, POLLRDNORM) + poll_entries(writes@.take(0), POLLOUT));
        while j < writes.len()
            invariant
                j <= writes@.len(),
                fds@ == poll_entries(reads@, POLLRDNORM) + poll_entries(
                    writes@.take(j as int),
                    POLLOUT,
                ),
            decreases writes@.len() - j,
        {
            fds.push(PollFd { fd: writes[j], events: POLLOUT, revents: 0 });
            assert(fds@ =~= poll_entries(reads@, POLLRDNORM) + poll_entries(
                writes@.take(j + 1),
                POLLOUT,
            ));
            j = j + 1;
        }
        assert(writes@.take(j as int) =~= writes@);
        SelectPlan::Poll {
            fds,
            timeout_ms: if want > 0 {
                10
            } else {
                0
            },
        }
    }

    /// Takes in what a poll found, where `result` is what the call returned: nothing where
    /// that is not positive. Whoever waits for a socket of which something was found is
    /// woken and waits no more; the readers come first, each group in some order.
    pub fn collect_ready(&mut self, result: i32, polled: &Vec<PollFd>) -> (wakers: Vec<Waker>)
        ensures
            result <= 0 ==> wakers@.len() == 0 && final(self)@ == old(self)@,
            result > 0 ==> {
                &&& final(self)@.read_wakers == not_ready(old(self)@.read_wakers, polled@)
                &&& final(self)@.write_wakers == not_ready(old(self)@.write_wakers, polled@)
                &&& exists|r: Seq<u64>, w: Seq<u64>|
                    #![trigger wakers_for(old(self)@.read_wakers, r), wakers_for(old(self)@.write_wakers, w)]
                    lists_ready(old(self)@.read_wakers, polled@, r) && lists_ready(
                        old(self)@.write_wakers,
                        polled@,
                        w,
                    ) && wakers@ == wakers_for(old(self)@.read_wakers, r) + wakers_for(
                        old(self)@.write_wakers,
                        w,
                    )
            },
    {
        let mut wakers: Vec<Waker> = Vec::new();
        if result <= 0 {
            return wakers;
        }
        let reads = take_ready(&mut self.read_wakers, polled, &mut wakers);
        let ghost middle = wakers@;
        assert(middle =~= wakers_for(old(self)@.read_wakers, reads@));
        let writes = take_ready(&mut self.write_wakers, polled, &mut wakers);
        assert(wakers@ == wakers_for(old(self)@.read_wakers, reads@) + wakers_for(
            old(self)@.write_wakers,
            writes@,
        ));
        wakers
    }
}

} // verus!
