//! Futures of operations that are tried until they do not block.
//!
//! A poll begins by giving up the wait of the last one, tries the operation, which the
//! embedding program does, and ends by waiting for the descriptor to become ready where
//! the operation would block. Descriptors must be in non-blocking mode.

use vstd::prelude::*;

use crate::backend::epoll::{all_awaited, registered, EpollCommand, EpollDriver, FdWakers};
use crate::errno::{Errno, EAGAIN, ENOSYS, ETIME};
use crate::model::Waker;
use crate::operations::IsIoPoll;

verus! {

/// How a poll begins.
pub enum PollBegin<T> {
    /// The poll is over.
    Ready(Result<T, Errno>),
    /// Try the operation; before that, take the descriptor out of epoll if `delete`.
    Try { delete: bool },
}

/// How a poll ends.
pub enum PollEnd<T> {
    /// The operation is over.
    Ready(Result<T, Errno>),
    /// The operation waits; tell epoll this.
    Pending(EpollCommand),
}

/// The descriptor of an operation that the driver does not have.
pub const NO_FD: i32 = -1;

/// The state of a wait for a descriptor.
#[derive(Clone, Copy, Debug, PartialEq, Eq, Structural)]
pub struct Readiness {
    pub fd: i32,
    /// Whether the driver knows of the wait.
    pub registered: bool,
    /// Whether the operation is over.
    pub terminated: bool,
}

/// Whether an error says that the operation would block.
pub open spec fn would_block(e: Errno) -> bool {
    e.code == EAGAIN
}

/// Who waits after a wait was given up, and whether epoll is to be told.
pub open spec fn given_up(r: Readiness, waiting: Map<i32, FdWakers>) -> (Map<i32, FdWakers>, bool) {
    if r.registered {
        (waiting.remove(r.fd), waiting.contains_key(r.fd))
    } else {
        (waiting, false)
    }
}

impl Readiness {
    /// A wait that did not begin.
    pub open spec fn fresh(fd: i32) -> Readiness {
        Readiness { fd, registered: false, terminated: false }
    }

    fn new(fd: i32) -> (r: Readiness)
        ensures
            r == Readiness::fresh(fd),
    {
        Readiness { fd, registered: false, terminated: false }
    }

    /// Gives the wait up, so that no stale waker is left. Returns whether to take the
    /// descriptor out of epoll.
    fn give_up(&mut self, driver: &mut EpollDriver) -> (delete: bool)
        requires
            all_awaited(old(driver)@),
        ensures
            all_awaited(final(driver)@),
            *final(self) == (Readiness { registered: false, ..*old(self) }),
            (final(driver)@, delete) == given_up(*old(self), old(driver)@),
    {
        if self.registered {
            self.registered = false;
            driver.deregister(self.fd)
        } else {
            false
        }
    }

    /// Ends a poll that got `result`: waits where the operation would block.
    fn end<T>(
        &mut self,
        driver: &mut EpollDriver,
        write: bool,
        waker: Waker,
        result: Result<T, Errno>,
    ) -> (end: PollEnd<T>)
        requires
            all_awaited(old(driver)@),
        ensures
            all_awaited(final(driver)@),
            ended(
                *old(self),
                old(driver)@,
                write,
                waker,
                result,
                *final(self),
                final(driver)@,
                end,
            ),
    {
        match result {
            Ok(value) => {
                self.terminated = true;
                PollEnd::Ready(Ok(value))
            },
            Err(e) => {
                if e.code == EAGAIN {
                    self.registered = true;
                    let command = if write {
                        driver.register_write(self.fd, waker)
                    } else {
                        driver.register_read(self.fd, waker)
                    };
                    PollEnd::Pending(command)
                } else {
                    self.terminated = true;
                    PollEnd::Ready(Err(e))
                }
            },
        }
    }
}

/// Whether a poll that got `result` ends like this: an operation that would block waits in
/// the driver, any other result is final.
pub open spec fn ended<T>(
    before: Readiness,
    waiting: Map<i32, FdWakers>,
    write: bool,
    waker: Waker,
    result: Result<T, Errno>,
    after: Readiness,
    waiting_after: Map<i32, FdWakers>,
    end: PollEnd<T>,
) -> bool {
    if result is Err && would_block(result->Err_0) {
        let r = registered(
            waiting,
            before.fd,
            if write {
                None
            } else {
                Some(waker)
            },
            if write {
                Some(waker)
            } else {
                None
            },
        );
        &&& after == (Readiness { registered: true, ..before })
        &&& waiting_after == r.0
        &&& end == PollEnd::<T>::Pending(r.1)
    } else {
        &&& after == (Readiness { terminated: true, ..before })
        &&& waiting_after == waiting
        &&& end == PollEnd::Ready(result)
    }
}

/// What a read of a timer means for the operation: a timer that can be read has expired.
pub open spec fn timer_result(result: Result<usize, Errno>) -> Result<(), Errno> {
    match result {
        Ok(_) => Err(Errno { code: ETIME }),
        Err(e) => Err(e),
    }
}

/// An operation without a value: one that is over, or a timer.
#[derive(Clone, Copy, Debug)]
pub enum EpollUnitInner {
    /// The result is known.
    Ready(Result<(), Errno>),
    /// The descriptor of a timer, which can be read once the timer expired.
    TimerFd,
}

/// The future of an operation without a value.
#[derive(Clone, Copy, Debug)]
pub struct EpollUnitFuture {
    pub inner: EpollUnitInner,
    pub readiness: Readiness,
}

impl EpollUnitFuture {
    /// A future that succeeds.
    pub fn ready_ok() -> (f: EpollUnitFuture)
        ensures
            f == (EpollUnitFuture {
                inner: EpollUnitInner::Ready(Ok(())),
                readiness: Readiness::fresh(NO_FD),
            }),
    {
        EpollUnitFuture { inner: EpollUnitInner::Ready(Ok(())), readiness: Readiness::new(NO_FD) }
    }

    /// A future that fails with `e`.
    pub fn ready_err(e: Errno) -> (f: EpollUnitFuture)
        ensures
            f == (EpollUnitFuture {
                inner: EpollUnitInner::Ready(Err(e)),
                readiness: Readiness::fresh(NO_FD),
            }),
    {
        EpollUnitFuture { inner: EpollUnitInner::Ready(Err(e)), readiness: Readiness::new(NO_FD) }
    }

    /// A sleep on an armed timer with the descriptor `fd`.
    pub fn timer_fd(fd: i32) -> (f: EpollUnitFuture)
        ensures
            f == (EpollUnitFuture {
                inner: EpollUnitInner::TimerFd,
                readiness: Readiness::fresh(fd),
            }),
    {
        EpollUnitFuture { inner: EpollUnitInner::TimerFd, readiness: Readiness::new(fd) }
    }

    /// The future of an operation that this driver does not have: it fails with `ENOSYS`.
    pub fn new() -> (f: EpollUnitFuture)
        ensures
            f == (EpollUnitFuture {
                inner: EpollUnitInner::Ready(Err(Errno { code: ENOSYS })),
                readiness: Readiness::fresh(NO_FD),
            }),
    {
        EpollUnitFuture::ready_err(Errno { code: ENOSYS })
    }

    /// Cancels the operation: a timer waits no more. Returns whether to take its
    /// descriptor out of epoll.
    pub fn cancel(&mut self, driver: &mut EpollDriver) -> (delete: bool)
        requires
            all_awaited(old(driver)@),
        ensures
            all_awaited(final(driver)@),
            final(self).inner == old(self).inner,
            final(self).readiness == (Readiness {
                registered: false,
                terminated: true,
                ..old(self).readiness
            }),
            (final(driver)@, delete) == given_up(old(self).readiness, old(driver)@),
    {
        let delete = self.readiness.give_up(driver);
        self.readiness.terminated = true;
        delete
    }

    /// Begins a poll. A timer is then read.
    pub fn begin_poll(&mut self, driver: &mut EpollDriver) -> (begin: PollBegin<()>)
        requires
            all_awaited(old(driver)@),
        ensures
            all_awaited(final(driver)@),
            final(self).inner == old(self).inner,
            match old(self).inner {
                EpollUnitInner::Ready(result) => {
                    &&& begin == PollBegin::Ready(result)
                    &&& final(self).readiness == (Readiness {
                        terminated: true,
                        ..old(self).readiness
                    })
                    &&& final(driver)@ == old(driver)@
                },
                EpollUnitInner::TimerFd => {
                    let r = given_up(old(self).readiness, old(driver)@);
                    &&& begin == (PollBegin::<()>::Try { delete: r.1 })
                    &&& final(driver)@ == r.0
                    &&& final(self).readiness == (Readiness {
                        registered: false,
                        ..old(self).readiness
                    })
                },
            },
    {
        match self.inner {
            EpollUnitInner::Ready(result) => {
                self.readiness.terminated = true;
                PollBegin::Ready(result)
            },
            EpollUnitInner::TimerFd => {
                let delete = self.readiness.give_up(driver);
                PollBegin::Try { delete }
            },
        }
    }

    /// Ends a poll of a timer whose read gave `result`: one that could be read has
    /// expired, which is reported as the timeout that it is.
    pub fn end_poll(&mut self, driver: &mut EpollDriver, waker: Waker, result: Result<usize, Errno>) -> (end:
        PollEnd<()>)
        requires
            all_awaited(old(driver)@),
        ensures
            all_awaited(final(driver)@),
            final(self).inner == old(self).inner,
            ended(
                old(self).readiness,
                old(driver)@,
                false,
                waker,
                timer_result(result),
                final(self).readiness,
                final(driver)@,
                end,
            ),
    {
        let outcome: Result<(), Errno> = match result {
            Ok(_) => Err(Errno { code: ETIME }),
            Err(e) => Err(e),
        };
        self.readiness.end(driver, false, waker, outcome)
    }

    /// Whether the operation is over.
    pub fn is_terminated(&self) -> (b: bool)
        ensures
            b == self.readiness.terminated,
    {
        self.readiness.terminated
    }

    /// Ends the future. Returns whether to take its descriptor out of epoll.
    pub fn drop_future(&mut self, driver: &mut EpollDriver) -> (delete: bool)
        requires
            all_awaited(old(driver)@),
        ensures
            all_awaited(final(driver)@),
            final(self).inner == old(self).inner,
            final(self).readiness == (Readiness { registered: false, ..old(self).readiness }),
            (final(driver)@, delete) == given_up(old(self).readiness, old(driver)@),
    {
        self.readiness.give_up(driver)
    }
}

/// Which operation on a descriptor to try.
#[derive(Clone, Copy, Debug, PartialEq, Eq, Structural)]
pub enum IoOp {
    Read,
    Write,
    Recv { flags: u32 },
    Send { flags: u32 },
}

/// The future of a transfer of bytes.
#[derive(Clone, Copy, Debug, PartialEq, Eq, Structural)]
pub struct EpollUsizeFuture {
    pub op: IoOp,
    pub readiness: Readiness,
}

impl EpollUsizeFuture {
    /// The future of a transfer that this driver does not have: it fails with `ENOSYS`.
    pub fn new() -> (f: EpollUsizeFuture)
        ensures
            f == (EpollUsizeFuture { op: IoOp::Read, readiness: Readiness::fresh(NO_FD) }),
    {
        EpollUsizeFuture { op: IoOp::Read, readiness: Readiness::new(NO_FD) }
    }

    /// A read from `fd`.
    pub fn read(fd: i32) -> (f: EpollUsizeFuture)
        ensures
            f == (EpollUsizeFuture { op: IoOp::Read, readiness: Readiness::fresh(fd) }),
    {
        EpollUsizeFuture { op: IoOp::Read, readiness: Readiness::new(fd) }
    }

    /// A write to `fd`.
    pub fn write(fd: i32) -> (f: EpollUsizeFuture)
        ensures
            f == (EpollUsizeFuture { op: IoOp::Write, readiness: Readiness::fresh(fd) }),
    {
        EpollUsizeFuture { op: IoOp::Write, readiness: Readiness::new(fd) }
    }

    /// A receive from the socket `fd`.
    pub fn recv(fd: i32, flags: u32) -> (f: EpollUsizeFuture)
        ensures
            f == (EpollUsizeFuture { op: IoOp::Recv { flags }, readiness: Readiness::fresh(fd) }),
    {
        EpollUsizeFuture { op: IoOp::Recv { flags }, readiness: Readiness::new(fd) }
    }

    /// A send to the socket `fd`.
    pub fn send(fd: i32, flags: u32) -> (f: EpollUsizeFuture)
        ensures
            f == (EpollUsizeFuture { op: IoOp::Send { flags }, readiness: Readiness::fresh(fd) }),
    {
        EpollUsizeFuture { op: IoOp::Send { flags }, readiness: Readiness::new(fd) }
    }

    /// Whether the transfer waits until the descriptor can be written to.
    pub open spec fn writes(self) -> bool {
        self.op is Write || self.op is Send
    }

    fn is_write_op(&self) -> (b: bool)
        ensures
            b == self.writes(),
    {
        matches!(self.op, IoOp::Write | IoOp::Send { .. })
    }

    /// Begins a poll: the operation is then tried.
    pub fn begin_poll(&mut self, driver: &mut EpollDriver) -> (begin: PollBegin<usize>)
        requires
            all_awaited(old(driver)@),
        ensures
            all_awaited(final(driver)@),
            final(self).op == old(self).op,
            begun(
                old(self).readiness,
                old(driver)@,
                final(self).readiness,
                final(driver)@,
                begin,
            ),
    {
        if self.readiness.fd == NO_FD {
            self.readiness.terminated = true;
            return PollBegin::Ready(Err(Errno { code: ENOSYS }));
        }
        let delete = self.readiness.give_up(driver);
        PollBegin::Try { delete }
    }

    /// Ends a poll in which the operation gave `result`.
    pub fn end_poll(&mut self, driver: &mut EpollDriver, waker: Waker, result: Result<usize, Errno>) -> (end:
        PollEnd<usize>)
        requires
            all_awaited(old(driver)@),
        ensures
            all_awaited(final(driver)@),
            final(self).op == old(self).op,
            ended(
                old(self).readiness,
                old(driver)@,
                old(self).writes(),
                waker,
                result,
                final(self).readiness,
                final(driver)@,
                end,
            ),
    {
        let write = self.is_write_op();
        self.readiness.end(driver, write, waker, result)
    }

    /// Whether the operation is over.
    pub fn is_terminated(&self) -> (b: bool)
        ensures
            b == self.readiness.terminated,
    {
        self.readiness.terminated
    }

    /// Ends the future. Returns whether to take its descriptor out of epoll.
    pub fn drop_future(&mut self, driver: &mut EpollDriver) -> (delete: bool)
        requires
            all_awaited(old(driver)@),
        ensures
            all_awaited(final(driver)@),
            final(self).op == old(self).op,
            final(self).readiness == (Readiness { registered: false, ..old(self).readiness }),
            (final(driver)@, delete) == given_up(old(self).readiness, old(driver)@),
    {
        self.readiness.give_up(driver)
    }
}

/// Whether a poll begins like this: an operation without a descriptor is one that the
/// driver does not have; another one is tried once its last wait is given up.
pub open spec fn begun<T>(
    before: Readiness,
    waiting: Map<i32, FdWakers>,
    after: Readiness,
    waiting_after: Map<i32, FdWakers>,
    begin: PollBegin<T>,
) -> bool {
    if before.fd == NO_FD {
        &&& begin == PollBegin::Ready(Err::<T, Errno>(Errno { code: ENOSYS }))
        &&& after == (Readiness { terminated: true, ..before })
        &&& waiting_after == waiting
    } else {
        let r = given_up(before, waiting);
        &&& begin == (PollBegin::<T>::Try { delete: r.1 })
        &&& after == (Readiness { registered: false, ..before })
        &&& waiting_after == r.0
    }
}

/// The future of an accept, which gives a descriptor.
#[derive(Clone, Copy, Debug, PartialEq, Eq, Structural)]
pub struct EpollOwnedFdFuture {
    pub readiness: Readiness,
}

impl EpollOwnedFdFuture {
    /// An accept on the listening socket `fd`.
    pub fn new(fd: i32) -> (f: EpollOwnedFdFuture)
        ensures
            f.readiness == Readiness::fresh(fd),
    {
        EpollOwnedFdFuture { readiness: Readiness::new(fd) }
    }

    /// The future of an operation that this driver does not have: it fails with `ENOSYS`.
    pub fn stub() -> (f: EpollOwnedFdFuture)
        ensures
            f.readiness == Readiness::fresh(NO_FD),
    {
        EpollOwnedFdFuture { readiness: Readiness::new(NO_FD) }
    }

    /// Begins a poll: the accept is then tried.
    pub fn begin_poll<T>(&mut self, driver: &mut EpollDriver) -> (begin: PollBegin<T>)
        requires
            all_awaited(old(driver)@),
        ensures
            all_awaited(final(driver)@),
            begun(
                old(self).readiness,
                old(driver)@,
                final(self).readiness,
                final(driver)@,
                begin,
            ),
    {
        if self.readiness.fd == NO_FD {
            self.readiness.terminated = true;
            return PollBegin::Ready(Err(Errno { code: ENOSYS }));
        }
        let delete = self.readiness.give_up(driver);
        PollBegin::Try { delete }
    }

    /// Ends a poll in which the accept gave `result`.
    pub fn end_poll<T>(&mut self, driver: &mut EpollDriver, waker: Waker, result: Result<T, Errno>) -> (end:
        PollEnd<T>)
        requires
            all_awaited(old(driver)@),
        ensures
            all_awaited(final(driver)@),
            ended(
                old(self).readiness,
                old(driver)@,
                false,
                waker,
                result,
                final(self).readiness,
                final(driver)@,
                end,
            ),
    {
        self.readiness.end(driver, false, waker, result)
    }

    /// Whether the operation is over.
    pub fn is_terminated(&self) -> (b: bool)
        ensures
            b == self.readiness.terminated,
    {
        self.readiness.terminated
    }

    /// Ends the future. Returns whether to take its descriptor out of epoll.
    pub fn drop_future(&mut self, driver: &mut EpollDriver) -> (delete: bool)
        requires
            all_awaited(old(driver)@),
        ensures
            all_awaited(final(driver)@),
            final(self).readiness == (Readiness { registered: false, ..old(self).readiness }),
            (final(driver)@, delete) == given_up(old(self).readiness, old(driver)@),
    {
        self.readiness.give_up(driver)
    }
}

impl IsIoPoll for EpollUnitFuture {
    open spec fn io_poll(&self) -> bool {
        false
    }

    fn is_io_poll(&self) -> (b: bool) {
        false
    }
}

impl IsIoPoll for EpollUsizeFuture {
    open spec fn io_poll(&self) -> bool {
        false
    }

    fn is_io_poll(&self) -> (b: bool) {
        false
    }
}

impl IsIoPoll for EpollOwnedFdFuture {
    open spec fn io_poll(&self) -> bool {
        false
    }

    fn is_io_poll(&self) -> (b: bool) {
        false
    }
}

/// A future that is dropped or polled again leaves no wait behind.
pub proof fn law_no_stale_wait(r: Readiness, waiting: Map<i32, FdWakers>)
    requires
        r.registered,
    ensures
        !given_up(r, waiting).0.contains_key(r.fd),
        given_up(r, waiting).1 == waiting.contains_key(r.fd),
{
}

} // verus!
