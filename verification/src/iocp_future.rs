//! Futures of socket operations that are tried until they do not block, over the
//! `WSAPoll` driver. Sockets must be in non-blocking mode.

use vstd::prelude::*;

use crate::backend::select_driver::{SelectDriver, SelectView};
use crate::errno::{Errno, EAGAIN, ECANCELED, ENOTSUP};
use crate::model::Waker;
use crate::operations::IsIoPoll;
use crate::task_future::Poll;
use crate::time::Duration;

verus! {

/// How a poll begins.
pub enum IocpBegin<T> {
    /// The poll is over.
    Ready(Result<T, Errno>),
    /// Try the operation.
    Try,
    /// Block the thread this long; the poll is then over, with success.
    Sleep(Duration),
}

/// An operation without a value: one that is over, or a sleep.
#[derive(Clone, Copy, Debug)]
pub enum UnitInner {
    Ready(Result<(), Errno>),
    Sleep(Duration),
}

/// The future of an operation without a value.
#[derive(Clone, Copy, Debug)]
pub struct IocpUnitFuture {
    pub inner: UnitInner,
    pub terminated: bool,
}

impl IocpUnitFuture {
    /// A future that succeeds.
    pub fn ready_ok() -> (f: IocpUnitFuture)
        ensures
            f == (IocpUnitFuture { inner: UnitInner::Ready(Ok(())), terminated: false }),
    {
        IocpUnitFuture { inner: UnitInner::Ready(Ok(())), terminated: false }
    }

    /// A future that fails with `e`.
    pub fn ready_err(e: Errno) -> (f: IocpUnitFuture)
        ensures
            f == (IocpUnitFuture { inner: UnitInner::Ready(Err(e)), terminated: false }),
    {
        IocpUnitFuture { inner: UnitInner::Ready(Err(e)), terminated: false }
    }

    /// The future of an operation that this driver does not have: it fails with
    /// `EOPNOTSUPP`.
    pub fn new() -> (f: IocpUnitFuture)
        ensures
            f == (IocpUnitFuture {
                inner: UnitInner::Ready(Err(Errno { code: ENOTSUP })),
                terminated: false,
            }),
    {
        IocpUnitFuture::ready_err(Errno { code: ENOTSUP })
    }

    /// The future of a shutdown that was made and gave `result`.
    pub fn shutdown(result: Result<(), Errno>) -> (f: IocpUnitFuture)
        ensures
            f == (IocpUnitFuture { inner: UnitInner::Ready(result), terminated: false }),
    {
        IocpUnitFuture { inner: UnitInner::Ready(result), terminated: false }
    }

    /// A sleep, which blocks the thread on the first poll.
    pub fn sleep(duration: Duration) -> (f: IocpUnitFuture)
        ensures
            f == (IocpUnitFuture { inner: UnitInner::Sleep(duration), terminated: false }),
    {
        IocpUnitFuture { inner: UnitInner::Sleep(duration), terminated: false }
    }

    /// Cancels the operation, without blocking.
    pub fn cancel(&mut self)
        ensures
            *final(self) == (IocpUnitFuture {
                inner: UnitInner::Ready(Err(Errno { code: ECANCELED })),
                terminated: true,
            }),
    {
        self.inner = UnitInner::Ready(Err(Errno { code: ECANCELED }));
        self.terminated = true;
    }

    /// Polls the operation, which is then over.
    pub fn poll(&mut self) -> (begin: IocpBegin<()>)
        ensures
            *final(self) == (IocpUnitFuture { terminated: true, ..*old(self) }),
            begin == (match old(self).inner {
                UnitInner::Ready(result) => IocpBegin::Ready(result),
                UnitInner::Sleep(d) => IocpBegin::Sleep(d),
            }),
    {
        self.terminated = true;
        match self.inner {
            UnitInner::Ready(result) => IocpBegin::Ready(result),
            UnitInner::Sleep(d) => IocpBegin::Sleep(d),
        }
    }

    /// Whether the operation is over.
    pub fn is_terminated(&self) -> (b: bool)
        ensures
            b == self.terminated,
    {
        self.terminated
    }
}

/// The operation of a transfer of bytes.
#[derive(Clone, Copy, Debug)]
pub enum UsizeOp {
    Recv { fd: u64, flags: u32 },
    Send { fd: u64, flags: u32 },
    Ready(Result<usize, Errno>),
}

/// The future of a transfer of bytes, or of an accept.
#[derive(Clone, Copy, Debug)]
pub struct IocpUsizeFuture {
    pub op: UsizeOp,
    pub registered: bool,
    pub terminated: bool,
}

/// Whether a result says that the operation would block.
pub open spec fn blocks<T>(result: Result<T, Errno>) -> bool {
    result is Err && result->Err_0.code == EAGAIN
}

/// Who waits after the wait for a socket was given up.
pub open spec fn forgotten(registered: bool, fd: u64, v: SelectView) -> SelectView {
    if registered {
        SelectView {
            read_wakers: v.read_wakers.remove(fd),
            write_wakers: v.write_wakers.remove(fd),
        }
    } else {
        v
    }
}

/// Who waits after `waker` began to wait for a socket.
pub open spec fn awaited(v: SelectView, fd: u64, write: bool, waker: Waker) -> SelectView {
    if write {
        SelectView { write_wakers: v.write_wakers.insert(fd, waker), ..v }
    } else {
        SelectView { read_wakers: v.read_wakers.insert(fd, waker), ..v }
    }
}

impl IocpUsizeFuture {
    fn new_op(op: UsizeOp) -> (f: IocpUsizeFuture)
        ensures
            f == (IocpUsizeFuture { op, registered: false, terminated: false }),
    {
        IocpUsizeFuture { op, registered: false, terminated: false }
    }

    /// The future of a transfer that this driver does not have: it fails with
    /// `EOPNOTSUPP`.
    pub fn new() -> (f: IocpUsizeFuture)
        ensures
            f == (IocpUsizeFuture {
                op: UsizeOp::Ready(Err(Errno { code: ENOTSUP })),
                registered: false,
                terminated: false,
            }),
    {
        IocpUsizeFuture::new_op(UsizeOp::Ready(Err(Errno { code: ENOTSUP })))
    }

    /// A receive from a socket.
    pub fn recv(fd: u64, flags: u32) -> (f: IocpUsizeFuture)
        ensures
            f == (IocpUsizeFuture {
                op: UsizeOp::Recv { fd, flags },
                registered: false,
                terminated: false,
            }),
    {
        IocpUsizeFuture::new_op(UsizeOp::Recv { fd, flags })
    }

    /// A send to a socket.
    pub fn send(fd: u64, flags: u32) -> (f: IocpUsizeFuture)
        ensures
            f == (IocpUsizeFuture {
                op: UsizeOp::Send { fd, flags },
                registered: false,
                terminated: false,
            }),
    {
        IocpUsizeFuture::new_op(UsizeOp::Send { fd, flags })
    }

    /// A read from a socket: a receive without flags.
    pub fn read(fd: u64) -> (f: IocpUsizeFuture)
        ensures
            f == (IocpUsizeFuture {
                op: UsizeOp::Recv { fd, flags: 0 },
                registered: false,
                terminated: false,
            }),
    {
        IocpUsizeFuture::recv(fd, 0)
    }

    /// A write to a socket: a send without flags.
    pub fn write(fd: u64) -> (f: IocpUsizeFuture)
        ensures
            f == (IocpUsizeFuture {
                op: UsizeOp::Send { fd, flags: 0 },
                registered: false,
                terminated: false,
            }),
    {
        IocpUsizeFuture::send(fd, 0)
    }

    /// The socket of the transfer.
    pub open spec fn socket(self) -> Option<u64> {
        match self.op {
            UsizeOp::Recv { fd, flags: _ } => Some(fd),
            UsizeOp::Send { fd, flags: _ } => Some(fd),
            UsizeOp::Ready(_) => None,
        }
    }

    /// The socket of the transfer, `None` where its result is known.
    pub fn raw_fd(&self) -> (fd: Option<u64>)
        ensures
            fd == self.socket(),
    {
        match self.op {
            UsizeOp::Recv { fd, .. } => Some(fd),
            UsizeOp::Send { fd, .. } => Some(fd),
            UsizeOp::Ready(_) => None,
        }
    }

    /// Begins a poll: the transfer is then tried, unless its result is known.
    pub fn begin_poll(&mut self, driver: &mut SelectDriver) -> (begin: IocpBegin<usize>)
        ensures
            final(self).op == old(self).op,
            match old(self).op {
                UsizeOp::Ready(result) => {
                    &&& begin == IocpBegin::Ready(result)
                    &&& *final(self) == (IocpUsizeFuture { terminated: true, ..*old(self) })
                    &&& final(driver)@ == old(driver)@
                },
                _ => {
                    &&& begin == IocpBegin::<usize>::Try
                    &&& *final(self) == (IocpUsizeFuture { registered: false, ..*old(self) })
                    &&& final(driver)@ == forgotten(
                        old(self).registered,
                        old(self).socket()->0,
                        old(driver)@,
                    )
                },
            },
    {
        if let UsizeOp::Ready(result) = self.op {
            self.terminated = true;
            return IocpBegin::Ready(result);
        }
        if self.registered {
            if let Some(fd) = self.raw_fd() {
                driver.deregister(fd);
            }
            self.registered = false;
        }
        IocpBegin::Try
    }

    /// Ends a poll in which the transfer gave `result`: it waits where it would block.
    pub fn end_poll(&mut self, driver: &mut SelectDriver, waker: Waker, result: Result<usize, Errno>) -> (p:
        Poll<Result<usize, Errno>>)
        requires
            old(self).socket() is Some,
        ensures
            final(self).op == old(self).op,
            if blocks(result) {
                &&& p == Poll::<Result<usize, Errno>>::Pending
                &&& *final(self) == (IocpUsizeFuture { registered: true, ..*old(self) })
                &&& final(driver)@ == awaited(
                    old(driver)@,
                    old(self).socket()->0,
                    old(self).op is Send,
                    waker,
                )
            } else {
                &&& p == Poll::Ready(result)
                &&& *final(self) == (IocpUsizeFuture { terminated: true, ..*old(self) })
                &&& final(driver)@ == old(driver)@
            },
    {
        if let Err(e) = result {
            if e.code == EAGAIN {
                if let Some(fd) = self.raw_fd() {
                    if matches!(self.op, UsizeOp::Send { .. }) {
                        driver.register_write(fd, waker);
                    } else {
                        driver.register_read(fd, waker);
                    }
                }
                self.registered = true;
                return Poll::Pending;
            }
        }
        self.terminated = true;
        Poll::Ready(result)
    }

    /// Whether the operation is over.
    pub fn is_terminated(&self) -> (b: bool)
        ensures
            b == self.terminated,
    {
        self.terminated
    }
}

/// The future of an accept, which gives a socket.
#[derive(Clone, Copy, Debug, PartialEq, Eq, Structural)]
pub struct IocpOwnedFdFuture {
    pub fd: u64,
    pub registered: bool,
    pub terminated: bool,
}

impl IocpOwnedFdFuture {
    /// An accept on the listening socket `fd`.
    pub fn new(fd: u64) -> (f: IocpOwnedFdFuture)
        ensures
            f == (IocpOwnedFdFuture { fd, registered: false, terminated: false }),
    {
        IocpOwnedFdFuture { fd, registered: false, terminated: false }
    }

    /// Begins a poll: the accept is then tried.
    pub fn begin_poll(&mut self, driver: &mut SelectDriver)
        ensures
            *final(self) == (IocpOwnedFdFuture { registered: false, ..*old(self) }),
            final(driver)@ == forgotten(old(self).registered, old(self).fd, old(driver)@),
    {
        if self.registered {
            driver.deregister(self.fd);
            self.registered = false;
        }
    }

    /// Ends a poll in which the accept gave `result`: it waits where it would block.
    pub fn end_poll<T>(&mut self, driver: &mut SelectDriver, waker: Waker, result: Result<T, Errno>) -> (p:
        Poll<Result<T, Errno>>)
        ensures
            if blocks(result) {
                &&& p == Poll::<Result<T, Errno>>::Pending
                &&& *final(self) == (IocpOwnedFdFuture { registered: true, ..*old(self) })
                &&& final(driver)@ == awaited(old(driver)@, old(self).fd, false, waker)
            } else {
                &&& p == Poll::Ready(result)
                &&& *final(self) == (IocpOwnedFdFuture { terminated: true, ..*old(self) })
                &&& final(driver)@ == old(driver)@
            },
    {
        if let Err(e) = &result {
            if e.code == EAGAIN {
                driver.register_read(self.fd, waker);
                self.registered = true;
                return Poll::Pending;
            }
        }
        self.terminated = true;
        Poll::Ready(result)
    }

    /// Whether the operation is over.
    pub fn is_terminated(&self) -> (b: bool)
        ensures
            b == self.terminated,
    {
        self.terminated
    }
}

impl IsIoPoll for IocpUnitFuture {
    open spec fn io_poll(&self) -> bool {
        false
    }

    fn is_io_poll(&self) -> (b: bool) {
        false
    }
}

impl IsIoPoll for IocpUsizeFuture {
    open spec fn io_poll(&self) -> bool {
        false
    }

    fn is_io_poll(&self) -> (b: bool) {
        false
    }
}

impl IsIoPoll for IocpOwnedFdFuture {
    open spec fn io_poll(&self) -> bool {
        false
    }

    fn is_io_poll(&self) -> (b: bool) {
        false
    }
}

} // verus!
