//! I/O operations as requests to the kernel.
//!
//! A request says what the kernel is asked to do, with the lengths, offsets and flags that
//! it is told. The memory that it works on, buffers and paths among it, stays with the
//! embedding program: a request holds its addresses.

use vstd::prelude::*;

use crate::epoll_future::NO_FD;
use crate::errno::{Errno, ETIME, ETIMEDOUT};
use crate::operations::{ErrnoOrFuture, IsIoPoll};
use crate::sleep::{clock_now, thread_now};
use crate::task::TaskState;
use crate::time::{Duration, Instant};

verus! {

/// The kind of an operation in trace events.
#[derive(Clone, Copy, Debug, PartialEq, Eq, Structural)]
pub enum IOType {
    Open,
    Link,
    Symlink,
    Mkdir,
    Unlink,
    Stat,
    Rename,
    FAdvise,
    MAdvise,
    FAllocate,
    Socket,
    Accept,
    Shutdown,
    Fsync,
    SyncFileRange,
    Connect,
    Write,
    Send,
    Recv,
    Read,
    Close,
    Nop,
    NvmeCmd,
    Timeout,
}

impl IOType {
    /// The number under which the kind appears in trace events.
    pub open spec fn number(self) -> u8 {
        match self {
            IOType::Open => 0,
            IOType::Link => 1,
            IOType::Symlink => 2,
            IOType::Mkdir => 3,
            IOType::Unlink => 4,
            IOType::Stat => 5,
            IOType::Rename => 6,
            IOType::FAdvise => 7,
            IOType::MAdvise => 8,
            IOType::FAllocate => 9,
            IOType::Socket => 10,
            IOType::Accept => 11,
            IOType::Shutdown => 12,
            IOType::Fsync => 13,
            IOType::SyncFileRange => 14,
            IOType::Connect => 15,
            IOType::Write => 16,
            IOType::Send => 17,
            IOType::Recv => 18,
            IOType::Read => 19,
            IOType::Close => 20,
            IOType::Nop => 21,
            IOType::NvmeCmd => 22,
            IOType::Timeout => 23,
        }
    }

    /// The number under which the kind appears in trace events.
    pub fn as_u8(self) -> (n: u8)
        ensures
            n == self.number(),
    {
        match self {
            IOType::Open => 0,
            IOType::Link => 1,
            IOType::Symlink => 2,
            IOType::Mkdir => 3,
            IOType::Unlink => 4,
            IOType::Stat => 5,
            IOType::Rename => 6,
            IOType::FAdvise => 7,
            IOType::MAdvise => 8,
            IOType::FAllocate => 9,
            IOType::Socket => 10,
            IOType::Accept => 11,
            IOType::Shutdown => 12,
            IOType::Fsync => 13,
            IOType::SyncFileRange => 14,
            IOType::Connect => 15,
            IOType::Write => 16,
            IOType::Send => 17,
            IOType::Recv => 18,
            IOType::Read => 19,
            IOType::Close => 20,
            IOType::Nop => 21,
            IOType::NvmeCmd => 22,
            IOType::Timeout => 23,
        }
    }
}

/// The offset that stands for where a file stands.
pub const CURRENT_OFFSET: u64 = 0xffff_ffff_ffff_ffff;

/// The working directory, as the directory of a path.
pub const AT_FDCWD: i32 = -100;

/// What the kernel is asked to do.
#[allow(inconsistent_fields)]
#[derive(Clone, Copy, Debug, PartialEq, Eq)]
pub enum Entry {
    OpenAt { dirfd: i32, path: u64, flags: u32, mode: u32 },
    LinkAt { olddirfd: i32, oldpath: u64, newdirfd: i32, newpath: u64 },
    SymlinkAt { newdirfd: i32, target: u64, linkpath: u64 },
    MkDirAt { dirfd: i32, path: u64, mode: u32 },
    UnlinkAt { dirfd: i32, path: u64, directory: bool },
    /// Of the file at `path`, or, without one, of the open file `dirfd`.
    Statx { dirfd: i32, path: Option<u64>, statx: u64 },
    RenameAt { olddirfd: i32, oldpath: u64, newdirfd: i32, newpath: u64 },
    Fadvise { fd: i32, offset: u64, len: u32, advice: u32 },
    Madvise { addr: u64, len: u32, advice: u32 },
    Fallocate { fd: i32, mode: i32, offset: u64, len: u64 },
    Socket { domain: i32, socket_type: i32, protocol: i32 },
    Accept { fd: i32 },
    Shutdown { fd: i32, how: i32 },
    Fsync { fd: i32 },
    SyncFileRange { fd: i32, offset: u64, len: u32 },
    Connect { fd: i32, addr: u64, addr_len: u32 },
    Writev { fd: i32, iovec: u64, count: u32, offset: u64 },
    Write { fd: i32, buf: u64, len: u32, offset: u64 },
    Send { fd: i32, buf: u64, len: u32, flags: u32 },
    Recv { fd: i32, buf: u64, len: u32, flags: u32 },
    RecvMsg { fd: i32, msghdr: u64, flags: u32 },
    SendMsg { fd: i32, msghdr: u64, flags: u32 },
    Readv { fd: i32, iovec: u64, count: u32, offset: u64 },
    Read { fd: i32, buf: u64, len: u32, offset: u64 },
    Close { fd: i32 },
    Nop,
    UringCmd80 { fd: i32, op: u32, cmd: [u8; 80] },
    Timeout { duration: Duration },
}

/// An operation as it is handed to the kernel.
#[derive(Clone, Copy, Debug, PartialEq, Eq)]
pub struct IoRequest {
    pub entry: Entry,
    /// The descriptor in trace events.
    pub fd: i32,
    /// How long the operation may take.
    pub timeout: Option<Duration>,
    pub io_type: IOType,
    /// Whether the operation is for the polled ring.
    pub polled: bool,
    /// Whether the operation was given a deadline, rather than a timeout.
    pub by_deadline: bool,
}

impl IoRequest {
    /// What the operation reports when it came to `result`: the expiry of its timeout is
    /// `ETIME`, that of its deadline `ETIMEDOUT`.
    pub open spec fn reported(self, result: Result<u32, Errno>) -> Result<usize, Errno> {
        match result {
            Ok(n) => Ok(n as usize),
            Err(e) => if self.by_deadline && e.code == ETIME {
                Err(Errno { code: ETIMEDOUT })
            } else {
                Err(e)
            },
        }
    }

    /// What the operation reports when it came to `result`.
    pub fn report(&self, result: Result<u32, Errno>) -> (r: Result<usize, Errno>)
        ensures
            r == self.reported(result),
    {
        match result {
            Ok(n) => Ok(n as usize),
            Err(e) => if self.by_deadline && e.code == ETIME {
                Err(Errno { code: ETIMEDOUT })
            } else {
                Err(e)
            },
        }
    }
}

impl IsIoPoll for IoRequest {
    open spec fn io_poll(&self) -> bool {
        self.polled
    }

    fn is_io_poll(&self) -> (b: bool) {
        self.polled
    }
}

/// The offset that the kernel is told.
pub open spec fn kernel_offset(offset: Option<u64>) -> u64 {
    match offset {
        Some(offset) => offset,
        None => CURRENT_OFFSET,
    }
}

fn to_kernel_offset(offset: Option<u64>) -> (o: u64)
    ensures
        o == kernel_offset(offset),
{
    match offset {
        Some(offset) => offset,
        None => CURRENT_OFFSET,
    }
}

/// Opens or creates a file at a path, relative to the working directory.
pub fn open(filename: u64, flags: u32, mode: u32) -> (r: IoRequest)
    ensures
        r == (IoRequest {
            entry: Entry::OpenAt { dirfd: AT_FDCWD, path: filename, flags, mode },
            fd: NO_FD,
            timeout: None,
            io_type: IOType::Open,
            polled: false,
            by_deadline: false,
        }),
{
    IoRequest {
        entry: Entry::OpenAt { dirfd: AT_FDCWD, path: filename, flags, mode },
        fd: NO_FD,
        timeout: None,
        io_type: IOType::Open,
        polled: false,
        by_deadline: false,
    }
}

/// Makes a hard link at `newpath` to the file at `oldpath`.
pub fn link(oldpath: u64, newpath: u64) -> (r: IoRequest)
    ensures
        r == (IoRequest {
            entry: Entry::LinkAt { olddirfd: AT_FDCWD, oldpath, newdirfd: AT_FDCWD, newpath },
            fd: NO_FD,
            timeout: None,
            io_type: IOType::Link,
            polled: false,
            by_deadline: false,
        }),
{
    IoRequest {
        entry: Entry::LinkAt { olddirfd: AT_FDCWD, oldpath, newdirfd: AT_FDCWD, newpath },
        fd: NO_FD,
        timeout: None,
        io_type: IOType::Link,
        polled: false,
        by_deadline: false,
    }
}

/// Makes a symbolic link at `linkpath` to `target`.
pub fn symlink(target: u64, linkpath: u64) -> (r: IoRequest)
    ensures
        r == (IoRequest {
            entry: Entry::SymlinkAt { newdirfd: AT_FDCWD, target, linkpath },
            fd: NO_FD,
            timeout: None,
            io_type: IOType::Symlink,
            polled: false,
            by_deadline: false,
        }),
{
    IoRequest {
        entry: Entry::SymlinkAt { newdirfd: AT_FDCWD, target, linkpath },
        fd: NO_FD,
        timeout: None,
        io_type: IOType::Symlink,
        polled: false,
        by_deadline: false,
    }
}

/// Makes a directory.
pub fn mkdir(pathname: u64, mode: u32) -> (r: IoRequest)
    ensures
        r == (IoRequest {
            entry: Entry::MkDirAt { dirfd: AT_FDCWD, path: pathname, mode },
            fd: NO_FD,
            timeout: None,
            io_type: IOType::Mkdir,
            polled: false,
            by_deadline: false,
        }),
{
    IoRequest {
        entry: Entry::MkDirAt { dirfd: AT_FDCWD, path: pathname, mode },
        fd: NO_FD,
        timeout: None,
        io_type: IOType::Mkdir,
        polled: false,
        by_deadline: false,
    }
}

/// Removes an empty directory.
pub fn rmdir(pathname: u64) -> (r: IoRequest)
    ensures
        r == (IoRequest {
            entry: Entry::UnlinkAt { dirfd: AT_FDCWD, path: pathname, directory: true },
            fd: NO_FD,
            timeout: None,
            io_type: IOType::Unlink,
            polled: false,
            by_deadline: false,
        }),
{
    IoRequest {
        entry: Entry::UnlinkAt { dirfd: AT_FDCWD, path: pathname, directory: true },
        fd: NO_FD,
        timeout: None,
        io_type: IOType::Unlink,
        polled: false,
        by_deadline: false,
    }
}

/// Asks for the status of the file at a path.
pub fn stat(filename: u64, statx: u64) -> (r: IoRequest)
    ensures
        r == (IoRequest {
            entry: Entry::Statx { dirfd: AT_FDCWD, path: Some(filename), statx },
            fd: NO_FD,
            timeout: None,
            io_type: IOType::Stat,
            polled: false,
            by_deadline: false,
        }),
{
    IoRequest {
        entry: Entry::Statx { dirfd: AT_FDCWD, path: Some(filename), statx },
        fd: NO_FD,
        timeout: None,
        io_type: IOType::Stat,
        polled: false,
        by_deadline: false,
    }
}

/// Asks for the status of an open file.
pub fn fstat(fd: i32, statx: u64) -> (r: IoRequest)
    ensures
        r == (IoRequest {
            entry: Entry::Statx { dirfd: fd, path: None, statx },
            fd: NO_FD,
            timeout: None,
            io_type: IOType::Stat,
            polled: false,
            by_deadline: false,
        }),
{
    IoRequest {
        entry: Entry::Statx { dirfd: fd, path: None, statx },
        fd: NO_FD,
        timeout: None,
        io_type: IOType::Stat,
        polled: false,
        by_deadline: false,
    }
}

/// Removes a file.
pub fn unlink(filename: u64) -> (r: IoRequest)
    ensures
        r == (IoRequest {
            entry: Entry::UnlinkAt { dirfd: AT_FDCWD, path: filename, directory: false },
            fd: NO_FD,
            timeout: None,
            io_type: IOType::Unlink,
            polled: false,
            by_deadline: false,
        }),
{
    IoRequest {
        entry: Entry::UnlinkAt { dirfd: AT_FDCWD, path: filename, directory: false },
        fd: NO_FD,
        timeout: None,
        io_type: IOType::Unlink,
        polled: false,
        by_deadline: false,
    }
}

/// Renames the file or directory at `oldpath` to `newpath`.
pub fn rename(oldpath: u64, newpath: u64) -> (r: IoRequest)
    ensures
        r == (IoRequest {
            entry: Entry::RenameAt { olddirfd: AT_FDCWD, oldpath, newdirfd: AT_FDCWD, newpath },
            fd: NO_FD,
            timeout: None,
            io_type: IOType::Rename,
            polled: false,
            by_deadline: false,
        }),
{
    IoRequest {
        entry: Entry::RenameAt { olddirfd: AT_FDCWD, oldpath, newdirfd: AT_FDCWD, newpath },
        fd: NO_FD,
        timeout: None,
        io_type: IOType::Rename,
        polled: false,
        by_deadline: false,
    }
}

/// Announces how a range of a file will be used.
pub fn fadvise(fd: i32, offset: u64, len: u64, advice: u32) -> (r: IoRequest)
    ensures
        r == (IoRequest {
            entry: Entry::Fadvise { fd, offset, len: len as u32, advice },
            fd,
            timeout: None,
            io_type: IOType::FAdvise,
            polled: false,
            by_deadline: false,
        }),
{
    IoRequest {
        entry: Entry::Fadvise { fd, offset, len: #[verifier::truncate] (len as u32), advice },
        fd,
        timeout: None,
        io_type: IOType::FAdvise,
        polled: false,
        by_deadline: false,
    }
}

/// Announces how a range of memory will be used.
pub fn madvise(addr: u64, len: u64, advice: u32) -> (r: IoRequest)
    ensures
        r == (IoRequest {
            entry: Entry::Madvise { addr, len: len as u32, advice },
            fd: NO_FD,
            timeout: None,
            io_type: IOType::MAdvise,
            polled: false,
            by_deadline: false,
        }),
{
    IoRequest {
        entry: Entry::Madvise { addr, len: #[verifier::truncate] (len as u32), advice },
        fd: NO_FD,
        timeout: None,
        io_type: IOType::MAdvise,
        polled: false,
        by_deadline: false,
    }
}

/// Allocates or frees space of a file.
pub fn fallocate(fd: i32, mode: i32, offset: u64, len: u64) -> (r: IoRequest)
    ensures
        r == (IoRequest {
            entry: Entry::Fallocate { fd, mode, offset, len },
            fd,
            timeout: None,
            io_type: IOType::FAllocate,
            polled: false,
            by_deadline: false,
        }),
{
    IoRequest {
        entry: Entry::Fallocate { fd, mode, offset, len },
        fd,
        timeout: None,
        io_type: IOType::FAllocate,
        polled: false,
        by_deadline: false,
    }
}

/// Accepts a connection on a listening socket.
pub fn accept(fd: i32) -> (r: IoRequest)
    ensures
        r == (IoRequest {
            entry: Entry::Accept { fd },
            fd,
            timeout: None,
            io_type: IOType::Accept,
            polled: false,
            by_deadline: false,
        }),
{
    IoRequest {
        entry: Entry::Accept { fd },
        fd,
        timeout: None,
        io_type: IOType::Accept,
        polled: false,
        by_deadline: false,
    }
}

/// Shuts down a connection, or one direction of it.
pub fn shutdown(fd: i32, how: i32) -> (r: IoRequest)
    ensures
        r == (IoRequest {
            entry: Entry::Shutdown { fd, how },
            fd,
            timeout: None,
            io_type: IOType::Shutdown,
            polled: false,
            by_deadline: false,
        }),
{
    IoRequest {
        entry: Entry::Shutdown { fd, how },
        fd,
        timeout: None,
        io_type: IOType::Shutdown,
        polled: false,
        by_deadline: false,
    }
}

/// Has a file written to storage.
pub fn fsync(fd: i32) -> (r: IoRequest)
    ensures
        r == (IoRequest {
            entry: Entry::Fsync { fd },
            fd,
            timeout: None,
            io_type: IOType::Fsync,
            polled: false,
            by_deadline: false,
        }),
{
    IoRequest {
        entry: Entry::Fsync { fd },
        fd,
        timeout: None,
        io_type: IOType::Fsync,
        polled: false,
        by_deadline: false,
    }
}

/// Has a range of a file written to storage.
pub fn sync_file_range(fd: i32, offset: u64, len: u32) -> (r: IoRequest)
    ensures
        r == (IoRequest {
            entry: Entry::SyncFileRange { fd, offset, len },
            fd,
            timeout: None,
            io_type: IOType::SyncFileRange,
            polled: false,
            by_deadline: false,
        }),
{
    IoRequest {
        entry: Entry::SyncFileRange { fd, offset, len },
        fd,
        timeout: None,
        io_type: IOType::SyncFileRange,
        polled: false,
        by_deadline: false,
    }
}

/// Connects a socket to the socket address of `addr_len` bytes at `addr`.
pub fn connect_to(fd: i32, addr: u64, addr_len: u32) -> (r: IoRequest)
    ensures
        r == (IoRequest {
            entry: Entry::Connect { fd, addr, addr_len },
            fd,
            timeout: None,
            io_type: IOType::Connect,
            polled: false,
            by_deadline: false,
        }),
{
    IoRequest {
        entry: Entry::Connect { fd, addr, addr_len },
        fd,
        timeout: None,
        io_type: IOType::Connect,
        polled: false,
        by_deadline: false,
    }
}

/// Writes several buffers, at `offset` or where the file stands.
pub fn writev_with_timeout(
    fd: i32,
    iovec: u64,
    count: usize,
    offset: Option<u64>,
    timeout: Option<Duration>,
) -> (r: IoRequest)
    ensures
        r == (IoRequest {
            entry: Entry::Writev { fd, iovec, count: count as u32, offset: kernel_offset(offset) },
            fd,
            timeout,
            io_type: IOType::Write,
            polled: false,
            by_deadline: false,
        }),
{
    IoRequest {
        entry: Entry::Writev {
            fd,
            iovec,
            count: #[verifier::truncate] (count as u32),
            offset: to_kernel_offset(offset),
        },
        fd,
        timeout,
        io_type: IOType::Write,
        polled: false,
        by_deadline: false,
    }
}

/// Writes a buffer of `len` bytes, where the file stands.
pub fn write_with_timeout(
    fd: i32,
    buf: u64,
    len: usize,
    timeout: Option<Duration>,
) -> (r: IoRequest)
    ensures
        r == (IoRequest {
            entry: Entry::Write { fd, buf, len: len as u32, offset: CURRENT_OFFSET },
            fd,
            timeout,
            io_type: IOType::Write,
            polled: false,
            by_deadline: false,
        }),
{
    IoRequest {
        entry: Entry::Write {
            fd,
            buf,
            len: #[verifier::truncate] (len as u32),
            offset: CURRENT_OFFSET,
        },
        fd,
        timeout,
        io_type: IOType::Write,
        polled: false,
        by_deadline: false,
    }
}

/// Sends a buffer of `len` bytes.
pub fn send(fd: i32, buf: u64, len: usize, flags: u32, timeout: Option<Duration>) -> (r: IoRequest)
    ensures
        r == (IoRequest {
            entry: Entry::Send { fd, buf, len: len as u32, flags },
            fd,
            timeout,
            io_type: IOType::Send,
            polled: false,
            by_deadline: false,
        }),
{
    IoRequest {
        entry: Entry::Send { fd, buf, len: #[verifier::truncate] (len as u32), flags },
        fd,
        timeout,
        io_type: IOType::Send,
        polled: false,
        by_deadline: false,
    }
}

/// Receives into a buffer of `len` bytes.
pub fn recv(fd: i32, buf: u64, len: usize, flags: u32, timeout: Option<Duration>) -> (r: IoRequest)
    ensures
        r == (IoRequest {
            entry: Entry::Recv { fd, buf, len: len as u32, flags },
            fd,
            timeout,
            io_type: IOType::Recv,
            polled: false,
            by_deadline: false,
        }),
{
    IoRequest {
        entry: Entry::Recv { fd, buf, len: #[verifier::truncate] (len as u32), flags },
        fd,
        timeout,
        io_type: IOType::Recv,
        polled: false,
        by_deadline: false,
    }
}

/// Receives a message.
pub fn recvmsg(fd: i32, msghdr: u64, flags: u32, timeout: Option<Duration>) -> (r: IoRequest)
    ensures
        r == (IoRequest {
            entry: Entry::RecvMsg { fd, msghdr, flags },
            fd,
            timeout,
            io_type: IOType::Recv,
            polled: false,
            by_deadline: false,
        }),
{
    IoRequest {
        entry: Entry::RecvMsg { fd, msghdr, flags },
        fd,
        timeout,
        io_type: IOType::Recv,
        polled: false,
        by_deadline: false,
    }
}

/// Sends a message.
pub fn sendmsg(fd: i32, msghdr: u64, flags: u32, timeout: Option<Duration>) -> (r: IoRequest)
    ensures
        r == (IoRequest {
            entry: Entry::SendMsg { fd, msghdr, flags },
            fd,
            timeout,
            io_type: IOType::Send,
            polled: false,
            by_deadline: false,
        }),
{
    IoRequest {
        entry: Entry::SendMsg { fd, msghdr, flags },
        fd,
        timeout,
        io_type: IOType::Send,
        polled: false,
        by_deadline: false,
    }
}

/// Writes a buffer of `len` bytes at `offset`, on the polled ring if `polled`.
pub fn pwrite_polled(fd: i32, buf: u64, len: usize, offset: u64, polled: bool) -> (r: IoRequest)
    ensures
        r == (IoRequest {
            entry: Entry::Write { fd, buf, len: len as u32, offset },
            fd,
            timeout: None,
            io_type: IOType::Write,
            polled,
            by_deadline: false,
        }),
{
    IoRequest {
        entry: Entry::Write { fd, buf, len: #[verifier::truncate] (len as u32), offset },
        fd,
        timeout: None,
        io_type: IOType::Write,
        polled,
        by_deadline: false,
    }
}

/// Reads into several buffers, from `offset` or from where the file stands.
pub fn readv(fd: i32, iovec: u64, count: usize, offset: Option<u64>) -> (r: IoRequest)
    ensures
        r == (IoRequest {
            entry: Entry::Readv { fd, iovec, count: count as u32, offset: kernel_offset(offset) },
            fd,
            timeout: None,
            io_type: IOType::Read,
            polled: false,
            by_deadline: false,
        }),
{
    IoRequest {
        entry: Entry::Readv {
            fd,
            iovec,
            count: #[verifier::truncate] (count as u32),
            offset: to_kernel_offset(offset),
        },
        fd,
        timeout: None,
        io_type: IOType::Read,
        polled: false,
        by_deadline: false,
    }
}

/// Reads into a buffer of `len` bytes, from where the file stands.
pub fn read_with_timeout(fd: i32, buf: u64, len: usize, timeout: Option<Duration>) -> (r: IoRequest)
    ensures
        r == (IoRequest {
            entry: Entry::Read { fd, buf, len: len as u32, offset: CURRENT_OFFSET },
            fd,
            timeout,
            io_type: IOType::Read,
            polled: false,
            by_deadline: false,
        }),
{
    IoRequest {
        entry: Entry::Read {
            fd,
            buf,
            len: #[verifier::truncate] (len as u32),
            offset: CURRENT_OFFSET,
        },
        fd,
        timeout,
        io_type: IOType::Read,
        polled: false,
        by_deadline: false,
    }
}

/// Reads into a buffer of `len` bytes from `offset`, on the polled ring if `polled`.
pub fn pread_polled(fd: i32, buf: u64, len: usize, offset: u64, polled: bool) -> (r: IoRequest)
    ensures
        r == (IoRequest {
            entry: Entry::Read { fd, buf, len: len as u32, offset },
            fd,
            timeout: None,
            io_type: IOType::Read,
            polled,
            by_deadline: false,
        }),
{
    IoRequest {
        entry: Entry::Read { fd, buf, len: #[verifier::truncate] (len as u32), offset },
        fd,
        timeout: None,
        io_type: IOType::Read,
        polled,
        by_deadline: false,
    }
}

/// Closes a descriptor, which the caller gives up.
pub fn close(fd: i32) -> (r: IoRequest)
    ensures
        r == (IoRequest {
            entry: Entry::Close { fd },
            fd,
            timeout: None,
            io_type: IOType::Close,
            polled: false,
            by_deadline: false,
        }),
{
    IoRequest {
        entry: Entry::Close { fd },
        fd,
        timeout: None,
        io_type: IOType::Close,
        polled: false,
        by_deadline: false,
    }
}

/// Does nothing, in the kernel.
pub fn nop() -> (r: IoRequest)
    ensures
        r == (IoRequest {
            entry: Entry::Nop,
            fd: NO_FD,
            timeout: None,
            io_type: IOType::Nop,
            polled: false,
            by_deadline: false,
        }),
{
    IoRequest {
        entry: Entry::Nop,
        fd: NO_FD,
        timeout: None,
        io_type: IOType::Nop,
        polled: false,
        by_deadline: false,
    }
}

/// Passes a command through to the device behind a descriptor.
pub fn uring_cmd(fd: i32, op: u32, cmd: [u8; 80]) -> (r: IoRequest)
    ensures
        r == (IoRequest {
            entry: Entry::UringCmd80 { fd, op, cmd },
            fd,
            timeout: None,
            io_type: IOType::NvmeCmd,
            polled: false,
            by_deadline: false,
        }),
{
    IoRequest {
        entry: Entry::UringCmd80 { fd, op, cmd },
        fd,
        timeout: None,
        io_type: IOType::NvmeCmd,
        polled: false,
        by_deadline: false,
    }
}

/// Passes a command through to the device behind a descriptor, on the polled ring.
pub fn uring_cmd_polled(fd: i32, op: u32, cmd: [u8; 80]) -> (r: IoRequest)
    ensures
        r == (IoRequest {
            entry: Entry::UringCmd80 { fd, op, cmd },
            fd,
            timeout: None,
            io_type: IOType::NvmeCmd,
            polled: true,
            by_deadline: false,
        }),
{
    IoRequest {
        entry: Entry::UringCmd80 { fd, op, cmd },
        fd,
        timeout: None,
        io_type: IOType::NvmeCmd,
        polled: true,
        by_deadline: false,
    }
}

/// Expires after `duration`, in the kernel.
pub fn timeout(duration: Duration) -> (r: IoRequest)
    ensures
        r == (IoRequest {
            entry: Entry::Timeout { duration },
            fd: NO_FD,
            timeout: None,
            io_type: IOType::Timeout,
            polled: false,
            by_deadline: false,
        }),
{
    IoRequest {
        entry: Entry::Timeout { duration },
        fd: NO_FD,
        timeout: None,
        io_type: IOType::Timeout,
        polled: false,
        by_deadline: false,
    }
}

/// Writes a buffer of `len` bytes at `offset`.
pub fn pwrite(fd: i32, buf: u64, len: usize, offset: u64) -> (r: IoRequest)
    ensures
        r == (IoRequest {
            entry: Entry::Write { fd, buf, len: len as u32, offset },
            fd,
            timeout: None,
            io_type: IOType::Write,
            polled: false,
            by_deadline: false,
        }),
{
    pwrite_polled(fd, buf, len, offset, false)
}

/// Reads into a buffer of `len` bytes from `offset`.
pub fn pread(fd: i32, buf: u64, len: usize, offset: u64) -> (r: IoRequest)
    ensures
        r == (IoRequest {
            entry: Entry::Read { fd, buf, len: len as u32, offset },
            fd,
            timeout: None,
            io_type: IOType::Read,
            polled: false,
            by_deadline: false,
        }),
{
    pread_polled(fd, buf, len, offset, false)
}

/// Reads into a buffer of `len` bytes, from where the file stands.
pub fn read(fd: i32, buf: u64, len: usize) -> (r: IoRequest)
    ensures
        r == (IoRequest {
            entry: Entry::Read { fd, buf, len: len as u32, offset: CURRENT_OFFSET },
            fd,
            timeout: None,
            io_type: IOType::Read,
            polled: false,
            by_deadline: false,
        }),
{
    read_with_timeout(fd, buf, len, None)
}

/// How a socket is made.
#[derive(Clone, Copy, Debug, PartialEq, Eq)]
pub enum SocketPlan {
    /// By an operation on the ring.
    Ring(IoRequest),
    /// By a plain call.
    Call { domain: i32, socket_type: i32, protocol: Option<i32> },
}

/// Makes a socket: on the ring, where the kernel can do that, else by a plain call. No
/// protocol is protocol 0.
pub fn socket(domain: i32, socket_type: i32, protocol: Option<i32>, supported: bool) -> (plan:
    SocketPlan)
    ensures
        plan == (if supported {
            SocketPlan::Ring(
                IoRequest {
                    entry: Entry::Socket {
                        domain,
                        socket_type,
                        protocol: match protocol {
                            Some(p) => p,
                            None => 0,
                        },
                    },
                    fd: NO_FD,
                    timeout: None,
                    io_type: IOType::Socket,
                    polled: false,
                    by_deadline: false,
                },
            )
        } else {
            SocketPlan::Call { domain, socket_type, protocol }
        }),
{
    if supported {
        let number: i32 = match protocol {
            Some(p) => p,
            None => 0,
        };
        SocketPlan::Ring(
            IoRequest {
                entry: Entry::Socket { domain, socket_type, protocol: number },
                fd: NO_FD,
                timeout: None,
                io_type: IOType::Socket,
                polled: false,
                by_deadline: false,
            },
        )
    } else {
        SocketPlan::Call { domain, socket_type, protocol }
    }
}

/// How long an operation may take that is to end by `deadline`: without a deadline as long
/// as it likes, not at all once the deadline passed. `now` is the time of the thread.
pub open spec fn time_left(deadline: Option<Instant>, now: Instant) -> Result<Option<int>, Errno> {
    match deadline {
        None => Ok(None),
        Some(d) => if now@ <= d@ {
            Ok(Some(d@ - now@))
        } else {
            Err(Errno { code: ETIMEDOUT })
        },
    }
}

/// Whether `timeout` is what [`time_left`] says.
pub open spec fn is_time_left(
    timeout: Option<Duration>,
    deadline: Option<Instant>,
    now: Instant,
) -> bool {
    match timeout {
        Some(t) => time_left(deadline, now) == Ok::<Option<int>, Errno>(Some(t@ as int)),
        None => time_left(deadline, now) == Ok::<Option<int>, Errno>(None),
    }
}

/// How long an operation may take that is to end by `deadline`. The thread's clock decides
/// whether that is still ahead; the operation itself runs on the kernel's.
pub fn timeout_until(state: &TaskState, deadline: Option<Instant>, system_now: Instant) -> (r: Result<
    Option<Duration>,
    Errno,
>)
    ensures
        match r {
            Ok(timeout) => is_time_left(timeout, deadline, thread_now(state@, system_now)),
            Err(e) => time_left(deadline, thread_now(state@, system_now)) == Err::<
                Option<int>,
                Errno,
            >(e),
        },
{
    match deadline {
        None => Ok(None),
        Some(d) => match d.checked_duration_since(clock_now(state, system_now)) {
            Some(left) => Ok(Some(left)),
            None => Err(Errno { code: ETIMEDOUT }),
        },
    }
}

/// Writes a buffer of `len` bytes by `deadline`. Fails where that passed.
pub fn write_with_deadline(
    state: &TaskState,
    fd: i32,
    buf: u64,
    len: usize,
    deadline: Option<Instant>,
    system_now: Instant,
) -> (r: ErrnoOrFuture<IoRequest>)
    ensures
        match r {
            ErrnoOrFuture::Error { errno } => time_left(
                deadline,
                thread_now(state@, system_now),
            ) == Err::<Option<int>, Errno>(errno),
            ErrnoOrFuture::Future { fut } => {
                &&& is_time_left(fut.timeout, deadline, thread_now(state@, system_now))
                &&& fut.entry == (Entry::Write { fd, buf, len: len as u32, offset: CURRENT_OFFSET })
                &&& fut.fd == fd
                &&& fut.io_type == IOType::Write
                &&& !fut.polled
                &&& fut.by_deadline == (deadline is Some)
            },
        },
{
    match timeout_until(state, deadline, system_now) {
        Ok(timeout) => {
            let mut fut = write_with_timeout(fd, buf, len, timeout);
            fut.by_deadline = deadline.is_some();
            ErrnoOrFuture::Future { fut }
        },
        Err(errno) => ErrnoOrFuture::Error { errno },
    }
}

/// Reads into a buffer of `len` bytes by `deadline`. Fails where that passed.
pub fn read_with_deadline(
    state: &TaskState,
    fd: i32,
    buf: u64,
    len: usize,
    deadline: Option<Instant>,
    system_now: Instant,
) -> (r: ErrnoOrFuture<IoRequest>)
    ensures
        match r {
            ErrnoOrFuture::Error { errno } => time_left(
                deadline,
                thread_now(state@, system_now),
            ) == Err::<Option<int>, Errno>(errno),
            ErrnoOrFuture::Future { fut } => {
                &&& is_time_left(fut.timeout, deadline, thread_now(state@, system_now))
                &&& fut.entry == (Entry::Read { fd, buf, len: len as u32, offset: CURRENT_OFFSET })
                &&& fut.fd == fd
                &&& fut.io_type == IOType::Read
                &&& !fut.polled
                &&& fut.by_deadline == (deadline is Some)
            },
        },
{
    match timeout_until(state, deadline, system_now) {
        Ok(timeout) => {
            let mut fut = read_with_timeout(fd, buf, len, timeout);
            fut.by_deadline = deadline.is_some();
            ErrnoOrFuture::Future { fut }
        },
        Err(errno) => ErrnoOrFuture::Error { errno },
    }
}

/// Writes several buffers by `deadline`. Fails where that passed.
pub fn writev_with_deadline(
    state: &TaskState,
    fd: i32,
    iovec: u64,
    count: usize,
    offset: Option<u64>,
    deadline: Option<Instant>,
    system_now: Instant,
) -> (r: ErrnoOrFuture<IoRequest>)
    ensures
        match r {
            ErrnoOrFuture::Error { errno } => time_left(
                deadline,
                thread_now(state@, system_now),
            ) == Err::<Option<int>, Errno>(errno),
            ErrnoOrFuture::Future { fut } => {
                &&& is_time_left(fut.timeout, deadline, thread_now(state@, system_now))
                &&& fut.entry == (Entry::Writev { fd, iovec, count: count as u32, offset: kernel_offset(offset) })
                &&& fut.fd == fd
                &&& fut.io_type == IOType::Write
                &&& !fut.polled
                &&& fut.by_deadline == (deadline is Some)
            },
        },
{
    match timeout_until(state, deadline, system_now) {
        Ok(timeout) => {
            let mut fut = writev_with_timeout(fd, iovec, count, offset, timeout);
            fut.by_deadline = deadline.is_some();
            ErrnoOrFuture::Future { fut }
        },
        Err(errno) => ErrnoOrFuture::Error { errno },
    }
}

/// Writes a buffer of `len` bytes, where the file stands.
pub fn write(fd: i32, buf: u64, len: usize) -> (r: ErrnoOrFuture<IoRequest>)
    ensures
        r == (ErrnoOrFuture::Future {
            fut: IoRequest {
                entry: Entry::Write { fd, buf, len: len as u32, offset: CURRENT_OFFSET },
                fd,
                timeout: None,
                io_type: IOType::Write,
                polled: false,
                by_deadline: false,
            },
        }),
{
    ErrnoOrFuture::Future { fut: write_with_timeout(fd, buf, len, None) }
}

/// Writes several buffers, at `offset` or where the file stands.
pub fn writev(fd: i32, iovec: u64, count: usize, offset: Option<u64>) -> (r: ErrnoOrFuture<IoRequest>)
    ensures
        r == (ErrnoOrFuture::Future {
            fut: IoRequest {
                entry: Entry::Writev {
                    fd,
                    iovec,
                    count: count as u32,
                    offset: kernel_offset(offset),
                },
                fd,
                timeout: None,
                io_type: IOType::Write,
                polled: false,
                by_deadline: false,
            },
        }),
{
    ErrnoOrFuture::Future { fut: writev_with_timeout(fd, iovec, count, offset, None) }
}

/// An operation that is to end by a deadline fails with `ETIMEDOUT` when it does not: at
/// once where the deadline passed, else when its time in the kernel expires.
pub proof fn law_missed_deadline_is_timed_out(
    request: IoRequest,
    deadline: Instant,
    now: Instant,
)
    requires
        request.by_deadline,
    ensures
        now@ > deadline@ ==> time_left(Some(deadline), now) == Err::<Option<int>, Errno>(
            Errno { code: ETIMEDOUT },
        ),
        request.reported(Err(Errno { code: ETIME })) == Err::<usize, Errno>(
            Errno { code: ETIMEDOUT },
        ),
{
}

} // verus!
