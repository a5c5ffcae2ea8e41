//! Error numbers of the operating system.

use vstd::prelude::*;

verus! {

/// An operating-system error, by its number.
#[derive(Clone, Copy, Debug, PartialEq, Eq, Hash, Structural)]
pub struct Errno {
    pub code: i32,
}

pub const EPERM: i32 = 1;
pub const ENOENT: i32 = 2;
pub const EINTR: i32 = 4;
pub const EIO: i32 = 5;
pub const EBADF: i32 = 9;
pub const EAGAIN: i32 = 11;
pub const EBUSY: i32 = 16;
pub const EEXIST: i32 = 17;
pub const ENOTDIR: i32 = 20;
pub const EINVAL: i32 = 22;
pub const EPIPE: i32 = 32;
pub const ENOSYS: i32 = 38;
pub const ETIME: i32 = 62;
pub const EPROTO: i32 = 71;
pub const EBADFD: i32 = 77;
pub const ENOTSUP: i32 = 95;
pub const ENOTCONN: i32 = 107;
pub const ESHUTDOWN: i32 = 108;
pub const ETIMEDOUT: i32 = 110;
pub const EALREADY: i32 = 114;
pub const EINPROGRESS: i32 = 115;
pub const ECANCELED: i32 = 125;
pub const ENOTRECOVERABLE: i32 = 131;

impl Errno {
    /// The error with this number.
    pub fn from_raw_os_error(code: i32) -> (e: Errno)
        ensures
            e == (Errno { code }),
    {
        Errno { code }
    }

    /// The number of this error.
    pub fn raw_os_error(self) -> (code: i32)
        ensures
            code == self.code,
    {
        self.code
    }
}

/// A wait was canceled.
#[derive(Clone, Copy, Debug, PartialEq, Eq, Structural)]
pub struct CanceledError {}

/// Why a wait with a deadline ended without its condition.
#[derive(Clone, Copy, Debug, PartialEq, Eq, Structural)]
pub enum TimeoutError {
    /// The deadline passed.
    Timeout,
    /// The wait was canceled.
    Canceled,
}

} // verus!
