//! What a call into the kernel for a ring gave.

use vstd::prelude::*;

use crate::errno::{EAGAIN, EBUSY, EINTR};

verus! {

/// The number of entries of a submission queue.
pub const IO_URING_SUBMISSION_ENTRIES: usize = 128;

/// How many operations a call into the kernel that gave `result` submitted, `None` where it
/// failed for good.
pub open spec fn submitted_by(result: Result<usize, i32>) -> Option<usize> {
    match result {
        Ok(n) => Some(n),
        Err(code) => if code == EAGAIN || code == EBUSY || code == EINTR {
            Some(0usize)
        } else {
            None
        },
    }
}

/// How many operations a call into the kernel submitted. One that the kernel interrupted,
/// or had no room for, submitted none and is made again later; `None` where the call
/// failed for good.
pub fn submit_and_wait(result: Result<usize, i32>) -> (submitted: Option<usize>)
    ensures
        submitted == submitted_by(result),
{
    match result {
        Ok(n) => Some(n),
        Err(code) => if code == EAGAIN || code == EBUSY || code == EINTR {
            Some(0)
        } else {
            None
        },
    }
}

} // verus!
