//! A connection on which everything is sent back.

use vstd::prelude::*;

use crate::errno::Errno;

verus! {

/// The port of the server, unless another is given.
pub const DEFAULT_PORT: u16 = 7878;

/// How much is read at once.
pub const ECHO_BUFFER_SIZE: usize = 8192;

/// What happened on the connection.
#[derive(Clone, Copy, Debug, PartialEq, Eq)]
pub enum EchoEvent {
    Connected,
    /// The read of at most [`ECHO_BUFFER_SIZE`] bytes came to this.
    Read(Result<usize, Errno>),
    /// All bytes were written, or not.
    Written(Result<(), Errno>),
    /// The connection was shut down, or not.
    ShutDown(Result<(), Errno>),
    /// The connection was closed, or not.
    Closed(Result<(), Errno>),
}

/// What to do next.
#[derive(Clone, Copy, Debug, PartialEq, Eq)]
pub enum EchoAction {
    Read,
    /// Write back the bytes that were read: how many.
    Write(usize),
    ShutDown,
    Close,
    Done,
}

/// What comes after `event`: what was read is written back, until the other side sends no
/// more or an operation fails. The connection is shut down and closed in any case.
pub open spec fn after(event: EchoEvent) -> EchoAction {
    match event {
        EchoEvent::Connected | EchoEvent::Written(Ok(_)) => EchoAction::Read,
        EchoEvent::Read(Ok(n)) => if n > 0 {
            EchoAction::Write(n)
        } else {
            EchoAction::ShutDown
        },
        EchoEvent::Read(Err(_)) | EchoEvent::Written(Err(_)) => EchoAction::ShutDown,
        EchoEvent::ShutDown(_) => EchoAction::Close,
        EchoEvent::Closed(_) => EchoAction::Done,
    }
}

/// The next step on a connection. What was read is written back, until the other side
/// sends no more or an operation fails. The connection is shut down and closed in any case.
pub fn echo_step(event: EchoEvent) -> (action: EchoAction)
    ensures
        action == after(event),
{
    match event {
        EchoEvent::Connected => EchoAction::Read,
        EchoEvent::Read(result) => match result {
            Ok(n) => if n == 0 {
                EchoAction::ShutDown
            } else {
                EchoAction::Write(n)
            },
            Err(_) => EchoAction::ShutDown,
        },
        EchoEvent::Written(result) => match result {
            Ok(_) => EchoAction::Read,
            Err(_) => EchoAction::ShutDown,
        },
        EchoEvent::ShutDown(_) => EchoAction::Close,
        EchoEvent::Closed(_) => EchoAction::Done,
    }
}

} // verus!
