//! TLS over a stream, through buffers.
//!
//! The TLS engine reads from and writes to a [`SyncBufferedStream`], which never waits.
//! When the engine cannot go on, what it wrote is sent, or more is read for it, and it is
//! called again. [`SslDriver`] decides which.

use std::collections::VecDeque;

use vstd::prelude::*;

use crate::async_stream::{broken_pipe, fitting, overwritten};
use crate::errno::{Errno, EPIPE};
use crate::outside::{as_slices, drain_front, extend};

verus! {

/// How much is read for the engine at once.
pub const FILL_SIZE: usize = 1024;

/// The model of a buffered stream.
#[verifier::ext_equal]
pub struct BufferView {
    /// The bytes that the engine can read.
    pub incoming: Seq<u8>,
    /// The bytes that the engine wrote.
    pub outgoing: Seq<u8>,
    /// Whether the other side sends no more.
    pub eof: bool,
}

/// A read of a buffered stream: the stream and the bytes of the caller's buffer after it,
/// and what it gives.
#[verifier::ext_equal]
pub struct BufferRead {
    pub stream: BufferView,
    pub buf: Seq<u8>,
    pub read: BufferedRead,
}

impl BufferView {
    /// Whether the first `segment` bytes can be the first segment of the bytes that the
    /// engine can read: there is one wherever there are bytes.
    pub open spec fn starts_with_segment(self, segment: nat) -> bool {
        segment <= self.incoming.len() && (self.incoming.len() > 0 ==> segment > 0)
    }

    /// With the bytes that a read from the underlying stream gave: none at its end.
    pub open spec fn filled(self, data: Seq<u8>) -> BufferView {
        if data.len() == 0 {
            BufferView { eof: true, ..self }
        } else {
            BufferView { incoming: self.incoming + data, ..self }
        }
    }

    /// With bytes that the engine wrote.
    pub open spec fn written(self, data: Seq<u8>) -> BufferView {
        BufferView { outgoing: self.outgoing + data, ..self }
    }

    /// The stream after the write of all pending bytes came to `result`, and how many were
    /// written.
    pub open spec fn flushed(self, result: Result<(), Errno>) -> (BufferView, Result<usize, Errno>) {
        match result {
            Ok(_) => (
                BufferView { outgoing: Seq::empty(), ..self },
                Ok(self.outgoing.len() as usize),
            ),
            Err(e) => (self, Err(e)),
        }
    }

    /// A read into `buf` of the first `segment` bytes, as many as fit.
    pub open spec fn read(self, segment: nat, buf: Seq<u8>) -> BufferRead {
        let n = fitting(segment, buf.len()) as int;
        if self.eof {
            BufferRead { stream: self, buf, read: BufferedRead::Read(0) }
        } else if n == 0 {
            BufferRead { stream: self, buf, read: BufferedRead::WouldBlock }
        } else {
            BufferRead {
                stream: BufferView { incoming: self.incoming.skip(n), ..self },
                buf: overwritten(buf, 0, self.incoming.take(n)),
                read: BufferedRead::Read(n as usize),
            }
        }
    }
}

/// A stream that never waits: reads come from a buffer and writes go to one.
pub struct SyncBufferedStream {
    read_buff: VecDeque<u8>,
    write_buff: Vec<u8>,
    eof: bool,
}

/// What a read of a buffered stream gives.
#[derive(Clone, Copy, Debug, PartialEq, Eq, Structural)]
pub enum BufferedRead {
    /// This many bytes; none at the end of the stream.
    Read(usize),
    /// The buffer has to be filled first.
    WouldBlock,
}

impl View for SyncBufferedStream {
    type V = BufferView;

    closed spec fn view(&self) -> BufferView {
        BufferView { incoming: self.read_buff@, outgoing: self.write_buff@, eof: self.eof }
    }
}

impl SyncBufferedStream {
    /// A stream with empty buffers.
    pub fn new() -> (s: SyncBufferedStream)
        ensures
            s@ == (BufferView { incoming: Seq::empty(), outgoing: Seq::empty(), eof: false }),
    {
        SyncBufferedStream { read_buff: VecDeque::new(), write_buff: Vec::new(), eof: false }
    }

    /// Reads the bytes of the buffer's first segment that fit into `buf`; the rest is read
    /// by the next calls. At the end of the stream there is nothing to read.
    ///
    /// Where the first segment ends depends on how the buffer lies in memory.
    pub fn read(&mut self, buf: &mut [u8]) -> (r: BufferedRead)
        requires
            old(self)@.eof || old(buf)@.len() > 0,
        ensures
            exists|segment: nat| #[trigger]
                old(self)@.starts_with_segment(segment) && (BufferRead {
                    stream: final(self)@,
                    buf: final(buf)@,
                    read: r,
                }) == old(self)@.read(segment, old(buf)@),
    {
        let (first, second) = as_slices(&self.read_buff);
        let segment: usize = if first.len() == 0 {
            second.len()
        } else {
            first.len()
        };
        assert(self@.starts_with_segment(segment as nat));
        self.read_segment(segment, buf)
    }

    /// Reads the bytes that fit into `buf` of the first `segment` in the buffer.
    pub fn read_segment(&mut self, segment: usize, buf: &mut [u8]) -> (r: BufferedRead)
        requires
            segment <= old(self)@.incoming.len(),
        ensures
            (BufferRead { stream: final(self)@, buf: final(buf)@, read: r }) == old(self)@.read(
                segment as nat,
                old(buf)@,
            ),
    {
        if self.eof {
            return BufferedRead::Read(0);
        }
        let room: usize = buf.len();
        let n: usize = if segment <= room {
            segment
        } else {
            room
        };
        if n == 0 {
            return BufferedRead::WouldBlock;
        }
        let ghost all = self.read_buff@;
        let mut i: usize = 0;
        assert(overwritten(buf@, 0, all.take(0)) =~= buf@);
        while i < n
            invariant
                i <= n,
                n <= all.len(),
                n <= old(buf)@.len(),
                all == self.read_buff@,
                *self == *old(self),
                buf@ == overwritten(old(buf)@, 0, all.take(i as int)),
            decreases n - i,
        {
            buf[i] = self.read_buff[i];
            assert(overwritten(old(buf)@, 0, all.take(i as int)).update(i as int, all[i as int])
                =~= overwritten(old(buf)@, 0, all.take(i + 1)));
            i = i + 1;
        }
        drain_front(&mut self.read_buff, n);
        BufferedRead::Read(n)
    }

    /// Writes all of `buf` to the buffer.
    pub fn write(&mut self, buf: &[u8]) -> (n: usize)
        ensures
            n == buf@.len(),
            final(self)@ == old(self)@.written(buf@),
    {
        self.write_buff.extend_from_slice(buf);
        assert(self.write_buff@ =~= old(self)@.outgoing + buf@);
        buf.len()
    }

    /// Takes in what a read of at most [`FILL_SIZE`] bytes from the underlying stream gave:
    /// nothing is the end of the stream.
    pub fn fill_read_buff(&mut self, data: &Vec<u8>)
        ensures
            final(self)@ == old(self)@.filled(data@),
    {
        if data.len() == 0 {
            self.eof = true;
            return ;
        }
        extend(&mut self.read_buff, data.as_slice());
    }

    /// The bytes to write to the underlying stream, all of them, if there are any.
    pub fn pending_writes(&self) -> (r: Option<&Vec<u8>>)
        ensures
            match r {
                Some(bytes) => bytes@ == self@.outgoing && bytes@.len() > 0,
                None => self@.outgoing.len() == 0,
            },
    {
        if self.write_buff.len() == 0 {
            None
        } else {
            Some(&self.write_buff)
        }
    }

    /// Takes in what the write of all pending bytes came to. Where it failed they stay.
    pub fn flush_write_buff(&mut self, result: Result<(), Errno>) -> (r: Result<usize, Errno>)
        ensures
            (final(self)@, r) == old(self)@.flushed(result),
    {
        match result {
            Ok(_) => {
                let n: usize = self.write_buff.len();
                self.write_buff.clear();
                Ok(n)
            },
            Err(e) => Err(e),
        }
    }
}

/// Bytes go through the buffers in order: what is read and what then remains to be read is
/// what was there, and a read that has room gives at least one byte wherever there are any.
pub proof fn law_buffered_reads_keep_order(v: BufferView, segment: nat, buf: Seq<u8>)
    requires
        v.starts_with_segment(segment),
        buf.len() <= usize::MAX,
        !v.eof,
    ensures
        ({
            let r = v.read(segment, buf);
            match r.read {
                BufferedRead::Read(n) => {
                    &&& 0 < n <= buf.len()
                    &&& r.buf.take(n as int) + r.stream.incoming == v.incoming
                    &&& r.buf.skip(n as int) == buf.skip(n as int)
                },
                BufferedRead::WouldBlock => r.stream == v && (v.incoming.len() == 0 || buf.len()
                    == 0),
            }
        }),
{
    let r = v.read(segment, buf);
    if let BufferedRead::Read(n) = r.read {
        assert(r.buf.take(n as int) + r.stream.incoming =~= v.incoming);
        assert(r.buf.skip(n as int) =~= buf.skip(n as int));
    }
}

/// What the engine is called for.
#[derive(Clone, Copy, Debug, PartialEq, Eq, Structural)]
pub enum SslOp {
    /// A handshake, of a client or of a server.
    Handshake,
    Shutdown,
    Read,
    Write,
}

/// What a call of the engine came to.
pub enum SslOutcome<E> {
    /// It succeeded, with this value.
    Done(usize),
    /// It needs bytes to be sent or read first.
    WouldBlock,
    /// It failed.
    Failed(E),
}

/// What happened since the last step.
pub enum SslEvent<E> {
    Begin,
    /// The engine was called.
    Called(SslOutcome<E>),
    /// The pending bytes were sent: how many.
    Flushed(Result<usize, Errno>),
    /// More bytes were read.
    Filled(Result<(), Errno>),
}

/// Why an operation failed.
pub enum SslError<E> {
    /// The underlying stream failed.
    Stream(Errno),
    /// The engine failed.
    Engine(E),
}

/// What to do next.
pub enum SslAction<E> {
    /// Call the engine.
    Call,
    /// Send the pending bytes.
    Flush,
    /// Read more bytes.
    Fill,
    /// The operation is over.
    Done(Result<usize, SslError<E>>),
}

/// What comes after the bytes were sent.
#[derive(Clone, Copy, Debug, PartialEq, Eq, Structural)]
pub enum AfterFlush {
    /// The first call of the engine.
    Call,
    /// Another call, after more bytes were read if there was nothing to send.
    FillOrCall,
    /// The end, with this value.
    Done(usize),
}

/// An operation on a TLS stream, between its steps.
#[derive(Clone, Copy, Debug, PartialEq, Eq, Structural)]
pub struct SslDriver {
    pub op: SslOp,
    pub after_flush: AfterFlush,
}

impl SslDriver {
    /// An operation that did not begin.
    pub fn new(op: SslOp) -> (d: SslDriver)
        ensures
            d.op == op,
            d.after_flush == AfterFlush::Call,
    {
        SslDriver { op, after_flush: AfterFlush::Call }
    }

    /// The step of an operation after `event`.
    ///
    /// A shutdown sends what is pending before it begins. When the engine succeeded, what it
    /// wrote is sent, but for a read and a shutdown. When it would block, a read reads more;
    /// the others send what is pending, and, but for a write, read more only where nothing
    /// was.
    pub open spec fn next<E>(self, event: SslEvent<E>) -> (SslDriver, SslAction<E>) {
        match event {
            SslEvent::Begin => if self.op == SslOp::Shutdown {
                (SslDriver { after_flush: AfterFlush::Call, ..self }, SslAction::Flush)
            } else {
                (self, SslAction::Call)
            },
            SslEvent::Called(SslOutcome::Done(n)) => match self.op {
                SslOp::Read | SslOp::Shutdown => (self, SslAction::Done(Ok(n))),
                _ => (SslDriver { after_flush: AfterFlush::Done(n), ..self }, SslAction::Flush),
            },
            SslEvent::Called(SslOutcome::WouldBlock) => match self.op {
                SslOp::Read => (self, SslAction::Fill),
                SslOp::Write => (
                    SslDriver { after_flush: AfterFlush::Call, ..self },
                    SslAction::Flush,
                ),
                _ => (
                    SslDriver { after_flush: AfterFlush::FillOrCall, ..self },
                    SslAction::Flush,
                ),
            },
            SslEvent::Called(SslOutcome::Failed(e)) => (
                self,
                SslAction::Done(Err(SslError::Engine(e))),
            ),
            SslEvent::Flushed(Err(e)) => (self, SslAction::Done(Err(SslError::Stream(e)))),
            SslEvent::Flushed(Ok(sent)) => match self.after_flush {
                AfterFlush::Call => (self, SslAction::Call),
                AfterFlush::FillOrCall => if sent == 0 {
                    (self, SslAction::Fill)
                } else {
                    (self, SslAction::Call)
                },
                AfterFlush::Done(n) => (self, SslAction::Done(Ok(n))),
            },
            SslEvent::Filled(Ok(_)) => (self, SslAction::Call),
            SslEvent::Filled(Err(e)) => (self, SslAction::Done(Err(SslError::Stream(e)))),
        }
    }

    /// Takes in what happened and decides what to do next.
    pub fn step<E>(&mut self, event: SslEvent<E>) -> (action: SslAction<E>)
        ensures
            (*final(self), action) == old(self).next(event),
    {
        match event {
            SslEvent::Begin => {
                if matches!(self.op, SslOp::Shutdown) {
                    self.after_flush = AfterFlush::Call;
                    SslAction::Flush
                } else {
                    SslAction::Call
                }
            },
            SslEvent::Called(outcome) => match outcome {
                SslOutcome::Done(n) => match self.op {
                    SslOp::Read | SslOp::Shutdown => SslAction::Done(Ok(n)),
                    _ => {
                        self.after_flush = AfterFlush::Done(n);
                        SslAction::Flush
                    },
                },
                SslOutcome::WouldBlock => match self.op {
                    SslOp::Read => SslAction::Fill,
                    SslOp::Write => {
                        self.after_flush = AfterFlush::Call;
                        SslAction::Flush
                    },
                    _ => {
                        self.after_flush = AfterFlush::FillOrCall;
                        SslAction::Flush
                    },
                },
                SslOutcome::Failed(e) => SslAction::Done(Err(SslError::Engine(e))),
            },
            SslEvent::Flushed(result) => match result {
                Err(e) => SslAction::Done(Err(SslError::Stream(e))),
                Ok(sent) => match self.after_flush {
                    AfterFlush::Call => SslAction::Call,
                    AfterFlush::FillOrCall => if sent == 0 {
                        SslAction::Fill
                    } else {
                        SslAction::Call
                    },
                    AfterFlush::Done(n) => SslAction::Done(Ok(n)),
                },
            },
            SslEvent::Filled(result) => match result {
                Ok(_) => SslAction::Call,
                Err(e) => SslAction::Done(Err(SslError::Stream(e))),
            },
        }
    }
}

/// A handshake never waits for the other side while it holds bytes that the other side
/// waits for: it reads only after it had nothing to send.
pub proof fn law_no_read_before_flush<E>(d: SslDriver, sent: Result<usize, Errno>)
    requires
        d.op == SslOp::Handshake || d.op == SslOp::Shutdown,
    ensures
        ({
            let blocked = d.next(SslEvent::<E>::Called(SslOutcome::WouldBlock));
            let next = blocked.0.next(SslEvent::<E>::Flushed(sent)).1;
            &&& blocked.1 is Flush
            &&& next is Fill ==> sent == Ok::<usize, Errno>(0)
        }),
{
}

/// A write that succeeded has sent what the engine wrote.
pub proof fn law_written_is_sent<E>(d: SslDriver, n: usize, sent: usize)
    requires
        d.op == SslOp::Write || d.op == SslOp::Handshake,
    ensures
        ({
            let called = d.next(SslEvent::<E>::Called(SslOutcome::Done(n)));
            &&& called.1 is Flush
            &&& called.0.next(SslEvent::<E>::Flushed(Ok(sent))).1 == SslAction::<E>::Done(Ok(n))
        }),
{
}

/// How a transfer of a whole buffer goes on.
#[derive(Clone, Copy, Debug, PartialEq, Eq)]
pub enum ExactStep {
    /// Transfer the rest.
    More,
    /// The transfer is over.
    Done(Result<(), Errno>),
}

/// How a transfer of a whole buffer goes on: `moved` is what the last part came to, `None`
/// before the first, and `left` how many bytes are left after it. One that moves nothing is
/// an error before the end of the buffer.
pub open spec fn exact_step(left: int, moved: Option<Result<usize, Errno>>) -> ExactStep {
    match moved {
        Some(Err(e)) => ExactStep::Done(Err(e)),
        Some(Ok(0)) => ExactStep::Done(Err(broken_pipe())),
        _ => if left == 0 {
            ExactStep::Done(Ok(()))
        } else {
            ExactStep::More
        },
    }
}

/// The bytes that a part of a transfer moved.
pub open spec fn moved_bytes(moved: Option<Result<usize, Errno>>) -> int {
    match moved {
        Some(Ok(n)) => n as int,
        _ => 0,
    }
}

fn transfer(len: usize, total: &mut usize, moved: Option<Result<usize, Errno>>) -> (step: ExactStep)
    requires
        *old(total) + moved_bytes(moved) <= len,
    ensures
        *final(total) == *old(total) + moved_bytes(moved),
        step == exact_step(len - *final(total), moved),
{
    match moved {
        Some(Err(e)) => return ExactStep::Done(Err(e)),
        Some(Ok(n)) => {
            if n == 0 {
                return ExactStep::Done(Err(Errno { code: EPIPE }));
            }
            *total = *total + n;
        },
        None => {},
    }
    if *total == len {
        ExactStep::Done(Ok(()))
    } else {
        ExactStep::More
    }
}

/// Takes in what a read into a buffer of `len` bytes gave, of which `total` are filled. The
/// end of the stream is an error before the buffer is full.
pub fn read_exact(len: usize, total: &mut usize, read: Option<Result<usize, Errno>>) -> (step:
    ExactStep)
    requires
        *old(total) + moved_bytes(read) <= len,
    ensures
        *final(total) == *old(total) + moved_bytes(read),
        step == exact_step(len - *final(total), read),
{
    transfer(len, total, read)
}

/// Takes in what a write from a buffer of `len` bytes took, of which `total` are written. The
/// engine may take a part of the buffer at a time.
pub fn write_all(len: usize, total: &mut usize, written: Option<Result<usize, Errno>>) -> (step:
    ExactStep)
    requires
        *old(total) + moved_bytes(written) <= len,
    ensures
        *final(total) == *old(total) + moved_bytes(written),
        step == exact_step(len - *final(total), written),
{
    transfer(len, total, written)
}

/// A transfer that succeeds has moved the whole buffer.
pub proof fn law_transfer_is_whole(left: int, moved: Option<Result<usize, Errno>>)
    ensures
        exact_step(left, moved) == ExactStep::Done(Ok::<(), Errno>(())) ==> left == 0,
{
}

} // verus!
