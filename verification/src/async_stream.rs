//! Streams of bytes.
//!
//! Reads go through a buffer, writes do not. A read or a write that needs the kernel is
//! a sequence of steps: each step says what to read or write next, and the next one takes
//! in what came of it.

use vstd::prelude::*;

use crate::errno::{Errno, EINVAL, EPIPE};

verus! {

/// The shutdown of the write side of a socket.
pub const SHUT_WR: i32 = 1;

/// How much is read from the kernel at once.
pub const READ_BUFFER_SIZE: usize = 16384;

/// What happened since the last step of a read.
pub enum ReadEvent {
    /// The read begins.
    Begin,
    /// A read from the kernel gave these bytes, none at the end of the stream.
    Filled(Result<Vec<u8>, Errno>),
}

/// How a read goes on.
pub enum ReadStep<T> {
    /// Read up to [`READ_BUFFER_SIZE`] bytes from the kernel.
    Fill,
    /// The read is over.
    Done(Result<T, Errno>),
}

/// What happened since the last step of a write.
#[derive(Clone, Copy, Debug)]
pub enum WriteEvent {
    /// The write begins.
    Begin,
    /// A write to the kernel took this many bytes.
    Wrote(Result<usize, Errno>),
}

/// How a write goes on.
pub enum WriteStep {
    /// Write the bytes from where the write stands on.
    Write,
    /// The write is over.
    Done(Result<(), Errno>),
}

/// The model of a stream that can be read.
#[verifier::ext_equal]
pub struct ReadView {
    /// Whether the stream has a descriptor.
    pub open: bool,
    /// The bytes that were read from the kernel and not yet delivered.
    pub pending: Seq<u8>,
}

/// A step of a read: the stream after it, the bytes that it delivered, and how the read
/// goes on.
#[verifier::ext_equal]
pub struct Delivered<T> {
    pub stream: ReadView,
    pub bytes: Seq<u8>,
    pub step: ReadStep<T>,
}

/// The closed-stream error.
pub open spec fn broken_pipe() -> Errno {
    Errno { code: EPIPE }
}

/// How many of `available` bytes fit into `room`.
pub open spec fn fitting(available: nat, room: nat) -> nat {
    if available <= room {
        available
    } else {
        room
    }
}

impl ReadView {
    /// With `pending` bytes, of which those at the front that fit into `room` are
    /// delivered.
    pub open spec fn deliver<T>(self, pending: Seq<u8>, room: nat, step: ReadStep<T>) -> Delivered<
        T,
    > {
        let n = fitting(pending.len(), room) as int;
        Delivered {
            stream: ReadView { pending: pending.skip(n), ..self },
            bytes: pending.take(n),
            step,
        }
    }

    /// With nothing delivered.
    pub open spec fn stay<T>(self, step: ReadStep<T>) -> Delivered<T> {
        Delivered { stream: self, bytes: Seq::empty(), step }
    }

    /// A step of a read of at most `room` bytes.
    pub open spec fn try_read(self, room: nat, event: ReadEvent) -> Delivered<usize> {
        match event {
            ReadEvent::Begin => if !self.open {
                self.stay(ReadStep::Done(Err(broken_pipe())))
            } else if self.pending.len() == 0 {
                self.stay(ReadStep::Fill)
            } else {
                self.deliver(
                    self.pending,
                    room,
                    ReadStep::Done(Ok(fitting(self.pending.len(), room) as usize)),
                )
            },
            ReadEvent::Filled(Err(e)) => self.stay(ReadStep::Done(Err(e))),
            ReadEvent::Filled(Ok(data)) => if data@.len() == 0 {
                self.stay(ReadStep::Done(Ok(0usize)))
            } else {
                self.deliver(
                    data@,
                    room,
                    ReadStep::Done(Ok(fitting(data@.len(), room) as usize)),
                )
            },
        }
    }

    /// A step of a read that is to deliver `room` more bytes, no fewer.
    pub open spec fn read(self, room: nat, event: ReadEvent) -> Delivered<()> {
        match event {
            ReadEvent::Begin => if room == 0 {
                self.stay(ReadStep::Done(Ok(())))
            } else if !self.open {
                self.stay(ReadStep::Done(Err(broken_pipe())))
            } else if self.pending.len() >= room {
                self.deliver(self.pending, room, ReadStep::Done(Ok(())))
            } else {
                self.deliver(self.pending, room, ReadStep::Fill)
            },
            ReadEvent::Filled(Err(e)) => self.stay(ReadStep::Done(Err(e))),
            ReadEvent::Filled(Ok(data)) => if data@.len() == 0 {
                self.stay(ReadStep::Done(Err(broken_pipe())))
            } else if data@.len() >= room {
                self.deliver(data@, room, ReadStep::Done(Ok(())))
            } else {
                self.deliver(data@, room, ReadStep::Fill)
            },
        }
    }
}

/// A buffer with `bytes` written into it at `from`.
pub open spec fn overwritten(buffer: Seq<u8>, from: int, bytes: Seq<u8>) -> Seq<u8> {
    buffer.take(from) + bytes + buffer.skip(from + bytes.len())
}

/// The bytes that were read from the kernel and not yet delivered.
struct OwnedFdReadState {
    read_used: usize,
    read_buffer: Vec<u8>,
}

impl OwnedFdReadState {
    spec fn pending(self) -> Seq<u8> {
        self.read_buffer@.skip(self.read_used as int)
    }

    #[verifier::type_invariant]
    spec fn in_range(self) -> bool {
        self.read_used <= self.read_buffer@.len()
    }

    fn new() -> (s: OwnedFdReadState)
        ensures
            s.pending() == Seq::<u8>::empty(),
    {
        let s = OwnedFdReadState { read_used: 0, read_buffer: Vec::new() };
        assert(s.pending() =~= Seq::<u8>::empty());
        s
    }

    fn available(&self) -> (n: usize)
        ensures
            n == self.pending().len(),
    {
        proof {
            use_type_invariant(self);
        }
        self.read_buffer.len() - self.read_used
    }
}

/// Copies as many of the pending bytes as fit to `buffer`, from `from` on.
fn deliver(state: OwnedFdReadState, buffer: &mut [u8], from: usize) -> (r: (OwnedFdReadState, usize))
    requires
        from <= old(buffer)@.len(),
    ensures
        ({
            let n = fitting(state.pending().len(), (old(buffer)@.len() - from) as nat) as int;
            &&& r.1 == n
            &&& r.0.pending() == state.pending().skip(n)
            &&& final(buffer)@ == overwritten(old(buffer)@, from as int, state.pending().take(n))
        }),
{
    proof {
        use_type_invariant(&state);
    }
    let available: usize = state.available();
    let end: usize = buffer.len();
    let read_end: usize = state.read_buffer.len();
    let room: usize = end - from;
    let n: usize = if available <= room {
        available
    } else {
        room
    };
    let ghost all = state.pending();
    let mut i: usize = 0;
    assert(overwritten(buffer@, from as int, all.take(0)) =~= buffer@);
    while i < n
        invariant
            i <= n,
            n <= available,
            available == all.len(),
            all == state.read_buffer@.skip(state.read_used as int),
            state.read_used + available == state.read_buffer@.len(),
            state.read_used + available == read_end,
            from + n <= end,
            end == old(buffer)@.len(),
            buffer@ == overwritten(old(buffer)@, from as int, all.take(i as int)),
        decreases n - i,
    {
        assert(all[i as int] == state.read_buffer@[state.read_used + i]);
        buffer[from + i] = state.read_buffer[state.read_used + i];
        assert(overwritten(old(buffer)@, from as int, all.take(i as int)).update(
            from + i,
            all[i as int],
        ) =~= overwritten(old(buffer)@, from as int, all.take(i + 1)));
        i = i + 1;
    }
    let used: usize = state.read_used + n;
    let next = OwnedFdReadState { read_used: used, read_buffer: state.read_buffer };
    assert(next.pending() =~= all.skip(n as int));
    (next, n)
}

/// A stream that can be read.
pub trait AsyncStreamRead: Sized {
    /// The stream's model.
    spec fn read_view(&self) -> ReadView;

    /// A step of a read into `buffer`, which may deliver fewer bytes than fit, and none at
    /// the end of the stream.
    fn try_read(&mut self, buffer: &mut [u8], event: ReadEvent) -> (step: ReadStep<usize>)
        requires
            old(self).read_view().open || event is Begin,
            event is Filled ==> old(self).read_view().pending.len() == 0,
        ensures
            ({
                let r = old(self).read_view().try_read(old(buffer)@.len(), event);
                &&& final(self).read_view() == r.stream
                &&& step == r.step
                &&& final(buffer)@ == overwritten(old(buffer)@, 0, r.bytes)
            }),
    ;

    /// A step of a read that fills `buffer` from `done` on; the end of the stream is an
    /// error. `done` counts the bytes that were delivered.
    fn read(&mut self, buffer: &mut [u8], done: &mut usize, event: ReadEvent) -> (step: ReadStep<()>)
        requires
            *old(done) <= old(buffer)@.len(),
            old(self).read_view().open || event is Begin,
            event is Filled ==> old(self).read_view().pending.len() == 0,
        ensures
            ({
                let room = (old(buffer)@.len() - *old(done)) as nat;
                let r = old(self).read_view().read(room, event);
                &&& final(self).read_view() == r.stream
                &&& step == r.step
                &&& *final(done) == *old(done) + r.bytes.len()
                &&& final(buffer)@ == overwritten(old(buffer)@, *old(done) as int, r.bytes)
            }),
    ;
}

/// A step of [`AsyncStreamRead::try_read`] on a stream that is `open`.
fn try_read_impl(open: bool, state: OwnedFdReadState, buffer: &mut [u8], event: ReadEvent) -> (r: (
    OwnedFdReadState,
    ReadStep<usize>,
))
    requires
        event is Filled ==> state.pending().len() == 0,
    ensures
        ({
            let v = (ReadView { open, pending: state.pending() });
            let d = v.try_read(old(buffer)@.len(), event);
            &&& (ReadView { open, pending: r.0.pending() }) == d.stream
            &&& r.1 == d.step
            &&& final(buffer)@ == overwritten(old(buffer)@, 0, d.bytes)
        }),
{
    assert(overwritten(buffer@, 0, Seq::<u8>::empty()) =~= buffer@);
    match event {
        ReadEvent::Begin => {
            if !open {
                return (state, ReadStep::Done(Err(Errno { code: EPIPE })));
            }
            if state.available() == 0 {
                return (state, ReadStep::Fill);
            }
            let (next, n) = deliver(state, buffer, 0);
            (next, ReadStep::Done(Ok(n)))
        },
        ReadEvent::Filled(result) => match result {
            Err(e) => (state, ReadStep::Done(Err(e))),
            Ok(data) => {
                if data.len() == 0 {
                    return (state, ReadStep::Done(Ok(0)));
                }
                let filled = OwnedFdReadState { read_used: 0, read_buffer: data };
                assert(filled.pending() =~= data@);
                let (next, n) = deliver(filled, buffer, 0);
                (next, ReadStep::Done(Ok(n)))
            },
        },
    }
}

/// A step of [`AsyncStreamRead::read`] on a stream that is `open`.
fn read_impl(
    open: bool,
    state: OwnedFdReadState,
    buffer: &mut [u8],
    done: &mut usize,
    event: ReadEvent,
) -> (r: (OwnedFdReadState, ReadStep<()>))
    requires
        *old(done) <= old(buffer)@.len(),
        event is Filled ==> state.pending().len() == 0,
    ensures
        ({
            let v = (ReadView { open, pending: state.pending() });
            let d = v.read((old(buffer)@.len() - *old(done)) as nat, event);
            &&& (ReadView { open, pending: r.0.pending() }) == d.stream
            &&& r.1 == d.step
            &&& *final(done) == *old(done) + d.bytes.len()
            &&& final(buffer)@ == overwritten(old(buffer)@, *old(done) as int, d.bytes)
        }),
{
    assert(overwritten(buffer@, *done as int, Seq::<u8>::empty()) =~= buffer@);
    let source = match event {
        ReadEvent::Begin => {
            if *done == buffer.len() {
                return (state, ReadStep::Done(Ok(())));
            }
            if !open {
                return (state, ReadStep::Done(Err(Errno { code: EPIPE })));
            }
            state
        },
        ReadEvent::Filled(result) => match result {
            Err(e) => {
                return (state, ReadStep::Done(Err(e)));
            },
            Ok(data) => {
                if data.len() == 0 {
                    return (state, ReadStep::Done(Err(Errno { code: EPIPE })));
                }
                let filled = OwnedFdReadState { read_used: 0, read_buffer: data };
                assert(filled.pending() =~= data@);
                filled
            },
        },
    };
    let end: usize = buffer.len();
    let (next, n) = deliver(source, buffer, *done);
    assert(*done + n <= end);
    *done = *done + n;
    if *done == buffer.len() {
        (next, ReadStep::Done(Ok(())))
    } else {
        (next, ReadStep::Fill)
    }
}

/// Where a write of several buffers stands: at `offset` in buffer `index`.
#[derive(Clone, Copy, Debug, PartialEq, Eq, Structural)]
pub struct WritePosition {
    pub index: usize,
    pub offset: usize,
}

/// The total length of the first `n` buffers.
pub open spec fn total_length(lens: Seq<usize>, n: int) -> int
    decreases n,
{
    if n <= 0 {
        0
    } else {
        total_length(lens, n - 1) + lens[n - 1]
    }
}

proof fn lemma_total_length_grows(lens: Seq<usize>, i: int, j: int)
    requires
        0 <= i <= j,
    ensures
        total_length(lens, i) <= total_length(lens, j),
    decreases j - i,
{
    if i < j {
        lemma_total_length_grows(lens, i, j - 1);
    }
}

impl WritePosition {
    /// How many bytes lie before the position.
    pub open spec fn written(self, lens: Seq<usize>) -> int {
        total_length(lens, self.index as int) + self.offset
    }

    /// Whether the position lies in one of the buffers or behind the last.
    pub open spec fn within(self, lens: Seq<usize>) -> bool {
        &&& self.index <= lens.len()
        &&& self.index < lens.len() ==> self.offset <= lens[self.index as int]
        &&& self.index == lens.len() ==> self.offset == 0
    }

    /// Whether the position lies before a byte, or behind the last buffer.
    pub open spec fn at_byte(self, lens: Seq<usize>) -> bool {
        self.index == lens.len() || self.offset < lens[self.index as int]
    }

    /// Whether any byte lies behind the position.
    pub fn any_left(&self, lens: &Vec<usize>) -> (b: bool)
        requires
            self.within(lens@),
        ensures
            b == (self.written(lens@) < total_length(lens@, lens@.len() as int)),
            self.written(lens@) <= total_length(lens@, lens@.len() as int),
    {
        if self.index >= lens.len() {
            return false;
        }
        let mut i: usize = self.index + 1;
        let more = self.offset < lens[self.index];
        proof {
            lemma_total_length_grows(lens@, i as int, lens@.len() as int);
        }
        if more {
            return true;
        }
        while i < lens.len()
            invariant
                self.index < i <= lens@.len(),
                self.written(lens@) == total_length(lens@, i as int),
            decreases lens@.len() - i,
        {
            if lens[i] > 0 {
                proof {
                    lemma_total_length_grows(lens@, i + 1, lens@.len() as int);
                }
                return true;
            }
            i = i + 1;
        }
        false
    }

    /// Moves on by `n` bytes, past buffers that are used up.
    pub fn advance(&mut self, lens: &Vec<usize>, n: usize)
        requires
            old(self).within(lens@),
            old(self).written(lens@) + n <= total_length(lens@, lens@.len() as int),
        ensures
            final(self).within(lens@),
            final(self).at_byte(lens@),
            final(self).written(lens@) == old(self).written(lens@) + n,
    {
        let mut left: usize = n;
        while self.index < lens.len() && left >= lens[self.index] - self.offset
            invariant
                self.within(lens@),
                left <= n,
                self.written(lens@) + left == old(self).written(lens@) + n,
            decreases lens@.len() - self.index,
        {
            left = left - (lens[self.index] - self.offset);
            self.index = self.index + 1;
            self.offset = 0;
        }
        if self.index < lens.len() {
            self.offset = self.offset + left;
        }
    }
}

/// A stream that can be written to.
pub trait AsyncStreamWrite: Sized {
    /// Whether the stream has a descriptor.
    spec fn is_open(&self) -> bool;

    /// The stream's descriptor.
    spec fn descriptor(&self) -> Option<rustix::fd::OwnedFd>;

    /// Whether the stream writes several buffers at once.
    spec fn vectored(&self) -> bool;

    /// A step of a write of `len` bytes, of which `done` were written.
    fn write(&mut self, len: usize, done: &mut usize, event: WriteEvent) -> (step: WriteStep)
        requires
            *old(done) <= len,
            event matches WriteEvent::Wrote(Ok(n)) ==> *old(done) + n <= len,
        ensures
            *final(self) == *old(self),
            *final(done) == *old(done) + wrote(event),
            step == write_step(old(self).is_open(), len - *final(done), event),
    ;

    /// A step of a write of buffers of these lengths, which stands at `at`. Where a stream
    /// has no way to write several buffers at once, they are written one by one.
    fn writev(&mut self, lens: &Vec<usize>, at: &mut WritePosition, event: WriteEvent) -> (step:
        WriteStep)
        requires
            old(at).within(lens@),
            event matches WriteEvent::Wrote(Ok(n)) ==> {
                &&& old(at).index < lens@.len()
                &&& old(self).vectored() ==> old(at).written(lens@) + n <= total_length(
                    lens@,
                    lens@.len() as int,
                )
                &&& !old(self).vectored() ==> old(at).offset + n <= lens@[old(at).index as int]
            },
        ensures
            *final(self) == *old(self),
            final(at).within(lens@),
            final(at).written(lens@) == old(at).written(lens@) + wrote(event),
            old(self).vectored() ==> {
                &&& wrote(event) > 0 ==> final(at).at_byte(lens@)
                &&& wrote(event) == 0 ==> *final(at) == *old(at)
                &&& step == write_step(
                    old(self).is_open(),
                    total_length(lens@, lens@.len() as int) - final(at).written(lens@),
                    event,
                )
            },
            !old(self).vectored() ==> step == each_step(
                old(self).is_open(),
                lens@,
                *old(at),
                event,
            ),
    ;

    /// How the socket is to be shut down: on the write side.
    fn shutdown(&mut self) -> (r: Result<i32, Errno>)
        ensures
            *final(self) == *old(self),
            r == (if old(self).is_open() {
                Ok(SHUT_WR)
            } else {
                Err(broken_pipe())
            }),
    ;

    /// Takes the descriptor, to be closed.
    fn close(&mut self) -> (r: Result<rustix::fd::OwnedFd, Errno>)
        ensures
            !final(self).is_open(),
            r == (match old(self).descriptor() {
                Some(fd) => Ok(fd),
                None => Err(broken_pipe()),
            }),
    ;
}

/// How many bytes an event says were written.
pub open spec fn wrote(event: WriteEvent) -> int {
    match event {
        WriteEvent::Wrote(Ok(n)) => n as int,
        _ => 0,
    }
}

/// How a write goes on when `left` is left to be written: nothing can be written to a
/// closed stream, and a write that takes nothing is an error.
pub open spec fn write_step(open: bool, left: int, event: WriteEvent) -> WriteStep {
    match event {
        WriteEvent::Begin => if !open {
            WriteStep::Done(Err(broken_pipe()))
        } else if left == 0 {
            WriteStep::Done(Ok(()))
        } else {
            WriteStep::Write
        },
        WriteEvent::Wrote(Err(e)) => WriteStep::Done(Err(e)),
        WriteEvent::Wrote(Ok(n)) => if n == 0 {
            WriteStep::Done(Err(broken_pipe()))
        } else if left == 0 {
            WriteStep::Done(Ok(()))
        } else {
            WriteStep::Write
        },
    }
}

/// How a write of buffers one by one goes on at the begin of buffer `index`: empty ones
/// are done at once, on an open stream.
pub open spec fn next_each(open: bool, lens: Seq<usize>, index: int) -> WriteStep
    decreases lens.len() - index,
{
    if index >= lens.len() {
        WriteStep::Done(Ok(()))
    } else if !open {
        WriteStep::Done(Err(broken_pipe()))
    } else if lens[index] == 0 {
        next_each(open, lens, index + 1)
    } else {
        WriteStep::Write
    }
}

/// How a write of buffers one by one goes on.
pub open spec fn each_step(
    open: bool,
    lens: Seq<usize>,
    at: WritePosition,
    event: WriteEvent,
) -> WriteStep {
    if at.index >= lens.len() {
        WriteStep::Done(Ok(()))
    } else {
        let step = write_step(open, lens[at.index as int] - at.offset - wrote(event), event);
        if step == WriteStep::Done(Ok(())) {
            next_each(open, lens, at.index + 1)
        } else {
            step
        }
    }
}

/// A step of a write of buffers one by one, for streams that cannot write several at
/// once.
pub fn writev_each<S: AsyncStreamWrite>(
    stream: &mut S,
    lens: &Vec<usize>,
    at: &mut WritePosition,
    event: WriteEvent,
) -> (step: WriteStep)
    requires
        old(at).within(lens@),
        event matches WriteEvent::Wrote(Ok(n)) ==> {
            &&& old(at).index < lens@.len()
            &&& old(at).offset + n <= lens@[old(at).index as int]
        },
    ensures
        *final(stream) == *old(stream),
        final(at).within(lens@),
        final(at).written(lens@) == old(at).written(lens@) + wrote(event),
        step == each_step(old(stream).is_open(), lens@, *old(at), event),
{
    if at.index >= lens.len() {
        return WriteStep::Done(Ok(()));
    }
    let len: usize = lens[at.index];
    let step = stream.write(len, &mut at.offset, event);
    match step {
        WriteStep::Done(Ok(())) => {},
        _ => {
            return step;
        },
    }
    at.index = at.index + 1;
    at.offset = 0;
    while at.index < lens.len()
        invariant
            at.within(lens@),
            at.offset == 0,
            *stream == *old(stream),
            at.written(lens@) == old(at).written(lens@) + wrote(event),
            each_step(old(stream).is_open(), lens@, *old(at), event) == next_each(
                old(stream).is_open(),
                lens@,
                at.index as int,
            ),
        decreases lens@.len() - at.index,
    {
        let next = stream.write(lens[at.index], &mut at.offset, WriteEvent::Begin);
        match next {
            WriteStep::Done(Ok(())) => {},
            _ => {
                return next;
            },
        }
        at.index = at.index + 1;
    }
    WriteStep::Done(Ok(()))
}

/// Decides how a write goes on, where `more` says whether anything is left to be written.
fn next_write(open: bool, more: bool, event: WriteEvent) -> (step: WriteStep)
    ensures
        step == write_step(
            open,
            if more {
                1
            } else {
                0
            },
            event,
        ),
{
    match event {
        WriteEvent::Begin => if !open {
            WriteStep::Done(Err(Errno { code: EPIPE }))
        } else if !more {
            WriteStep::Done(Ok(()))
        } else {
            WriteStep::Write
        },
        WriteEvent::Wrote(result) => match result {
            Err(e) => WriteStep::Done(Err(e)),
            Ok(n) => if n == 0 {
                WriteStep::Done(Err(Errno { code: EPIPE }))
            } else if !more {
                WriteStep::Done(Ok(()))
            } else {
                WriteStep::Write
            },
        },
    }
}

/// A step of a write on a stream that is `open`.
fn write_impl(open: bool, len: usize, done: &mut usize, event: WriteEvent) -> (step: WriteStep)
    requires
        *old(done) <= len,
        event matches WriteEvent::Wrote(Ok(n)) ==> *old(done) + n <= len,
    ensures
        *final(done) == *old(done) + wrote(event),
        step == write_step(open, len - *final(done), event),
{
    if let WriteEvent::Wrote(Ok(n)) = event {
        *done = *done + n;
    }
    next_write(open, *done < len, event)
}

/// A step of a write of several buffers on a stream that is `open`.
fn writev_impl(open: bool, lens: &Vec<usize>, at: &mut WritePosition, event: WriteEvent) -> (step:
    WriteStep)
    requires
        old(at).within(lens@),
        event matches WriteEvent::Wrote(Ok(n)) ==> old(at).written(lens@) + n <= total_length(
            lens@,
            lens@.len() as int,
        ),
    ensures
        final(at).within(lens@),
        final(at).written(lens@) == old(at).written(lens@) + wrote(event),
        wrote(event) > 0 ==> final(at).at_byte(lens@),
        wrote(event) == 0 ==> *final(at) == *old(at),
        step == write_step(
            open,
            total_length(lens@, lens@.len() as int) - final(at).written(lens@),
            event,
        ),
{
    if let WriteEvent::Wrote(Ok(n)) = event {
        if n > 0 {
            at.advance(lens, n);
        }
    }
    next_write(open, at.any_left(lens), event)
}

/// A stream over a descriptor, with buffered reads.
pub struct OwnedFdStream {
    fd: Option<rustix::fd::OwnedFd>,
    read_state: OwnedFdReadState,
}

/// The half of a split stream that reads.
pub struct OwnedFdStreamRead {
    fd: Option<rustix::fd::OwnedFd>,
    read_state: OwnedFdReadState,
}

/// The half of a split stream that writes.
pub struct OwnedFdStreamWrite {
    fd: Option<rustix::fd::OwnedFd>,
}

/// The error of a descriptor that could not be duplicated: the system's error number, or
/// "invalid argument" where there is none.
pub fn clone_error(raw_os_error: Option<i32>) -> (e: Errno)
    ensures
        e == (match raw_os_error {
            Some(code) => Errno { code },
            None => Errno { code: EINVAL },
        }),
{
    match raw_os_error {
        Some(code) => Errno::from_raw_os_error(code),
        None => Errno { code: EINVAL },
    }
}

impl OwnedFdStream {
    /// The stream's descriptor.
    pub closed spec fn fd(&self) -> Option<rustix::fd::OwnedFd> {
        self.fd
    }

    /// A stream over `fd`.
    pub fn new(fd: rustix::fd::OwnedFd) -> (s: OwnedFdStream)
        ensures
            s.fd() == Some(fd),
            s.read_view() == (ReadView { open: true, pending: Seq::empty() }),
    {
        OwnedFdStream { fd: Some(fd), read_state: OwnedFdReadState::new() }
    }

    /// The descriptor of the stream, if it was not closed.
    pub fn into_inner(self) -> (fd: Option<rustix::fd::OwnedFd>)
        ensures
            fd == self.fd(),
    {
        self.fd
    }

    /// The descriptor of the stream, for the program to read from and write to.
    pub fn as_fd(&self) -> (fd: Option<&rustix::fd::OwnedFd>)
        ensures
            fd is Some == self.fd() is Some,
            fd matches Some(fd) ==> *fd == self.fd()->0,
    {
        match &self.fd {
            Some(fd) => Some(fd),
            None => None,
        }
    }
}

impl OwnedFdStreamRead {
    /// The descriptor of this half.
    pub closed spec fn fd(&self) -> Option<rustix::fd::OwnedFd> {
        self.fd
    }

    /// The descriptor of this half, for the program to read from.
    pub fn as_fd(&self) -> (fd: Option<&rustix::fd::OwnedFd>)
        ensures
            fd is Some == self.fd() is Some,
            fd matches Some(fd) ==> *fd == self.fd()->0,
    {
        match &self.fd {
            Some(fd) => Some(fd),
            None => None,
        }
    }
}

impl OwnedFdStreamWrite {
    /// The descriptor of this half, for the program to write to.
    pub fn as_fd(&self) -> (fd: Option<&rustix::fd::OwnedFd>)
        ensures
            fd is Some == self.descriptor() is Some,
            fd matches Some(fd) ==> *fd == self.descriptor()->0,
    {
        match &self.fd {
            Some(fd) => Some(fd),
            None => None,
        }
    }
}

impl AsyncStreamRead for OwnedFdStream {
    closed spec fn read_view(&self) -> ReadView {
        ReadView { open: self.fd is Some, pending: self.read_state.pending() }
    }

    fn try_read(&mut self, buffer: &mut [u8], event: ReadEvent) -> (step: ReadStep<usize>)
        ensures
            final(self).fd() == old(self).fd(),
    {
        let mut state = OwnedFdReadState::new();
        core::mem::swap(&mut state, &mut self.read_state);
        let (next, step) = try_read_impl(self.fd.is_some(), state, buffer, event);
        self.read_state = next;
        step
    }

    fn read(&mut self, buffer: &mut [u8], done: &mut usize, event: ReadEvent) -> (step: ReadStep<
        (),
    >)
        ensures
            final(self).fd() == old(self).fd(),
    {
        let mut state = OwnedFdReadState::new();
        core::mem::swap(&mut state, &mut self.read_state);
        let (next, step) = read_impl(self.fd.is_some(), state, buffer, done, event);
        self.read_state = next;
        step
    }
}

impl AsyncStreamRead for OwnedFdStreamRead {
    closed spec fn read_view(&self) -> ReadView {
        ReadView { open: self.fd is Some, pending: self.read_state.pending() }
    }

    fn try_read(&mut self, buffer: &mut [u8], event: ReadEvent) -> (step: ReadStep<usize>)
        ensures
            final(self).fd() == old(self).fd(),
    {
        let mut state = OwnedFdReadState::new();
        core::mem::swap(&mut state, &mut self.read_state);
        let (next, step) = try_read_impl(self.fd.is_some(), state, buffer, event);
        self.read_state = next;
        step
    }

    fn read(&mut self, buffer: &mut [u8], done: &mut usize, event: ReadEvent) -> (step: ReadStep<
        (),
    >)
        ensures
            final(self).fd() == old(self).fd(),
    {
        let mut state = OwnedFdReadState::new();
        core::mem::swap(&mut state, &mut self.read_state);
        let (next, step) = read_impl(self.fd.is_some(), state, buffer, done, event);
        self.read_state = next;
        step
    }
}

impl AsyncStreamWrite for OwnedFdStream {
    open spec fn is_open(&self) -> bool {
        self.descriptor() is Some
    }

    open spec fn descriptor(&self) -> Option<rustix::fd::OwnedFd> {
        self.fd()
    }

    open spec fn vectored(&self) -> bool {
        true
    }

    fn write(&mut self, len: usize, done: &mut usize, event: WriteEvent) -> (step: WriteStep) {
        write_impl(self.fd.is_some(), len, done, event)
    }

    fn writev(&mut self, lens: &Vec<usize>, at: &mut WritePosition, event: WriteEvent) -> (step:
        WriteStep) {
        writev_impl(self.fd.is_some(), lens, at, event)
    }

    fn shutdown(&mut self) -> (r: Result<i32, Errno>) {
        if self.fd.is_some() {
            Ok(SHUT_WR)
        } else {
            Err(Errno { code: EPIPE })
        }
    }

    fn close(&mut self) -> (r: Result<rustix::fd::OwnedFd, Errno>)
        ensures
            final(self).read_view() == (ReadView { open: false, ..old(self).read_view() }),
    {
        match self.fd.take() {
            Some(fd) => Ok(fd),
            None => Err(Errno { code: EPIPE }),
        }
    }
}

impl AsyncStreamWrite for OwnedFdStreamWrite {
    open spec fn is_open(&self) -> bool {
        self.descriptor() is Some
    }

    closed spec fn descriptor(&self) -> Option<rustix::fd::OwnedFd> {
        self.fd
    }

    open spec fn vectored(&self) -> bool {
        true
    }

    fn write(&mut self, len: usize, done: &mut usize, event: WriteEvent) -> (step: WriteStep) {
        write_impl(self.fd.is_some(), len, done, event)
    }

    fn writev(&mut self, lens: &Vec<usize>, at: &mut WritePosition, event: WriteEvent) -> (step:
        WriteStep) {
        writev_impl(self.fd.is_some(), lens, at, event)
    }

    fn shutdown(&mut self) -> (r: Result<i32, Errno>) {
        if self.fd.is_some() {
            Ok(SHUT_WR)
        } else {
            Err(Errno { code: EPIPE })
        }
    }

    fn close(&mut self) -> (r: Result<rustix::fd::OwnedFd, Errno>) {
        match self.fd.take() {
            Some(fd) => Ok(fd),
            None => Err(Errno { code: EPIPE }),
        }
    }
}

/// A stream that can be split into halves that read and write independently.
pub trait SplittableStream: Sized {
    /// The half that reads.
    type ReadStream: AsyncStreamRead;

    /// The half that writes.
    type WriteStream: AsyncStreamWrite;

    /// The stream's descriptor.
    spec fn split_descriptor(&self) -> Option<rustix::fd::OwnedFd>;

    /// The bytes that were read and not yet delivered.
    spec fn split_pending(&self) -> Seq<u8>;

    /// Splits the stream. `duplicate` is a duplicate of its descriptor, or why there is
    /// none; a closed stream needs none.
    fn split(self, duplicate: Option<Result<rustix::fd::OwnedFd, Option<i32>>>) -> (r: Result<
        (Self::ReadStream, Self::WriteStream),
        Errno,
    >)
        requires
            duplicate is Some == self.split_descriptor() is Some,
        ensures
            match duplicate {
                Some(Err(raw)) => r is Err && r->Err_0 == (match raw {
                    Some(code) => Errno { code },
                    None => Errno { code: EINVAL },
                }),
                _ => {
                    &&& r is Ok
                    &&& r->Ok_0.0.read_view() == (ReadView {
                        open: self.split_descriptor() is Some,
                        pending: self.split_pending(),
                    })
                    &&& r->Ok_0.1.descriptor() == self.split_descriptor()
                },
            },
    ;
}

impl SplittableStream for OwnedFdStream {
    type ReadStream = OwnedFdStreamRead;

    type WriteStream = OwnedFdStreamWrite;

    open spec fn split_descriptor(&self) -> Option<rustix::fd::OwnedFd> {
        self.fd()
    }

    open spec fn split_pending(&self) -> Seq<u8> {
        self.read_view().pending
    }

    fn split(self, duplicate: Option<Result<rustix::fd::OwnedFd, Option<i32>>>) -> (r: Result<
        (OwnedFdStreamRead, OwnedFdStreamWrite),
        Errno,
    >)
        ensures
            r matches Ok(halves) ==> halves.0.fd() == (match duplicate {
                Some(Ok(fd)) => Some(fd),
                _ => None,
            }),
    {
        let read_fd = match duplicate {
            Some(Ok(fd)) => Some(fd),
            Some(Err(raw)) => {
                return Err(clone_error(raw));
            },
            None => None,
        };
        Ok(
            (
                OwnedFdStreamRead { fd: read_fd, read_state: self.read_state },
                OwnedFdStreamWrite { fd: self.fd },
            ),
        )
    }
}

/// A stream can be read and written to exactly while it has its descriptor, and so can each
/// half of a split one; all of them write several buffers at once.
pub proof fn law_stream_is_open_while_it_has_its_descriptor(
    s: OwnedFdStream,
    r: OwnedFdStreamRead,
    w: OwnedFdStreamWrite,
)
    ensures
        s.read_view().open == s.fd() is Some,
        s.descriptor() == s.fd(),
        s.is_open() == s.fd() is Some,
        r.read_view().open == r.fd() is Some,
        w.is_open() == w.descriptor() is Some,
        s.vectored(),
        w.vectored(),
{
}

/// Bytes come out of a stream in the order in which they went in, none lost and none
/// twice: what a step delivers and what is then pending is what was pending, or what the
/// kernel gave.
pub proof fn law_reads_keep_order(v: ReadView, room: nat, event: ReadEvent)
    requires
        event is Filled ==> v.pending.len() == 0,
    ensures
        ({
            let source = match event {
                ReadEvent::Filled(Ok(data)) => data@,
                _ => v.pending,
            };
            let t = v.try_read(room, event);
            let r = v.read(room, event);
            t.bytes + t.stream.pending == source && r.bytes + r.stream.pending == source
        }),
{
    let source = match event {
        ReadEvent::Filled(Ok(data)) => data@,
        _ => v.pending,
    };
    let n = fitting(source.len(), room) as int;
    assert(source.take(n) + source.skip(n) =~= source);
    assert(Seq::<u8>::empty() + v.pending =~= v.pending);
    assert(Seq::<u8>::empty() + source =~= source);
}

/// What a step of a read of at most a buffer does to the buffer and the stream: the bytes
/// that it delivers stand at the front and the rest of the buffer is as it was; pending
/// bytes are handed out, as many as fit, without asking the kernel; a buffer with room gets
/// nothing only at the end of the stream; and an error leaves everything as it was.
pub proof fn law_try_read_hands_out_what_is_next(v: ReadView, buffer: Seq<u8>, event: ReadEvent)
    requires
        v.open,
        buffer.len() <= usize::MAX,
        event is Filled ==> v.pending.len() == 0,
    ensures
        ({
            let t = v.try_read(buffer.len(), event);
            let n = t.bytes.len() as int;
            let after = overwritten(buffer, 0, t.bytes);
            &&& n <= buffer.len()
            &&& after.take(n) == t.bytes
            &&& after.skip(n) == buffer.skip(n)
            &&& t.step matches ReadStep::Done(Ok(count)) ==> count == n && (count == 0
                && buffer.len() > 0 ==> (event matches ReadEvent::Filled(Ok(data))
                && data@.len() == 0))
            &&& event is Begin && v.pending.len() > 0 ==> t.step == ReadStep::Done(
                Ok::<usize, Errno>(fitting(v.pending.len(), buffer.len()) as usize),
            )
            &&& t.step matches ReadStep::Done(Err(_)) ==> t.stream == v && after == buffer
        }),
{
    let t = v.try_read(buffer.len(), event);
    let n = t.bytes.len() as int;
    let after = overwritten(buffer, 0, t.bytes);
    assert(after.take(n) =~= t.bytes);
    assert(after.skip(n) =~= buffer.skip(n));
    if n == 0 {
        assert(after =~= buffer);
    }
}

/// A step of a read, as it is made on a stream.
pub enum ReadCall {
    TryRead { room: nat, event: ReadEvent },
    Read { room: nat, event: ReadEvent },
}

impl ReadCall {
    /// What happened before the step.
    pub open spec fn event(self) -> ReadEvent {
        match self {
            ReadCall::TryRead { room: _, event } => event,
            ReadCall::Read { room: _, event } => event,
        }
    }

    /// The bytes that the kernel gave before the step.
    pub open spec fn given(self) -> Seq<u8> {
        match self.event() {
            ReadEvent::Filled(Ok(data)) => data@,
            _ => Seq::empty(),
        }
    }

    /// The stream after the step.
    pub open spec fn stream(self, v: ReadView) -> ReadView {
        match self {
            ReadCall::TryRead { room, event } => v.try_read(room, event).stream,
            ReadCall::Read { room, event } => v.read(room, event).stream,
        }
    }

    /// The bytes that the step delivers.
    pub open spec fn bytes(self, v: ReadView) -> Seq<u8> {
        match self {
            ReadCall::TryRead { room, event } => v.try_read(room, event).bytes,
            ReadCall::Read { room, event } => v.read(room, event).bytes,
        }
    }
}

/// The stream after steps, in order.
pub open spec fn stream_after(v: ReadView, calls: Seq<ReadCall>) -> ReadView
    decreases calls.len(),
{
    if calls.len() == 0 {
        v
    } else {
        calls.last().stream(stream_after(v, calls.drop_last()))
    }
}

/// The bytes that steps deliver, in order.
pub open spec fn delivered_by(v: ReadView, calls: Seq<ReadCall>) -> Seq<u8>
    decreases calls.len(),
{
    if calls.len() == 0 {
        Seq::empty()
    } else {
        delivered_by(v, calls.drop_last()) + calls.last().bytes(stream_after(v, calls.drop_last()))
    }
}

/// The bytes that the kernel gives before steps, in order.
pub open spec fn given_to(calls: Seq<ReadCall>) -> Seq<u8>
    decreases calls.len(),
{
    if calls.len() == 0 {
        Seq::empty()
    } else {
        given_to(calls.drop_last()) + calls.last().given()
    }
}

/// Whether the kernel is asked only when nothing is pending, as the steps ask for it.
pub open spec fn asked_when_empty(v: ReadView, calls: Seq<ReadCall>) -> bool
    decreases calls.len(),
{
    calls.len() == 0 || asked_when_empty(v, calls.drop_last()) && (calls.last().event() is Filled
        ==> stream_after(v, calls.drop_last()).pending.len() == 0)
}

/// Over any steps of reads no byte is lost, delivered twice or out of order: what they
/// deliver and what is then pending is what was pending and what the kernel gave.
pub proof fn law_no_byte_is_lost(v: ReadView, calls: Seq<ReadCall>)
    requires
        asked_when_empty(v, calls),
    ensures
        delivered_by(v, calls) + stream_after(v, calls).pending == v.pending + given_to(calls),
    decreases calls.len(),
{
    if calls.len() == 0 {
        assert(Seq::<u8>::empty() + v.pending =~= v.pending + Seq::<u8>::empty());
    } else {
        let front = calls.drop_last();
        let last = calls.last();
        law_no_byte_is_lost(v, front);
        let w = stream_after(v, front);
        let out = last.bytes(w);
        let left = last.stream(w).pending;
        match last {
            ReadCall::TryRead { room, event } => {
                law_reads_keep_order(w, room, event);
            },
            ReadCall::Read { room, event } => {
                law_reads_keep_order(w, room, event);
            },
        }
        assert(out + left == w.pending + last.given()) by {
            assert(w.pending + Seq::<u8>::empty() =~= w.pending);
            if last.event() is Filled {
                assert(w.pending + last.given() =~= last.given());
            }
        }
        let d = delivered_by(v, front);
        assert((d + out) + left =~= d + (out + left));
        assert(d + (w.pending + last.given()) =~= (d + w.pending) + last.given());
        assert((v.pending + given_to(front)) + last.given() =~= v.pending + (given_to(front)
            + last.given()));
    }
}

/// A read never delivers more than it has room for, an exact one that succeeds exactly
/// that, and one that goes on has delivered everything that there was.
pub proof fn law_reads_fill_their_room(v: ReadView, room: nat, event: ReadEvent)
    requires
        event is Filled ==> v.pending.len() == 0 && room > 0,
    ensures
        v.try_read(room, event).bytes.len() <= room,
        v.read(room, event).bytes.len() <= room,
        v.read(room, event).step matches ReadStep::Done(Ok(_)) ==> v.read(
            room,
            event,
        ).bytes.len() == room,
        v.read(room, event).step is Fill ==> v.read(room, event).stream.pending.len() == 0,
{
}

/// A write that ends well has written all its bytes; one that takes nothing ends with an
/// error, so a write always ends.
pub proof fn law_writes_are_complete(open: bool, left: int, event: WriteEvent)
    requires
        left >= 0,
    ensures
        write_step(open, left, event) matches WriteStep::Done(Ok(_)) ==> left == 0,
        write_step(open, left, event) is Write && event is Wrote ==> wrote(event) > 0,
{
}

/// A write of several buffers without a byte in them ends well at once, on an open stream.
pub proof fn law_empty_buffers_are_written(lens: Seq<usize>)
    requires
        forall|i: int| 0 <= i < lens.len() ==> #[trigger] lens[i] == 0,
    ensures
        write_step(
            true,
            total_length(lens, lens.len() as int) - (WritePosition { index: 0, offset: 0 }).written(
                lens,
            ),
            WriteEvent::Begin,
        ) == WriteStep::Done(Ok::<(), Errno>(())),
{
    lemma_empty_buffers(lens, lens.len() as int);
}

proof fn lemma_empty_buffers(lens: Seq<usize>, n: int)
    requires
        forall|i: int| 0 <= i < lens.len() ==> #[trigger] lens[i] == 0,
        0 <= n <= lens.len(),
    ensures
        total_length(lens, n) == 0,
    decreases n,
{
    if n > 0 {
        lemma_empty_buffers(lens, n - 1);
    }
}

} // verus!
