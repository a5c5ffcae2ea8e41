//! What reads and writes of streams deliver.

use vstd::prelude::*;

use crate::async_stream::{
    each_step, next_each, overwritten, total_length, write_step, Delivered, ReadEvent, ReadStep,
    ReadView, WriteEvent, WritePosition, WriteStep,
};
use crate::errno::Errno;

verus! {

/// A read of a whole buffer goes on while the kernel gives bytes and the buffer has room
/// left: a chunk that is shorter than the room is delivered whole and the kernel is asked
/// again; one that fills the room ends the read well, and what is left of it is pending.
pub proof fn law_short_chunk_goes_on(v: ReadView, room: nat, data: Vec<u8>)
    requires
        v.open,
        data@.len() > 0,
    ensures
        ({
            let d = v.read(room, ReadEvent::Filled(Ok(data)));
            &&& data@.len() < room ==> {
                &&& d.step is Fill
                &&& d.bytes == data@
                &&& d.stream.pending.len() == 0
            }
            &&& data@.len() >= room ==> {
                &&& d.step == ReadStep::Done(Ok::<(), Errno>(()))
                &&& d.bytes == data@.subrange(0, room as int)
                &&& d.stream.pending == data@.subrange(room as int, data@.len() as int)
            }
            &&& d.stream.open
        }),
{
    let d = v.read(room, ReadEvent::Filled(Ok(data)));
    if data@.len() < room {
        assert(d.bytes =~= data@);
    } else {
        assert(d.bytes =~= data@.subrange(0, room as int));
        assert(d.stream.pending =~= data@.subrange(room as int, data@.len() as int));
    }
}

/// The begin of a read of a whole buffer: there is nothing to do for an empty buffer; a
/// closed stream is an error; and what is pending is delivered, as far as there is room, and
/// ends the read only where it fills the room.
pub proof fn law_read_begins_with_what_is_pending(v: ReadView, room: nat)
    ensures
        ({
            let d = v.read(room, ReadEvent::Begin);
            let n = v.pending.len();
            &&& room == 0 ==> d.step == ReadStep::Done(Ok::<(), Errno>(())) && d.stream == v
                && d.bytes.len() == 0
            &&& room > 0 && !v.open ==> d.step == ReadStep::Done(
                Err::<(), Errno>(Errno { code: 32 }),
            ) && d.stream == v && d.bytes.len() == 0
            &&& room > 0 && v.open && n < room ==> d.step is Fill && d.bytes == v.pending
                && d.stream == (ReadView { open: true, pending: Seq::empty() })
            &&& room > 0 && v.open && n >= room ==> d.step == ReadStep::Done(Ok::<(), Errno>(()))
                && d.bytes == v.pending.subrange(0, room as int) && d.stream.open
                && d.stream.pending == v.pending.subrange(room as int, n as int)
        }),
{
    let d = v.read(room, ReadEvent::Begin);
    if room > 0 && v.open {
        if v.pending.len() < room {
            assert(d.bytes =~= v.pending);
            assert(d.stream.pending =~= Seq::<u8>::empty());
        } else {
            assert(d.bytes =~= v.pending.subrange(0, room as int));
            assert(d.stream.pending =~= v.pending.subrange(room as int, v.pending.len() as int));
        }
    }
}

/// The end of the stream before the buffer is full is a broken pipe, an error of the kernel
/// is the read's, and both leave the stream as it was and deliver nothing.
pub proof fn law_read_fails_as_the_kernel_does(v: ReadView, room: nat, e: Errno, nothing: Vec<u8>)
    requires
        nothing@.len() == 0,
    ensures
        v.read(room, ReadEvent::Filled(Err(e))).step == ReadStep::Done(Err::<(), Errno>(e)),
        v.read(room, ReadEvent::Filled(Err(e))).stream == v,
        v.read(room, ReadEvent::Filled(Err(e))).bytes.len() == 0,
        v.read(room, ReadEvent::Filled(Ok(nothing))).step == ReadStep::Done(
            Err::<(), Errno>(Errno { code: 32 }),
        ),
        v.read(room, ReadEvent::Filled(Ok(nothing))).stream == v,
        v.read(room, ReadEvent::Filled(Ok(nothing))).bytes.len() == 0,
        v.try_read(room, ReadEvent::Filled(Err(e))).step == ReadStep::Done(Err::<usize, Errno>(e)),
        v.try_read(room, ReadEvent::Filled(Err(e))).stream == v,
        v.try_read(room, ReadEvent::Filled(Err(e))).bytes.len() == 0,
        v.try_read(room, ReadEvent::Filled(Ok(nothing))).step == ReadStep::Done(
            Ok::<usize, Errno>(0),
        ),
        v.try_read(room, ReadEvent::Filled(Ok(nothing))).stream == v,
        v.try_read(room, ReadEvent::Filled(Ok(nothing))).bytes.len() == 0,
{
}

/// All bytes of chunks, in order.
pub open spec fn all_bytes(chunks: Seq<Vec<u8>>) -> Seq<u8>
    decreases chunks.len(),
{
    if chunks.len() == 0 {
        Seq::empty()
    } else {
        all_bytes(chunks.drop_last()) + chunks.last()@
    }
}

/// A read of a whole buffer to which the kernel gives `chunks`, as long as it asks for them:
/// the stream after it, all bytes that it delivered and its last step.
pub open spec fn read_through(v: ReadView, room: nat, chunks: Seq<Vec<u8>>) -> Delivered<()>
    decreases chunks.len(),
{
    if chunks.len() == 0 {
        v.read(room, ReadEvent::Begin)
    } else {
        let before = read_through(v, room, chunks.drop_last());
        if before.step is Fill {
            let d = before.stream.read(
                (room - before.bytes.len()) as nat,
                ReadEvent::Filled(Ok(chunks.last())),
            );
            Delivered { stream: d.stream, bytes: before.bytes + d.bytes, step: d.step }
        } else {
            before
        }
    }
}

/// Where the kernel gives chunks with bytes in them, a read on an open stream never fails:
/// once there are as many bytes as it has room for, those pending before it and those of the
/// chunks, it ended well with exactly the first of them, in order; until then it asks for
/// more, and has delivered all of them.
pub proof fn law_read_ends_when_its_room_is_filled(v: ReadView, room: nat, chunks: Seq<Vec<u8>>)
    requires
        v.open,
        forall|i: int| 0 <= i < chunks.len() ==> (#[trigger] chunks[i])@.len() > 0,
    ensures
        ({
            let d = read_through(v, room, chunks);
            let there = v.pending + all_bytes(chunks);
            &&& there.len() >= room ==> {
                &&& d.step == ReadStep::Done(Ok::<(), Errno>(()))
                &&& d.bytes == there.subrange(0, room as int)
            }
            &&& there.len() < room ==> {
                &&& d.step is Fill
                &&& d.bytes == there
                &&& d.stream.pending.len() == 0
            }
            &&& d.stream.open
        }),
    decreases chunks.len(),
{
    let d = read_through(v, room, chunks);
    let there = v.pending + all_bytes(chunks);
    if chunks.len() == 0 {
        assert(there =~= v.pending);
        law_read_begins_with_what_is_pending(v, room);
        if room == 0 {
            assert(d.bytes =~= there.subrange(0, 0));
        }
    } else {
        let front = chunks.drop_last();
        let chunk = chunks.last();
        assert forall|i: int| 0 <= i < front.len() implies (#[trigger] front[i])@.len() > 0 by {
            assert(front[i] == chunks[i]);
        }
        law_read_ends_when_its_room_is_filled(v, room, front);
        let before = read_through(v, room, front);
        let earlier = v.pending + all_bytes(front);
        assert(there =~= earlier + chunk@);
        assert(chunks[chunks.len() - 1] == chunk);
        if earlier.len() >= room {
            assert(there.subrange(0, room as int) =~= earlier.subrange(0, room as int));
        } else {
            let left = (room - before.bytes.len()) as nat;
            law_short_chunk_goes_on(before.stream, left, chunk);
            if there.len() >= room {
                assert(d.bytes =~= there.subrange(0, room as int));
            } else {
                assert(d.bytes =~= there);
            }
        }
    }
}

/// A read of at most a buffer: pending bytes are handed out, as many as fit, and the kernel
/// is asked only where none are pending; of what it then gives as many bytes are handed out
/// as fit, and the rest is pending. The step tells how many were handed out.
pub proof fn law_try_read_takes_what_fits(v: ReadView, room: nat, data: Vec<u8>)
    requires
        room <= usize::MAX,
        data@.len() > 0,
    ensures
        ({
            let b = v.try_read(room, ReadEvent::Begin);
            &&& !v.open ==> b.step == ReadStep::Done(Err::<usize, Errno>(Errno { code: 32 }))
                && b.stream == v && b.bytes.len() == 0
            &&& v.open && v.pending.len() == 0 ==> b.step is Fill && b.stream == v && b.bytes.len()
                == 0
            &&& v.open && v.pending.len() > 0 ==> hands_out(v.pending, room, b) && b.stream.open
        }),
        hands_out(data@, room, v.try_read(room, ReadEvent::Filled(Ok(data)))),
        v.try_read(room, ReadEvent::Filled(Ok(data))).stream.open == v.open,
{
    let b = v.try_read(room, ReadEvent::Begin);
    if v.open && v.pending.len() > 0 {
        assert(b.bytes + b.stream.pending =~= v.pending);
    }
    let d = v.try_read(room, ReadEvent::Filled(Ok(data)));
    assert(d.bytes + d.stream.pending =~= data@);
}

/// Whether a step handed out as many of `bytes` as fit into `room`, from the front, tells how
/// many these are, and keeps the others.
pub open spec fn hands_out(bytes: Seq<u8>, room: nat, d: Delivered<usize>) -> bool {
    &&& d.bytes + d.stream.pending == bytes
    &&& d.bytes.len() <= room
    &&& d.bytes.len() < room ==> d.stream.pending.len() == 0
    &&& d.step matches ReadStep::Done(Ok(n)) && n == d.bytes.len()
}

/// Bytes that are written into a buffer stand there, in order, and all others stay.
pub proof fn law_buffer_keeps_the_rest(buffer: Seq<u8>, from: int, bytes: Seq<u8>, i: int)
    requires
        0 <= from,
        from + bytes.len() <= buffer.len(),
        0 <= i < buffer.len(),
    ensures
        overwritten(buffer, from, bytes).len() == buffer.len(),
        from <= i < from + bytes.len() ==> overwritten(buffer, from, bytes)[i] == bytes[i - from],
        i < from || i >= from + bytes.len() ==> overwritten(buffer, from, bytes)[i] == buffer[i],
{
}

/// How a write goes on: on a closed stream it fails, where nothing is left it ends well,
/// else it writes; a write that took nothing is a broken pipe, an error of the kernel is the
/// write's, and after any other the write goes on exactly while something is left.
pub proof fn law_write_goes_on_while_bytes_are_left(open: bool, left: int, n: usize, e: Errno)
    requires
        left >= 0,
    ensures
        !open ==> write_step(open, left, WriteEvent::Begin) == WriteStep::Done(
            Err::<(), Errno>(Errno { code: 32 }),
        ),
        open && left == 0 ==> write_step(open, left, WriteEvent::Begin) == WriteStep::Done(
            Ok::<(), Errno>(()),
        ),
        open && left > 0 ==> write_step(open, left, WriteEvent::Begin) is Write,
        write_step(open, left, WriteEvent::Wrote(Err(e))) == WriteStep::Done(Err::<(), Errno>(e)),
        n == 0 ==> write_step(open, left, WriteEvent::Wrote(Ok(n))) == WriteStep::Done(
            Err::<(), Errno>(Errno { code: 32 }),
        ),
        n > 0 && left == 0 ==> write_step(open, left, WriteEvent::Wrote(Ok(n)))
            == WriteStep::Done(Ok::<(), Errno>(())),
        n > 0 && left > 0 ==> write_step(open, left, WriteEvent::Wrote(Ok(n))) is Write,
{
}

/// How many bytes the kernel took.
pub open spec fn taken(counts: Seq<usize>) -> int
    decreases counts.len(),
{
    if counts.len() == 0 {
        0
    } else {
        taken(counts.drop_last()) + counts.last()
    }
}

/// The last step of a write of `len` bytes of which the kernel takes these counts, as long as
/// it is asked to.
pub open spec fn write_through(open: bool, len: int, counts: Seq<usize>) -> WriteStep
    decreases counts.len(),
{
    if counts.len() == 0 {
        write_step(open, len, WriteEvent::Begin)
    } else {
        let before = write_through(open, len, counts.drop_last());
        if before is Write {
            write_step(open, len - taken(counts), WriteEvent::Wrote(Ok(counts.last())))
        } else {
            before
        }
    }
}

/// Where the kernel takes bytes each time, a write on an open stream never fails: it ended
/// well when all bytes were taken, and goes on until then.
pub proof fn law_write_ends_when_all_is_taken(len: int, counts: Seq<usize>)
    requires
        forall|i: int| 0 <= i < counts.len() ==> #[trigger] counts[i] > 0,
        0 <= taken(counts) <= len,
    ensures
        taken(counts) == len ==> write_through(true, len, counts) == WriteStep::Done(
            Ok::<(), Errno>(()),
        ),
        taken(counts) < len ==> write_through(true, len, counts) is Write,
    decreases counts.len(),
{
    if counts.len() > 0 {
        let front = counts.drop_last();
        assert(counts[counts.len() - 1] > 0);
        assert forall|i: int| 0 <= i < front.len() implies #[trigger] front[i] > 0 by {
            assert(front[i] == counts[i]);
        }
        lemma_taken_counts(front);
        law_write_ends_when_all_is_taken(len, front);
    }
}

proof fn lemma_taken_counts(counts: Seq<usize>)
    ensures
        taken(counts) >= 0,
    decreases counts.len(),
{
    if counts.len() > 0 {
        lemma_taken_counts(counts.drop_last());
    }
}

/// Where a write of buffers one by one stands at the begin of a buffer, it goes on exactly
/// where a byte is left in any of the rest, and ends well otherwise; on a closed stream it
/// fails unless no buffer is left.
pub proof fn law_empty_buffers_are_passed_over(open: bool, lens: Seq<usize>, index: int)
    requires
        0 <= index <= lens.len(),
    ensures
        ({
            let step = next_each(open, lens, index);
            &&& index == lens.len() ==> step == WriteStep::Done(Ok::<(), Errno>(()))
            &&& index < lens.len() && !open ==> step == WriteStep::Done(
                Err::<(), Errno>(Errno { code: 32 }),
            )
            &&& open && (exists|i: int| index <= i < lens.len() && #[trigger] lens[i] > 0)
                ==> step is Write
            &&& open && (forall|i: int| index <= i < lens.len() ==> #[trigger] lens[i] == 0)
                ==> step == WriteStep::Done(Ok::<(), Errno>(()))
        }),
    decreases lens.len() - index,
{
    if index < lens.len() {
        law_empty_buffers_are_passed_over(open, lens, index + 1);
    }
}

/// A write of buffers one by one goes on within a buffer like a write of that buffer, and at
/// its end like one that stands at the begin of the next.
pub proof fn law_buffers_are_written_one_by_one(
    open: bool,
    lens: Seq<usize>,
    at: WritePosition,
    n: usize,
    e: Errno,
)
    requires
        at.index < lens.len(),
        at.offset + n <= lens[at.index as int],
    ensures
        each_step(open, lens, at, WriteEvent::Wrote(Err(e))) == WriteStep::Done(
            Err::<(), Errno>(e),
        ),
        n == 0 ==> each_step(open, lens, at, WriteEvent::Wrote(Ok(n))) == WriteStep::Done(
            Err::<(), Errno>(Errno { code: 32 }),
        ),
        n > 0 && at.offset + n < lens[at.index as int] ==> each_step(
            open,
            lens,
            at,
            WriteEvent::Wrote(Ok(n)),
        ) is Write,
        n > 0 && at.offset + n == lens[at.index as int] ==> each_step(
            open,
            lens,
            at,
            WriteEvent::Wrote(Ok(n)),
        ) == next_each(open, lens, at.index + 1),
        !open ==> each_step(open, lens, at, WriteEvent::Begin) == WriteStep::Done(
            Err::<(), Errno>(Errno { code: 32 }),
        ),
        open && at.offset < lens[at.index as int] ==> each_step(open, lens, at, WriteEvent::Begin)
            is Write,
        open && at.offset == lens[at.index as int] ==> each_step(
            open,
            lens,
            at,
            WriteEvent::Begin,
        ) == next_each(open, lens, at.index + 1),
{
}

/// A write of buffers that stands behind the last one is done.
pub proof fn law_behind_the_last_buffer_all_is_written(
    open: bool,
    lens: Seq<usize>,
    at: WritePosition,
    event: WriteEvent,
)
    requires
        at.index >= lens.len(),
    ensures
        each_step(open, lens, at, event) == WriteStep::Done(Ok::<(), Errno>(())),
{
}

/// The length of the first buffers grows buffer by buffer, and a position counts the bytes of
/// the buffers before it and those before it in its own.
pub proof fn law_position_counts_bytes(lens: Seq<usize>, at: WritePosition, n: nat)
    ensures
        total_length(lens, 0) == 0,
        n < lens.len() ==> total_length(lens, n as int + 1) - total_length(lens, n as int)
            == lens[n as int],
        at.written(lens) - at.offset == total_length(lens, at.index as int),
        at.within(lens) && at.index < lens.len() ==> at.offset <= lens[at.index as int],
        at.within(lens) && at.index >= lens.len() ==> at.index == lens.len() && at.offset == 0,
        at.at_byte(lens) && at.index < lens.len() ==> at.offset < lens[at.index as int],
{
}

} // verus!
