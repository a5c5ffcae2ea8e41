//! Streams over real descriptors, and through buffers.

use rustix::fd::OwnedFd;

use kimojio::async_stream::{
    clone_error, AsyncStreamRead, AsyncStreamWrite, OwnedFdStream, OwnedFdStreamRead,
    OwnedFdStreamWrite, ReadEvent, ReadStep, SplittableStream, WriteEvent, WritePosition,
    WriteStep, READ_BUFFER_SIZE,
};
use kimojio::echo::{echo_step, EchoAction, EchoEvent};
use kimojio::errno::{Errno, EPIPE};
use kimojio::ssl::{
    read_exact, write_all, BufferedRead, ExactStep, SslAction, SslDriver, SslError, SslEvent, SslOp,
    SslOutcome, SyncBufferedStream, FILL_SIZE,
};

fn bipipe() -> (OwnedFd, OwnedFd) {
    rustix::net::socketpair(
        rustix::net::AddressFamily::UNIX,
        rustix::net::SocketType::STREAM,
        rustix::net::SocketFlags::empty(),
        None,
    )
    .unwrap()
}

fn errno(e: rustix::io::Errno) -> Errno {
    Errno { code: e.raw_os_error() }
}

/// What the streams of these tests have in common.
trait Descriptor {
    fn owned_fd(&self) -> Option<&OwnedFd>;
}

impl Descriptor for OwnedFdStream {
    fn owned_fd(&self) -> Option<&OwnedFd> {
        self.as_fd()
    }
}

impl Descriptor for OwnedFdStreamRead {
    fn owned_fd(&self) -> Option<&OwnedFd> {
        self.as_fd()
    }
}

impl Descriptor for OwnedFdStreamWrite {
    fn owned_fd(&self) -> Option<&OwnedFd> {
        self.as_fd()
    }
}

fn fill(stream: &impl Descriptor) -> ReadEvent {
    let mut data = vec![0u8; READ_BUFFER_SIZE];
    let result = rustix::io::read(stream.owned_fd().unwrap(), &mut data);
    ReadEvent::Filled(match result {
        Ok(n) => Ok(data[..n].to_vec()),
        Err(e) => Err(errno(e)),
    })
}

fn try_read(
    stream: &mut (impl AsyncStreamRead + Descriptor),
    buffer: &mut [u8],
) -> Result<usize, Errno> {
    let mut event = ReadEvent::Begin;
    loop {
        match stream.try_read(buffer, event) {
            ReadStep::Fill => event = fill(stream),
            ReadStep::Done(result) => return result,
        }
    }
}

fn read(
    stream: &mut (impl AsyncStreamRead + Descriptor),
    buffer: &mut [u8],
) -> Result<(), Errno> {
    let mut done = 0;
    let mut event = ReadEvent::Begin;
    loop {
        match stream.read(buffer, &mut done, event) {
            ReadStep::Fill => event = fill(stream),
            ReadStep::Done(result) => return result,
        }
    }
}

fn write(stream: &mut (impl AsyncStreamWrite + Descriptor), data: &[u8]) -> Result<(), Errno> {
    let mut done = 0;
    let mut event = WriteEvent::Begin;
    loop {
        match stream.write(data.len(), &mut done, event) {
            WriteStep::Write => {
                let flags = rustix::net::SendFlags::NOSIGNAL;
                let result =
                    rustix::net::send(stream.owned_fd().unwrap(), &data[done..], flags);
                event = WriteEvent::Wrote(result.map_err(errno));
            }
            WriteStep::Done(result) => return result,
        }
    }
}

fn writev(
    stream: &mut (impl AsyncStreamWrite + Descriptor),
    buffers: &[&[u8]],
) -> Result<(), Errno> {
    let lens: Vec<usize> = buffers.iter().map(|b| b.len()).collect();
    let mut at = WritePosition { index: 0, offset: 0 };
    let mut event = WriteEvent::Begin;
    loop {
        match stream.writev(&lens, &mut at, event) {
            WriteStep::Write => {
                let mut slices = vec![std::io::IoSlice::new(&buffers[at.index][at.offset..])];
                for buffer in &buffers[at.index + 1..] {
                    slices.push(std::io::IoSlice::new(buffer));
                }
                let result = rustix::io::writev(stream.owned_fd().unwrap(), &slices);
                event = WriteEvent::Wrote(result.map_err(errno));
            }
            WriteStep::Done(result) => return result,
        }
    }
}

fn shutdown(stream: &mut (impl AsyncStreamWrite + Descriptor)) -> Result<(), Errno> {
    let how = stream.shutdown()?;
    assert_eq!(how, 1);
    rustix::net::shutdown(stream.owned_fd().unwrap(), rustix::net::Shutdown::Write)
        .map_err(errno)
}

fn close(stream: &mut impl AsyncStreamWrite) -> Result<(), Errno> {
    stream.close().map(drop)
}

fn split(stream: OwnedFdStream) -> (OwnedFdStreamRead, OwnedFdStreamWrite) {
    let duplicate =
        stream.as_fd().map(|fd| fd.try_clone().map_err(|e| e.raw_os_error()));
    match stream.split(duplicate) {
        Ok(halves) => halves,
        Err(e) => panic!("{e:?}"),
    }
}

/// A file that holds `data`, at its begin.
fn file_with(data: &[u8]) -> OwnedFd {
    let fd = rustix::fs::memfd_create("data", rustix::fs::MemfdFlags::empty()).unwrap();
    assert_eq!(rustix::io::write(&fd, data).unwrap(), data.len());
    rustix::fs::seek(&fd, rustix::fs::SeekFrom::Start(0)).unwrap();
    fd
}

#[test]
fn manual_channel_test() {
    let (client, server) = bipipe();
    let mut stream1 = OwnedFdStream::new(client);
    let mut stream2 = OwnedFdStream::new(server);

    let iters = 200usize;
    for iter in 0..iters {
        let mut buffer = [0; 128];
        let id = 1u32;
        let length: u32 = 12;
        buffer[0..4].copy_from_slice(&length.to_le_bytes());
        buffer[4..8].copy_from_slice(&id.to_le_bytes());
        buffer[8..16].copy_from_slice(&iter.to_le_bytes());

        write(&mut stream1, &buffer[0..16]).unwrap();

        let mut response = [0; 128];
        read(&mut stream2, &mut response[0..4]).unwrap();
        let length = u32::from_le_bytes(response[0..4].try_into().unwrap()) as usize;
        read(&mut stream2, &mut response[0..length]).unwrap();
        let id = u32::from_le_bytes(response[0..4].try_into().unwrap()) as usize;
        assert_eq!(id, 1);
        let response = &response[4..length];
        assert_eq!(&iter.to_le_bytes(), response);
    }

    shutdown(&mut stream1).unwrap();
    shutdown(&mut stream2).unwrap();
}

#[test]
fn try_read_test() {
    let mut stream = OwnedFdStream::new(file_with(b"hello world"));

    let mut buffer = [0; 100];
    let amount = try_read(&mut stream, &mut buffer).unwrap();
    assert_eq!(amount, 11);
    let amount = try_read(&mut stream, &mut buffer).unwrap();
    assert_eq!(amount, 0);
    assert_eq!(&buffer[0..11], b"hello world");
}

#[test]
fn short_read_test() {
    // go into fd and back
    let stream = OwnedFdStream::new(file_with(b"hello world"));
    let fd = stream.into_inner().unwrap();
    let mut stream = OwnedFdStream::new(fd);

    let mut buffer = [0; 11];
    read(&mut stream, &mut buffer).unwrap();
    assert_eq!(&buffer[0..11], b"hello world");
    let e = read(&mut stream, &mut buffer);
    assert_eq!(e, Err(Errno { code: EPIPE }));
}

#[test]
fn read_failed_test() {
    let (client, server) = bipipe();
    drop(server);

    let mut stream = OwnedFdStream::new(client);
    read(&mut stream, &mut [0; 11]).unwrap_err();
}

#[test]
fn owned_fd_stream_split_test() {
    let (client, server) = bipipe();
    let stream = OwnedFdStream::new(client);
    let (_read_stream, mut write_stream) = split(stream);

    write(&mut write_stream, b"hello split").unwrap();

    let mut server_stream = OwnedFdStream::new(server);
    let mut buffer = [0u8; 11];
    read(&mut server_stream, &mut buffer).unwrap();
    assert_eq!(&buffer, b"hello split");
}

#[test]
fn owned_fd_stream_read_stream_try_read_test() {
    let (client, server) = bipipe();
    let stream = OwnedFdStream::new(client);
    let (mut read_stream, _write_stream) = split(stream);

    let mut server_stream = OwnedFdStream::new(server);
    write(&mut server_stream, b"test try_read").unwrap();

    let mut buffer = [0u8; 5];
    let amount = try_read(&mut read_stream, &mut buffer).unwrap();
    assert_eq!(amount, 5);
    assert_eq!(&buffer, b"test ");

    // Read remaining data
    let mut remaining = [0u8; 8];
    let remaining_amount = try_read(&mut read_stream, &mut remaining).unwrap();
    assert_eq!(remaining_amount, 8);
    assert_eq!(&remaining, b"try_read");
}

#[test]
fn owned_fd_stream_read_stream_read_test() {
    let (client, server) = bipipe();
    let stream = OwnedFdStream::new(client);
    let (mut read_stream, _write_stream) = split(stream);

    let mut server_stream = OwnedFdStream::new(server);
    write(&mut server_stream, b"exact").unwrap();
    write(&mut server_stream, b"concat").unwrap();

    // Read exact amount first
    let mut buffer = [0u8; 5];
    read(&mut read_stream, &mut buffer).unwrap();
    assert_eq!(&buffer, b"exact");

    // Read concatenated data
    let mut buffer2 = [0u8; 6];
    read(&mut read_stream, &mut buffer2).unwrap();
    assert_eq!(&buffer2, b"concat");
}

#[test]
fn owned_fd_stream_write_stream_write_test() {
    let (client, server) = bipipe();
    let stream = OwnedFdStream::new(client);
    let (_read_stream, mut write_stream) = split(stream);

    write(&mut write_stream, b"small").unwrap();
    write(&mut write_stream, b" large data chunk").unwrap();

    let mut server_stream = OwnedFdStream::new(server);
    let mut buffer = [0u8; 22];
    read(&mut server_stream, &mut buffer).unwrap();
    assert_eq!(&buffer, b"small large data chunk");
}

#[test]
fn owned_fd_stream_write_stream_writev_test() {
    let (client, server) = bipipe();
    let stream = OwnedFdStream::new(client);
    let (_read_stream, mut write_stream) = split(stream);

    writev(&mut write_stream, &[b"hello", b" ", b"vectored", b" write"]).unwrap();

    let mut server_stream = OwnedFdStream::new(server);
    let mut buffer = [0u8; 20];
    read(&mut server_stream, &mut buffer).unwrap();
    assert_eq!(&buffer, b"hello vectored write");
}

#[test]
fn owned_fd_stream_write_stream_shutdown_test() {
    let (client, server) = bipipe();
    let stream = OwnedFdStream::new(client);
    let (_read_stream, mut write_stream) = split(stream);

    write(&mut write_stream, b"before shutdown").unwrap();

    shutdown(&mut write_stream).unwrap();

    // Server should be able to read existing data
    let mut server_stream = OwnedFdStream::new(server);
    let mut buffer = [0u8; 15];
    read(&mut server_stream, &mut buffer).unwrap();
    assert_eq!(&buffer, b"before shutdown");

    // Writing after shutdown should fail
    let result = write(&mut write_stream, b"after shutdown");
    assert!(result.is_err());
}

#[test]
fn shutdown_leaves_the_read_side_open() {
    let (client, server) = bipipe();
    let mut stream = OwnedFdStream::new(client);
    shutdown(&mut stream).unwrap();
    let mut server_stream = OwnedFdStream::new(server);
    write(&mut server_stream, b"answer").unwrap();
    let mut buffer = [0u8; 6];
    read(&mut stream, &mut buffer).unwrap();
    assert_eq!(&buffer, b"answer");
}

#[test]
fn owned_fd_stream_write_stream_close_test() {
    let (client, server) = bipipe();
    let stream = OwnedFdStream::new(client);
    let (_read_stream, mut write_stream) = split(stream);

    write(&mut write_stream, b"before close").unwrap();

    close(&mut write_stream).unwrap();

    // Server should be able to read existing data
    let mut server_stream = OwnedFdStream::new(server);
    let mut buffer = [0u8; 12];
    read(&mut server_stream, &mut buffer).unwrap();
    assert_eq!(&buffer, b"before close");

    // Writing after close should fail
    let result = write(&mut write_stream, b"after close");
    assert!(result.is_err());
}

#[test]
fn owned_fd_stream_read_stream_close_test() {
    let (client, server) = bipipe();
    let stream = OwnedFdStream::new(client);
    let (mut read_stream, _write_stream) = split(stream);

    let mut server_stream = OwnedFdStream::new(server);
    write(&mut server_stream, b"test data").unwrap();
    close(&mut server_stream).unwrap();

    let mut buffer = [0u8; 9];
    read(&mut read_stream, &mut buffer).unwrap();
    assert_eq!(&buffer, b"test data");

    // Close the read stream
    drop(read_stream.as_fd().unwrap().try_clone().unwrap());

    // Reading after close should fail
    let mut empty_buffer = [0u8; 1];
    let result = read(&mut read_stream, &mut empty_buffer);
    assert!(result.is_err());
}

#[test]
fn owned_fd_stream_split_concurrent_operations_test() {
    let (client, server) = bipipe();
    let stream1 = OwnedFdStream::new(client);
    let stream2 = OwnedFdStream::new(server);
    let (mut read1, mut write1) = split(stream1);
    let (mut read2, mut write2) = split(stream2);

    write(&mut write1, b"from1to2").unwrap();
    write(&mut write2, b"from2to1").unwrap();
    shutdown(&mut write1).unwrap();
    shutdown(&mut write2).unwrap();

    let mut buffer1 = [0u8; 8];
    let mut buffer2 = [0u8; 8];
    read(&mut read1, &mut buffer1).unwrap();
    read(&mut read2, &mut buffer2).unwrap();

    assert_eq!(&buffer1, b"from2to1");
    assert_eq!(&buffer2, b"from1to2");
}

#[test]
fn owned_fd_stream_split_writev_large_test() {
    let (client, server) = bipipe();
    let stream = OwnedFdStream::new(client);
    let (_read_stream, mut write_stream) = split(stream);

    let buf1 = vec![65u8; 4096];
    let buf2 = vec![66u8; 4096];
    writev(&mut write_stream, &[&buf1, &buf2, b"end"]).unwrap();

    let mut server_stream = OwnedFdStream::new(server);
    let mut result = Vec::new();
    let mut temp_buffer = [0u8; 1024];
    for _ in 0..8 {
        read(&mut server_stream, &mut temp_buffer).unwrap();
        result.extend_from_slice(&temp_buffer);
    }
    let mut end_buffer = [0u8; 3];
    read(&mut server_stream, &mut end_buffer).unwrap();
    result.extend_from_slice(&end_buffer);

    assert_eq!(result.len(), 8195);
    assert!(result[0..4096].iter().all(|&x| x == 65));
    assert!(result[4096..8192].iter().all(|&x| x == 66));
    assert_eq!(&result[8192..8195], b"end");
}

#[test]
fn closed_stream_refuses_everything() {
    let (client, _server) = bipipe();
    let mut stream = OwnedFdStream::new(client);
    close(&mut stream).unwrap();
    let broken = Errno { code: EPIPE };
    assert_eq!(try_read(&mut stream, &mut [0; 4]), Err(broken));
    assert_eq!(read(&mut stream, &mut [0; 4]), Err(broken));
    assert_eq!(read(&mut stream, &mut []), Ok(()));
    assert_eq!(write(&mut stream, b"x"), Err(broken));
    assert_eq!(writev(&mut stream, &[b"x"]), Err(broken));
    assert_eq!(stream.shutdown(), Err(broken));
    assert_eq!(close(&mut stream), Err(broken));
    let (read_half, write_half) = split(stream);
    assert!(read_half.as_fd().is_none());
    assert!(write_half.as_fd().is_none());
}

#[test]
fn split_keeps_what_was_buffered() {
    let (client, server) = bipipe();
    let mut stream = OwnedFdStream::new(client);
    let mut server_stream = OwnedFdStream::new(server);
    write(&mut server_stream, b"one two").unwrap();
    let mut word = [0u8; 3];
    read(&mut stream, &mut word).unwrap();
    assert_eq!(&word, b"one");
    let (mut read_stream, _write_stream) = split(stream);
    let mut rest = [0u8; 4];
    read(&mut read_stream, &mut rest).unwrap();
    assert_eq!(&rest, b" two");
}

#[test]
fn failed_duplication_fails_the_split() {
    let (client, _server) = bipipe();
    let stream = OwnedFdStream::new(client);
    match stream.split(Some(Err(Some(24)))) {
        Ok(_) => panic!("split without a duplicate"),
        Err(e) => assert_eq!(e, Errno { code: 24 }),
    }
    assert_eq!(clone_error(Some(24)), Errno { code: 24 });
}

#[test]
fn write_that_takes_nothing_fails() {
    let (client, _server) = bipipe();
    let mut stream = OwnedFdStream::new(client);
    let mut done = 0;
    assert!(matches!(stream.write(3, &mut done, WriteEvent::Begin), WriteStep::Write));
    assert!(matches!(stream.write(3, &mut done, WriteEvent::Wrote(Ok(2))), WriteStep::Write));
    assert_eq!(done, 2);
    match stream.write(3, &mut done, WriteEvent::Wrote(Ok(0))) {
        WriteStep::Done(result) => assert_eq!(result, Err(Errno { code: EPIPE })),
        WriteStep::Write => panic!("the stream takes nothing"),
    }
}

#[test]
fn empty_buffers_are_written_at_once() {
    let (client, server) = bipipe();
    let mut stream = OwnedFdStream::new(client);
    assert_eq!(writev(&mut stream, &[b""]), Ok(()));
    assert_eq!(writev(&mut stream, &[b"", b""]), Ok(()));
    assert_eq!(writev(&mut stream, &[]), Ok(()));
    assert_eq!(writev(&mut stream, &[b"", b"x", b""]), Ok(()));
    drop(stream);
    let mut server_stream = OwnedFdStream::new(server);
    let mut buffer = [0u8; 8];
    assert_eq!(try_read(&mut server_stream, &mut buffer), Ok(1));
    assert_eq!(try_read(&mut server_stream, &mut buffer), Ok(0));
}

#[test]
fn short_vectored_write_goes_on_where_it_stopped() {
    let (client, _server) = bipipe();
    let mut stream = OwnedFdStream::new(client);
    let lens = vec![3, 0, 4, 2];
    let mut at = WritePosition { index: 0, offset: 0 };
    assert!(matches!(stream.writev(&lens, &mut at, WriteEvent::Begin), WriteStep::Write));
    assert!(matches!(stream.writev(&lens, &mut at, WriteEvent::Wrote(Ok(5))), WriteStep::Write));
    assert_eq!((at.index, at.offset), (2, 2));
    assert!(matches!(
        stream.writev(&lens, &mut at, WriteEvent::Wrote(Ok(4))),
        WriteStep::Done(Ok(()))
    ));
    assert_eq!(at.index, 4);
}

#[test]
fn test_sync_buffered_stream() {
    let data = b"Hello, world!";
    let data2 = b"Hello, world!2";

    // External data source
    let mut s: Vec<u8> = Vec::new();
    let mut buff_s = SyncBufferedStream::new();
    let mut read_buf = [0u8; 1024];
    {
        s.extend_from_slice(data);
        buff_s.fill_read_buff(&std::mem::take(&mut s));

        assert_eq!(buff_s.read(&mut read_buf), BufferedRead::Read(data.len()));
        assert_eq!(&read_buf[..data.len()], data);

        // stream is empty now, and would block on read
        assert_eq!(buff_s.read(&mut read_buf), BufferedRead::WouldBlock);
    }
    // test for various sizes of writes
    for i in 1..data2.len() {
        let chunk = &data2[0..i];
        assert_eq!(buff_s.write(chunk), chunk.len());
        s.extend_from_slice(buff_s.pending_writes().unwrap());
        assert_eq!(buff_s.flush_write_buff(Ok(())), Ok(chunk.len()));
        assert!(buff_s.pending_writes().is_none());
        // read again.
        assert!(s.len() <= FILL_SIZE);
        buff_s.fill_read_buff(&std::mem::take(&mut s));
        assert_eq!(buff_s.read(&mut read_buf), BufferedRead::Read(chunk.len()));
        assert_eq!(&read_buf[..chunk.len()], chunk);
    }
}

#[test]
fn buffered_bytes_survive_a_failed_flush() {
    let mut s = SyncBufferedStream::new();
    s.write(b"abc");
    assert_eq!(s.flush_write_buff(Err(Errno { code: EPIPE })), Err(Errno { code: EPIPE }));
    assert_eq!(s.pending_writes().unwrap(), &b"abc".to_vec());
    s.fill_read_buff(&b"wxyz".to_vec());
    let mut two = [0u8; 2];
    assert_eq!(s.read(&mut two), BufferedRead::Read(2));
    assert_eq!(&two, b"wx");
    assert_eq!(s.read(&mut two), BufferedRead::Read(2));
    assert_eq!(&two, b"yz");
    s.fill_read_buff(&Vec::new());
    assert_eq!(s.read(&mut two), BufferedRead::Read(0));
}

#[test]
fn buffered_read_is_of_the_first_segment() {
    let mut s = SyncBufferedStream::new();
    s.fill_read_buff(&b"abcdef".to_vec());
    let mut buf = [0u8; 8];
    assert_eq!(s.read_segment(4, &mut buf), BufferedRead::Read(4));
    assert_eq!(&buf[..4], b"abcd");
    assert_eq!(s.read_segment(2, &mut buf[..1]), BufferedRead::Read(1));
    assert_eq!(buf[0], b'e');
    assert_eq!(s.read(&mut buf), BufferedRead::Read(1));
    assert_eq!(buf[0], b'f');
    assert_eq!(s.read_segment(0, &mut buf), BufferedRead::WouldBlock);
}

#[test]
fn buffered_reads_keep_order_however_they_lie() {
    let mut s = SyncBufferedStream::new();
    let mut expected = Vec::new();
    let mut got = Vec::new();
    let mut next = 0u8;
    for round in 0..200usize {
        let data: Vec<u8> = (0..1 + round % 13).map(|_| { next = next.wrapping_add(1); next }).collect();
        expected.extend_from_slice(&data);
        s.fill_read_buff(&data);
        let mut buf = [0u8; 7];
        match s.read(&mut buf) {
            BufferedRead::Read(n) => got.extend_from_slice(&buf[..n]),
            BufferedRead::WouldBlock => panic!("there are bytes"),
        }
    }
    let mut buf = [0u8; 64];
    while let BufferedRead::Read(n) = s.read(&mut buf) {
        got.extend_from_slice(&buf[..n]);
    }
    assert_eq!(got, expected);
}

type Event = SslEvent<u32>;
type Action = SslAction<u32>;

#[test]
fn handshake_sends_before_it_reads() {
    let mut d = SslDriver::new(SslOp::Handshake);
    assert!(matches!(d.step(Event::Begin), Action::Call));
    assert!(matches!(d.step(Event::Called(SslOutcome::WouldBlock)), Action::Flush));
    assert!(matches!(d.step(Event::Flushed(Ok(5))), Action::Call));
    assert!(matches!(d.step(Event::Called(SslOutcome::WouldBlock)), Action::Flush));
    assert!(matches!(d.step(Event::Flushed(Ok(0))), Action::Fill));
    assert!(matches!(d.step(Event::Filled(Ok(()))), Action::Call));
    assert!(matches!(d.step(Event::Called(SslOutcome::Done(0))), Action::Flush));
    assert!(matches!(d.step(Event::Flushed(Ok(7))), Action::Done(Ok(0))));
}

#[test]
fn tls_read_write_and_shutdown() {
    let mut d = SslDriver::new(SslOp::Read);
    assert!(matches!(d.step(Event::Begin), Action::Call));
    assert!(matches!(d.step(Event::Called(SslOutcome::WouldBlock)), Action::Fill));
    assert!(matches!(d.step(Event::Filled(Ok(()))), Action::Call));
    assert!(matches!(d.step(Event::Called(SslOutcome::Done(3))), Action::Done(Ok(3))));

    let mut d = SslDriver::new(SslOp::Write);
    assert!(matches!(d.step(Event::Begin), Action::Call));
    assert!(matches!(d.step(Event::Called(SslOutcome::WouldBlock)), Action::Flush));
    assert!(matches!(d.step(Event::Flushed(Ok(0))), Action::Call));
    assert!(matches!(d.step(Event::Called(SslOutcome::Done(9))), Action::Flush));
    assert!(matches!(d.step(Event::Flushed(Ok(30))), Action::Done(Ok(9))));

    let mut d = SslDriver::new(SslOp::Shutdown);
    assert!(matches!(d.step(Event::Begin), Action::Flush));
    assert!(matches!(d.step(Event::Flushed(Ok(0))), Action::Call));
    assert!(matches!(d.step(Event::Called(SslOutcome::WouldBlock)), Action::Flush));
    assert!(matches!(d.step(Event::Flushed(Ok(0))), Action::Fill));
    assert!(matches!(d.step(Event::Filled(Ok(()))), Action::Call));
    assert!(matches!(d.step(Event::Called(SslOutcome::Done(1))), Action::Done(Ok(1))));
}

#[test]
fn tls_failures_end_the_operation() {
    let broken = Errno { code: EPIPE };
    let mut d = SslDriver::new(SslOp::Write);
    d.step(Event::Begin);
    match d.step(Event::Called(SslOutcome::Failed(17))) {
        Action::Done(Err(SslError::Engine(e))) => assert_eq!(e, 17),
        _ => panic!("the engine failed"),
    }
    match d.step(Event::Flushed(Err(broken))) {
        Action::Done(Err(SslError::Stream(e))) => assert_eq!(e, broken),
        _ => panic!("the stream failed"),
    }
    match d.step(Event::Filled(Err(broken))) {
        Action::Done(Err(SslError::Stream(e))) => assert_eq!(e, broken),
        _ => panic!("the stream failed"),
    }
}

#[test]
fn exact_read_fails_at_the_end() {
    let mut total = 0;
    assert_eq!(read_exact(5, &mut total, None), ExactStep::More);
    assert_eq!(read_exact(5, &mut total, Some(Ok(3))), ExactStep::More);
    assert_eq!(read_exact(5, &mut total, Some(Ok(2))), ExactStep::Done(Ok(())));
    let mut total = 0;
    assert_eq!(
        read_exact(5, &mut total, Some(Ok(0))),
        ExactStep::Done(Err(Errno { code: EPIPE }))
    );
    assert_eq!(read_exact(0, &mut 0, None), ExactStep::Done(Ok(())));
    assert_eq!(
        read_exact(5, &mut total, Some(Err(Errno { code: 5 }))),
        ExactStep::Done(Err(Errno { code: 5 }))
    );
}

#[test]
fn tls_write_takes_the_buffer_in_parts() {
    let mut total = 0;
    assert_eq!(write_all(20_000, &mut total, None), ExactStep::More);
    assert_eq!(write_all(20_000, &mut total, Some(Ok(16_384))), ExactStep::More);
    assert_eq!(total, 16_384);
    assert_eq!(write_all(20_000, &mut total, Some(Ok(3_616))), ExactStep::Done(Ok(())));
}

#[test]
fn echo_sends_back_what_it_reads() {
    let (client, server) = bipipe();
    let mut client = OwnedFdStream::new(client);
    let mut server = OwnedFdStream::new(server);
    write(&mut client, b"ping").unwrap();
    shutdown(&mut client).unwrap();
    let mut buffer = [0u8; 64];
    let mut event = EchoEvent::Connected;
    loop {
        event = match echo_step(event) {
            EchoAction::Read => EchoEvent::Read(try_read(&mut server, &mut buffer)),
            EchoAction::Write(n) => EchoEvent::Written(write(&mut server, &buffer[..n])),
            EchoAction::ShutDown => EchoEvent::ShutDown(shutdown(&mut server)),
            EchoAction::Close => EchoEvent::Closed(close(&mut server)),
            EchoAction::Done => break,
        };
    }
    let mut answer = [0u8; 4];
    read(&mut client, &mut answer).unwrap();
    assert_eq!(&answer, b"ping");
    assert_eq!(try_read(&mut client, &mut answer), Ok(0));
    assert_eq!(echo_step(EchoEvent::Read(Err(Errno { code: 5 }))), EchoAction::ShutDown);
    assert_eq!(echo_step(EchoEvent::Written(Err(Errno { code: 5 }))), EchoAction::ShutDown);
}
