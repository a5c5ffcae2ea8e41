//! Requests, addresses, times, statistics, traces and TLS answers.

use kimojio::async_event::AsyncEvent;
use kimojio::errno::{self, Errno, TimeoutError};
use kimojio::operations::{
    io_scope_drain_start, io_scope_drain_step, DrainStep, ErrnoOrFuture, IsIoPoll,
};
use kimojio::requests::{self, Entry, IOType, SocketPlan};
use kimojio::runtime::kernel_supported;
use kimojio::sleep::{map_timeout_poll, timeout_at};
use kimojio::sockaddr::{
    connect, connect_unix, sockaddr6_from_socketaddrv6, sockaddr_from_socketaddr,
    sockaddr_from_socketaddr_unix, SockaddrIn6, Sockaddr, SocketAddr, SocketAddrUnix,
    SocketAddrV4, SocketAddrV6, AF_INET, AF_INET6, AF_UNIX, SOCKADDR_IN6_LEN, SOCKADDR_IN_LEN,
};
use kimojio::socket_helpers::{client_domain, keep_alive, server_address, LISTEN_BACKLOG};
use kimojio::stats::{EnterStats, URingStats};
use kimojio::task::TaskState;
use kimojio::task_future::{FutureOrResult, Poll, TaskFuture};
use kimojio::text::trace_line;
use kimojio::time::{Duration, Instant};
use kimojio::tls::{
    error_line, error_text, get_error_details, get_response, get_ssl_error, tls_version,
    version_from, wants_ssl_errors, ErrorDetails, OpensslErrorType, RawError, Response, TlsServer,
    TlsServerContext, TlsServerError,
};
use kimojio::tracing::{EventEnvelope, Events, TraceBuffer};

#[test]
fn error_numbers_are_the_systems() {
    assert_eq!(errno::EPERM, libc::EPERM);
    assert_eq!(errno::ENOENT, libc::ENOENT);
    assert_eq!(errno::EINTR, libc::EINTR);
    assert_eq!(errno::EIO, libc::EIO);
    assert_eq!(errno::EBADF, libc::EBADF);
    assert_eq!(errno::EAGAIN, libc::EAGAIN);
    assert_eq!(errno::EBUSY, libc::EBUSY);
    assert_eq!(errno::EEXIST, libc::EEXIST);
    assert_eq!(errno::ENOTDIR, libc::ENOTDIR);
    assert_eq!(errno::EINVAL, libc::EINVAL);
    assert_eq!(errno::EPIPE, libc::EPIPE);
    assert_eq!(errno::ENOSYS, libc::ENOSYS);
    assert_eq!(errno::ETIME, libc::ETIME);
    assert_eq!(errno::EPROTO, libc::EPROTO);
    assert_eq!(errno::EBADFD, libc::EBADFD);
    assert_eq!(errno::ENOTSUP, libc::ENOTSUP);
    assert_eq!(errno::ENOTCONN, libc::ENOTCONN);
    assert_eq!(errno::ESHUTDOWN, libc::ESHUTDOWN);
    assert_eq!(errno::ETIMEDOUT, libc::ETIMEDOUT);
    assert_eq!(errno::EALREADY, libc::EALREADY);
    assert_eq!(errno::EINPROGRESS, libc::EINPROGRESS);
    assert_eq!(errno::ECANCELED, libc::ECANCELED);
    assert_eq!(errno::ENOTRECOVERABLE, libc::ENOTRECOVERABLE);
    assert_eq!(Errno::from_raw_os_error(5).raw_os_error(), 5);
}

#[test]
fn durations_and_instants() {
    let d = Duration::from_parts(3, 500_000_000);
    assert_eq!(d.as_millis(), 3500);
    assert_eq!(d.as_micros(), 3_500_000);
    assert_eq!((d.as_secs(), d.subsec_nanos()), (3, 500_000_000));
    assert!(Duration::from_nanos(0).is_zero());
    let t = Instant::from_nanos(-5).unwrap();
    let later = t.checked_add(Duration::from_nanos(12)).unwrap();
    assert_eq!(later.as_nanos(), 7);
    assert_eq!(later.checked_duration_since(t), Some(Duration::from_nanos(12)));
    assert_eq!(t.checked_duration_since(later), None);
    assert!(t.saturating_duration_since(later).is_zero());
    assert!(t.at_or_before(later));
    assert!(!later.at_or_before(t));
    assert!(Instant::from_nanos(i128::MAX).is_none());
}

#[test]
fn requests_carry_their_arguments() {
    let r = requests::open(0x1000, 0o102, 0o644);
    assert_eq!(r.entry, Entry::OpenAt { dirfd: libc::AT_FDCWD, path: 0x1000, flags: 0o102, mode: 0o644 });
    assert_eq!((r.fd, r.io_type), (-1, IOType::Open));
    let r = requests::rmdir(0x1000);
    assert_eq!(r.entry, Entry::UnlinkAt { dirfd: libc::AT_FDCWD, path: 0x1000, directory: true });
    let r = requests::unlink(0x1000);
    assert_eq!(r.entry, Entry::UnlinkAt { dirfd: libc::AT_FDCWD, path: 0x1000, directory: false });
    assert_eq!(
        requests::rename(1, 2).entry,
        Entry::RenameAt { olddirfd: -100, oldpath: 1, newdirfd: -100, newpath: 2 }
    );
    assert_eq!(
        requests::link(1, 2).entry,
        Entry::LinkAt { olddirfd: -100, oldpath: 1, newdirfd: -100, newpath: 2 }
    );
    assert_eq!(
        requests::symlink(1, 2).entry,
        Entry::SymlinkAt { newdirfd: -100, target: 1, linkpath: 2 }
    );
    assert_eq!(
        requests::fstat(4, 9).entry,
        Entry::Statx { dirfd: 4, path: None, statx: 9 }
    );
    let r = requests::fallocate(4, 0, 10, 20);
    assert_eq!(r.entry, Entry::Fallocate { fd: 4, mode: 0, offset: 10, len: 20 });
    let r = requests::send(4, 0x2000, 100, 2, Some(Duration::from_millis(7)));
    assert_eq!(r.entry, Entry::Send { fd: 4, buf: 0x2000, len: 100, flags: 2 });
    assert_eq!(r.timeout, Some(Duration::from_millis(7)));
    let r = requests::readv(4, 0x3000, 3, None);
    assert_eq!(r.entry, Entry::Readv { fd: 4, iovec: 0x3000, count: 3, offset: u64::MAX });
    let r = requests::writev_with_timeout(4, 0x3000, 3, Some(9), None);
    assert_eq!(r.entry, Entry::Writev { fd: 4, iovec: 0x3000, count: 3, offset: 9 });
    let r = requests::pread_polled(4, 0x2000, 16, 32, true);
    assert_eq!(r.entry, Entry::Read { fd: 4, buf: 0x2000, len: 16, offset: 32 });
    assert!(r.is_io_poll());
    assert!(!requests::pread(4, 0x2000, 16, 32).is_io_poll());
    let r = requests::timeout(Duration::from_secs(1));
    assert_eq!(r.entry, Entry::Timeout { duration: Duration::from_secs(1) });
    assert_eq!(requests::nop().entry, Entry::Nop);
    assert_eq!(requests::shutdown(4, 1).entry, Entry::Shutdown { fd: 4, how: 1 });
    assert_eq!(requests::uring_cmd_polled(4, 1, [7; 80]).entry,
        Entry::UringCmd80 { fd: 4, op: 1, cmd: [7; 80] });
}

#[test]
fn sockets_are_made_by_the_ring_where_it_can() {
    match requests::socket(2, 1, Some(6), true) {
        SocketPlan::Ring(request) => {
            assert_eq!(
                request.entry,
                Entry::Socket { domain: 2, socket_type: 1, protocol: 6 }
            );
        }
        _ => panic!("the ring makes sockets"),
    }
    assert!(!matches!(requests::socket(2, 1, None, false), SocketPlan::Ring(_)));
}

#[test]
fn deadlines_become_timeouts() {
    let state = TaskState::new();
    let now = Instant::from_nanos(1_000).unwrap();
    let deadline = Instant::from_nanos(4_000).unwrap();
    let past = Instant::from_nanos(999).unwrap();
    assert_eq!(
        requests::timeout_until(&state, Some(deadline), now),
        Ok(Some(Duration::from_nanos(3_000)))
    );
    assert_eq!(requests::timeout_until(&state, None, now), Ok(None));
    assert_eq!(
        requests::timeout_until(&state, Some(past), now),
        Err(Errno { code: errno::ETIMEDOUT })
    );
    match requests::write_with_deadline(&state, 3, 0x2000, 5, Some(past), now) {
        ErrnoOrFuture::Error { errno } => assert_eq!(errno.code, errno::ETIMEDOUT),
        ErrnoOrFuture::Future { .. } => panic!("the deadline passed"),
    }
    match requests::writev_with_deadline(&state, 3, 0x3000, 5, None, Some(deadline), now) {
        ErrnoOrFuture::Future { fut } => {
            let expired = Err(Errno { code: errno::ETIME });
            assert_eq!(fut.report(expired), Err(Errno { code: errno::ETIMEDOUT }));
            assert_eq!(fut.report(Ok(5)), Ok(5));
        }
        ErrnoOrFuture::Error { .. } => panic!("the deadline did not pass"),
    }
    match requests::write(3, 0x2000, 5) {
        ErrnoOrFuture::Future { fut } => {
            let expired = Err(Errno { code: errno::ETIME });
            assert_eq!(fut.report(expired), Err(Errno { code: errno::ETIME }));
        }
        ErrnoOrFuture::Error { .. } => panic!("there is no deadline"),
    }
}

#[test]
fn addresses_for_the_kernel() {
    assert_eq!(AF_UNIX as i32, libc::AF_UNIX);
    assert_eq!(AF_INET as i32, libc::AF_INET);
    assert_eq!(AF_INET6 as i32, libc::AF_INET6);
    assert_eq!(SOCKADDR_IN_LEN as usize, std::mem::size_of::<libc::sockaddr_in>());
    assert_eq!(SOCKADDR_IN6_LEN as usize, std::mem::size_of::<libc::sockaddr_in6>());
    let v4 = SocketAddrV4 { octets: [127, 0, 0, 1], port: 0x1f90 };
    let s = sockaddr_from_socketaddr(&v4);
    assert_eq!((s.sin_family, s.sin_port, s.sin_addr), (AF_INET, [0x1f, 0x90], [127, 0, 0, 1]));
    let mut octets = [0; 16];
    octets[15] = 1;
    let v6 = SocketAddrV6 { octets, port: 80, flowinfo: 7, scope_id: 3 };
    assert_eq!(
        sockaddr6_from_socketaddrv6(&v6),
        SockaddrIn6 {
            sin6_family: AF_INET6,
            sin6_port: [0, 80],
            sin6_flowinfo: 7,
            sin6_addr: octets,
            sin6_scope_id: 3,
        }
    );
    let (request, addr) = connect(5, &SocketAddr::V4(v4), 0x4000);
    assert_eq!(request.entry, Entry::Connect { fd: 5, addr: 0x4000, addr_len: 16 });
    assert!(matches!(addr, Sockaddr::In(_)));
    let (request, addr) = connect(5, &SocketAddr::V6(v6), 0x4000);
    assert_eq!(request.entry, Entry::Connect { fd: 5, addr: 0x4000, addr_len: 28 });
    assert!(matches!(addr, Sockaddr::In6(_)));
}

#[test]
fn unix_domain_socket_addresses() {
    let name = SocketAddrUnix::Abstract(b"unix_domain_socket_test".to_vec());
    let (s, len) = sockaddr_from_socketaddr_unix(&name);
    assert_eq!(len, 23 + 1 + 2);
    assert_eq!(s.sun_family, AF_UNIX);
    assert_eq!(s.sun_path.len(), 108);
    assert_eq!(s.sun_path[0], 0);
    assert_eq!(&s.sun_path[1..24], b"unix_domain_socket_test");
    assert!(s.sun_path[24..].iter().all(|b| *b == 0));
    let path = SocketAddrUnix::Path(b"/tmp/socket".to_vec());
    let (request, s) = connect_unix(5, &path, 0x4000);
    assert_eq!(request.entry, Entry::Connect { fd: 5, addr: 0x4000, addr_len: 13 });
    assert_eq!(&s.sun_path[..12], b"/tmp/socket\0");
}

#[test]
fn socket_set_up() {
    let k = keep_alive();
    assert_eq!((k.idle.as_secs(), k.interval.as_secs(), k.probes), (30, 1, 30));
    assert_eq!(server_address(7878).port, 7878);
    assert_eq!(server_address(7878).octets, [0; 16]);
    assert_eq!(LISTEN_BACKLOG, 128);
    let v4 = SocketAddrV4 { octets: [0; 4], port: 1 };
    assert_eq!(client_domain(&SocketAddr::V4(v4)), AF_INET);
    assert_eq!(client_domain(&SocketAddr::V6(server_address(1))), AF_INET6);
}

#[test]
fn statistics_count() {
    let mut s = URingStats::new();
    s.increment_in_flight(false, 3);
    s.increment_in_flight(true, 2);
    s.decrement_in_flight(false, 1);
    assert_eq!((s.in_flight_io, s.in_flight_io_poll), (2, 2));
    let mut e = EnterStats::new();
    assert!(e.report(1).is_none());
    e.start(100);
    e.stop(110);
    e.start(200);
    e.stop(230);
    let r = e.report(2).unwrap();
    assert_eq!((r.count, r.sum_ns, r.avg_ns, r.min_ns, r.max_ns), (2, 20_000, 40_000, 5_000, 15_000));
    assert!(e.can_report(2));
    e.sum = u64::MAX / 1000 + 1;
    assert!(!e.can_report(2));
}

#[test]
fn trace_lines() {
    let activity_id = 0x0123456789abcdef0123456789abcdef;
    let line = |event| trace_line(&EventEnvelope { thread_index: 3, task_index: 12, event });
    let io_end = line(Events::IoEnd { activity_id, result: -7, tag: 40 });
    assert!(io_end.starts_with("io_end"));
    assert!(io_end.ends_with(
        ", result: -7, tag: 40, activity_id: 01234567-89ab-cdef-0123-456789abcdef"
    ));
    let scheduled =
        line(Events::TaskScheduled { activity_id, tenant_id: 0, tag: 1, io: true });
    assert!(scheduled.ends_with(
        ", tag: 1, activity_id: 01234567-89ab-cdef-0123-456789abcdef, \
         tenant_id: 00000000-0000-0000-0000-000000000000, io: true"
    ));
    let ring = line(Events::RingEnterEnd {
        submissions: 1,
        in_flight_io: 2,
        start_time: 3,
        completions: 4,
        tag: 5,
        task_count: 6,
        want: true,
        iopoll: false,
    });
    assert!(ring.ends_with(
        ", task_count: 6, want: true, submissions: 1, in_flight_io: 2, completions: 4, tag: 5, \
         iopoll: false, start_time: 3"
    ));
}

#[test]
fn trace_buffer_keeps_events_in_order() {
    let mut b = TraceBuffer::new();
    b.write_event(1, Events::FutureCanceled { activity_id: 1 });
    assert!(b.drain().is_empty());
}

#[test]
fn kernel_versions() {
    assert!(kernel_supported((5, 15)));
    assert!(kernel_supported((6, 0)));
    assert!(!kernel_supported((5, 14)));
    assert!(!kernel_supported((4, 19)));
}

#[test]
fn tls_versions() {
    assert_eq!(version_from(0x1010117f), (1, 1, 23));
    let linked = tls_version();
    assert!(linked.0 >= 1);
    assert_eq!(linked, version_from(openssl::version::number() as u64));
}

#[test]
fn tls_answers() {
    let answer = |error_type, error_code| {
        get_response(RawError { error_type, error_code }, vec![1, 2])
    };
    assert_eq!(answer(0, 42), Response::Success(42));
    assert_eq!(answer(1, 0), Response::Fail(TlsServerError::TlsError(vec![1, 2])));
    assert_eq!(answer(2, 2), Response::WantRead);
    assert_eq!(answer(2, 3), Response::WantWrite);
    assert_eq!(answer(2, 6), Response::Eof);
    assert_eq!(answer(2, 1), Response::Fail(TlsServerError::TlsError(vec![1, 2])));
    assert_eq!(
        answer(2, 99),
        Response::Fail(TlsServerError::Errno(Errno { code: errno::EINVAL }))
    );
    assert_eq!(
        answer(2, 9),
        Response::Fail(TlsServerError::Errno(Errno { code: errno::EPROTO }))
    );
    assert_eq!(answer(3, 13), Response::Fail(TlsServerError::Errno(Errno { code: 13 })));
    assert_eq!(answer(4, 0), Response::Eof);
    assert_eq!(answer(5, 0), Response::WantWrite);
    assert_eq!(answer(6, 0), Response::WantRead);
    assert_eq!(OpensslErrorType::from_code(5), OpensslErrorType::SSL_ERROR_SYSCALL);
    assert_eq!(OpensslErrorType::from_code(13), OpensslErrorType::InvalidErrorCode);
}

#[test]
fn tls_errors_are_those_of_the_queue() {
    let mut codes = Vec::new();
    for code in [7, 9, 0] {
        assert_eq!(get_ssl_error(&mut codes, code), code != 0);
    }
    assert_eq!(codes, vec![7, 9]);
    let wanted: Vec<(i32, i32)> = (0..=6)
        .flat_map(|t| (0..=13).map(move |c| (t, c)))
        .filter(|(error_type, error_code)| {
            wants_ssl_errors(RawError { error_type: *error_type, error_code: *error_code })
        })
        .filter(|(error_type, _)| *error_type != 1)
        .collect();
    assert_eq!(wanted, vec![(2, 1), (2, 5)]);
    let failed = RawError { error_type: 1, error_code: 0 };
    assert!(wants_ssl_errors(failed));
    assert_eq!(
        get_response(failed, codes),
        Response::Fail(TlsServerError::TlsError(vec![7, 9]))
    );
}

#[test]
fn tls_contexts_and_texts() {
    match TlsServerContext::created(Response::Success(0), 77) {
        Ok(server) => assert_eq!(server.server, 77),
        Err(_) => panic!("it was created"),
    }
    let refused = Response::Fail(TlsServerError::Errno(Errno { code: 12 }));
    match TlsServerContext::created(refused, 0) {
        Ok(_) => panic!("it was not created"),
        Err(e) => assert_eq!(e, TlsServerError::Errno(Errno { code: 12 })),
    }
    assert_eq!(TlsServer::buffer_size(1, 10), Some(10));
    assert_eq!(TlsServer::buffer_size(0, 10), None);
    let d = ErrorDetails {
        code: 10,
        lib: "SSL".to_string(),
        func: "f".to_string(),
        reason: "no".to_string(),
    };
    assert_eq!(error_line(&d), "TlsError error:10 lib:SSL func:f reason:no\n");
    assert_eq!(error_text(&vec![]), "");
    assert_eq!(
        error_text(&vec![d]),
        "TlsError error:10 lib:SSL func:f reason:no\n"
    );
    assert_eq!(
        get_error_details(None, Some("f".to_string()), None),
        ("".to_string(), "f".to_string(), None)
    );
}

#[test]
fn timers_and_races() {
    assert_eq!(
        map_timeout_poll(Poll::Ready(Err(Errno { code: errno::ETIME }))),
        Poll::Ready(Ok(()))
    );
    let canceled = Errno { code: errno::ECANCELED };
    assert_eq!(map_timeout_poll(Poll::Ready(Err(canceled))), Poll::Ready(Err(canceled)));
    assert_eq!(
        timeout_at(Poll::<i32>::Pending, Poll::Ready(Err(canceled))),
        Poll::Ready(Err(TimeoutError::Canceled))
    );
    assert_eq!(
        timeout_at(Poll::Ready(1), Poll::Ready(Ok(()))),
        Poll::Ready(Ok(1))
    );
    let now = Instant::from_nanos(5).unwrap();
    assert_eq!(AsyncEvent::wait_with_timeout(None, now), None);
    assert_eq!(
        AsyncEvent::wait_with_timeout(Some(Duration::from_nanos(4)), now),
        Instant::from_nanos(9)
    );
}

#[test]
fn drained_futures_give_the_first_error() {
    assert!(io_scope_drain_start::<i32, i32>(&Err(7)));
    assert!(!io_scope_drain_start::<i32, i32>(&Ok(1)));
    assert!(matches!(
        io_scope_drain_step::<i32, i32, i32>(Ok(1), Ok(2)),
        DrainStep::Accumulate(1, 2)
    ));
    assert!(matches!(io_scope_drain_step::<i32, i32, i32>(Ok(1), Err(7)), DrainStep::Fail(7)));
    assert!(matches!(
        io_scope_drain_step::<i32, i32, i32>(Err(7), Err(8)),
        DrainStep::Keep(Err(7))
    ));
    assert!(matches!(
        io_scope_drain_step::<i32, i32, i32>(Err(7), Ok(8)),
        DrainStep::Keep(Err(7))
    ));
}

#[test]
fn task_result_is_taken_once() {
    let mut f: TaskFuture<(), i32, &str> = TaskFuture::Future { future: () };
    assert_eq!(f.result(), None);
    assert_eq!(f.poll(Ok(Poll::Pending)), Poll::Pending);
    assert_eq!(f.poll(Ok(Poll::Ready(3))), Poll::Ready(()));
    assert_eq!(f.result(), Some(Ok(3)));
    assert_eq!(f.result(), None);
    let mut f: TaskFuture<(), i32, &str> = TaskFuture::Future { future: () };
    assert_eq!(f.poll(Err("abort!")), Poll::Ready(()));
    assert_eq!(f.result(), Some(Err("abort!")));
}
