//! The drivers of the event loop, and the futures that wait on them.

use kimojio::backend::epoll::{
    EpollCommand, EpollDriver, EpollEvent, EPOLLERR, EPOLLHUP, EPOLLIN, EPOLLOUT, EVENTFD_TOKEN,
};
use kimojio::backend::io_uring::submit_and_wait;
use kimojio::backend::select_driver::{PollFd, SelectDriver, SelectPlan, POLLOUT, POLLRDNORM};
use kimojio::epoll_future::{
    EpollOwnedFdFuture, EpollUnitFuture, EpollUsizeFuture, PollBegin, PollEnd,
};
use kimojio::errno::{Errno, EAGAIN, EBUSY, EINTR, EINVAL, ETIME};
use kimojio::iocp_future::{IocpBegin, IocpOwnedFdFuture, IocpUnitFuture, IocpUsizeFuture};
use kimojio::model::Waker;
use kimojio::task_future::Poll;
use kimojio::time::Duration;

#[test]
fn epoll_flags_have_the_kernels_values() {
    assert_eq!(EPOLLIN, libc::EPOLLIN as u32);
    assert_eq!(EPOLLOUT, libc::EPOLLOUT as u32);
    assert_eq!(EPOLLERR, libc::EPOLLERR as u32);
    assert_eq!(EPOLLHUP, libc::EPOLLHUP as u32);
}

#[test]
fn epoll_watches_each_direction_once() {
    let mut d = EpollDriver::new();
    assert_eq!(
        d.register_read(5, Waker::Task(1)),
        EpollCommand::Add { fd: 5, flags: EPOLLIN }
    );
    assert_eq!(
        d.register_write(5, Waker::Task(2)),
        EpollCommand::Modify { fd: 5, flags: EPOLLIN | EPOLLOUT }
    );
    let ready = d.collect_ready(&vec![
        EpollEvent { token: 5, flags: EPOLLIN },
        EpollEvent { token: EVENTFD_TOKEN, flags: EPOLLIN },
    ]);
    assert_eq!(ready.wakers, vec![Waker::Task(1)]);
    assert_eq!(ready.interrupts, 1);
    assert!(ready.deleted.is_empty());
    let ready = d.collect_ready(&vec![EpollEvent { token: 5, flags: EPOLLHUP }]);
    assert_eq!(ready.wakers, vec![Waker::Task(2)]);
    assert_eq!(ready.deleted, vec![5]);
    assert!(!d.deregister(5));
}

#[test]
fn epoll_hang_up_wakes_both_directions() {
    let mut d = EpollDriver::new();
    d.register_read(9, Waker::Task(1));
    d.register_write(9, Waker::Foreign(2));
    let ready = d.collect_ready(&vec![EpollEvent { token: 9, flags: EPOLLERR }]);
    assert_eq!(ready.wakers, vec![Waker::Task(1), Waker::Foreign(2)]);
    assert_eq!(ready.deleted, vec![9]);
}

#[test]
fn epoll_deregistered_descriptor_wakes_nobody() {
    let mut d = EpollDriver::new();
    d.register_read(9, Waker::Task(1));
    assert!(d.deregister(9));
    assert!(!d.deregister(9));
    let ready = d.collect_ready(&vec![EpollEvent { token: 9, flags: EPOLLIN }]);
    assert!(ready.wakers.is_empty());
}

#[test]
fn epoll_waits_ten_milliseconds_at_most() {
    assert_eq!(EpollDriver::collect_timeout(0), 0);
    assert_eq!(EpollDriver::collect_timeout(1), 10_000_000);
}

#[test]
fn select_polls_all_that_wait() {
    let mut d = SelectDriver::new();
    assert!(matches!(d.plan(0), SelectPlan::Sleep { millis: 0 }));
    assert!(matches!(d.plan(1), SelectPlan::Sleep { millis: 10 }));
    d.register_read(3, Waker::Task(1));
    d.register_write(4, Waker::Task(2));
    let fds = match d.plan(1) {
        SelectPlan::Poll { fds, timeout_ms } => {
            assert_eq!(timeout_ms, 10);
            fds
        }
        SelectPlan::Sleep { .. } => panic!("somebody waits"),
    };
    let planned: Vec<(u64, i16)> = fds.iter().map(|p| (p.fd, p.events)).collect();
    assert_eq!(planned, vec![(3, POLLRDNORM), (4, POLLOUT)]);
    let polled = vec![
        PollFd { fd: 3, events: POLLRDNORM, revents: 0 },
        PollFd { fd: 4, events: POLLOUT, revents: POLLOUT },
    ];
    assert!(d.collect_ready(0, &polled).is_empty());
    assert!(d.collect_ready(-1, &polled).is_empty());
    assert_eq!(d.collect_ready(1, &polled), vec![Waker::Task(2)]);
    assert!(d.collect_ready(1, &polled).is_empty());
    d.deregister(3);
    assert!(matches!(d.plan(0), SelectPlan::Sleep { millis: 0 }));
}

#[test]
fn interrupted_submission_is_made_again() {
    assert_eq!(submit_and_wait(Ok(7)), Some(7));
    for code in [EINTR, EAGAIN, EBUSY] {
        assert_eq!(submit_and_wait(Err(code)), Some(0));
    }
    assert_eq!(submit_and_wait(Err(EINVAL)), None);
}

const BLOCKED: Errno = Errno { code: EAGAIN };

#[test]
fn epoll_read_waits_until_it_can() {
    let mut d = EpollDriver::new();
    let mut f = EpollUsizeFuture::read(6);
    assert!(matches!(f.begin_poll(&mut d), PollBegin::Try { delete: false }));
    match f.end_poll(&mut d, Waker::Task(1), Err(BLOCKED)) {
        PollEnd::Pending(command) => {
            assert_eq!(command, EpollCommand::Add { fd: 6, flags: EPOLLIN })
        }
        PollEnd::Ready(_) => panic!("nothing to read yet"),
    }
    let ready = d.collect_ready(&vec![EpollEvent { token: 6, flags: EPOLLIN }]);
    assert_eq!(ready.wakers, vec![Waker::Task(1)]);
    assert!(matches!(f.begin_poll(&mut d), PollBegin::Try { .. }));
    assert!(matches!(f.end_poll(&mut d, Waker::Task(1), Ok(12)), PollEnd::Ready(Ok(12))));
    assert!(f.is_terminated());
    assert!(!f.drop_future(&mut d));
}

#[test]
fn epoll_send_waits_for_room() {
    let mut d = EpollDriver::new();
    let mut f = EpollUsizeFuture::send(6, 0);
    assert!(matches!(f.begin_poll(&mut d), PollBegin::Try { delete: false }));
    match f.end_poll(&mut d, Waker::Task(1), Err(BLOCKED)) {
        PollEnd::Pending(command) => {
            assert_eq!(command, EpollCommand::Add { fd: 6, flags: EPOLLOUT })
        }
        PollEnd::Ready(_) => panic!("no room yet"),
    }
    assert!(f.drop_future(&mut d));
    assert!(d.collect_ready(&vec![EpollEvent { token: 6, flags: EPOLLOUT }]).wakers.is_empty());
}

#[test]
fn epoll_failures_end_the_operation() {
    let mut d = EpollDriver::new();
    let mut f = EpollUsizeFuture::recv(6, 0);
    assert!(matches!(f.begin_poll(&mut d), PollBegin::Try { .. }));
    let end = f.end_poll(&mut d, Waker::Task(1), Err(Errno { code: 104 }));
    match end {
        PollEnd::Ready(result) => assert_eq!(result, Err(Errno { code: 104 })),
        PollEnd::Pending(_) => panic!("the connection was reset"),
    }
}

#[test]
fn epoll_timer_expires_when_it_can_be_read() {
    let mut d = EpollDriver::new();
    let mut f = EpollUnitFuture::timer_fd(8);
    assert!(matches!(f.begin_poll(&mut d), PollBegin::Try { delete: false }));
    assert!(matches!(
        f.end_poll(&mut d, Waker::Task(3), Err(BLOCKED)),
        PollEnd::Pending(EpollCommand::Add { fd: 8, flags: EPOLLIN })
    ));
    d.collect_ready(&vec![EpollEvent { token: 8, flags: EPOLLIN }]);
    assert!(matches!(f.begin_poll(&mut d), PollBegin::Try { .. }));
    match f.end_poll(&mut d, Waker::Task(3), Ok(8)) {
        PollEnd::Ready(result) => assert_eq!(result, Err(Errno { code: ETIME })),
        PollEnd::Pending(_) => panic!("the timer expired"),
    }
    assert!(f.is_terminated());
}

#[test]
fn epoll_known_results_are_given_at_once() {
    let mut d = EpollDriver::new();
    assert!(matches!(EpollUnitFuture::ready_ok().begin_poll(&mut d), PollBegin::Ready(Ok(()))));
    let mut f = EpollUnitFuture::ready_err(Errno { code: 13 });
    match f.begin_poll(&mut d) {
        PollBegin::Ready(result) => assert_eq!(result, Err(Errno { code: 13 })),
        PollBegin::Try { .. } => panic!("the result is known"),
    }
}

#[test]
fn epoll_accept_waits_for_a_connection() {
    let mut d = EpollDriver::new();
    let mut f = EpollOwnedFdFuture::new(4);
    assert!(matches!(f.begin_poll::<i32>(&mut d), PollBegin::Try { .. }));
    assert!(matches!(
        f.end_poll::<i32>(&mut d, Waker::Task(1), Err(BLOCKED)),
        PollEnd::Pending(EpollCommand::Add { fd: 4, flags: EPOLLIN })
    ));
    assert!(matches!(f.begin_poll::<i32>(&mut d), PollBegin::Try { .. }));
    assert!(matches!(f.end_poll(&mut d, Waker::Task(1), Ok(9)), PollEnd::Ready(Ok(9))));
    assert!(f.is_terminated());
}

#[test]
fn completion_port_futures() {
    let mut d = SelectDriver::new();
    assert!(matches!(IocpUnitFuture::ready_ok().poll(), IocpBegin::Ready(Ok(()))));
    let mut sleep = IocpUnitFuture::sleep(Duration::from_millis(3));
    match sleep.poll() {
        IocpBegin::Sleep(d) => assert_eq!(d.as_millis(), 3),
        _ => panic!("a sleep blocks the thread"),
    }
    let mut f = IocpUsizeFuture::recv(3, 0);
    assert_eq!(f.raw_fd(), Some(3));
    assert!(matches!(f.begin_poll(&mut d), IocpBegin::Try));
    assert!(matches!(f.end_poll(&mut d, Waker::Task(1), Err(BLOCKED)), Poll::Pending));
    let polled = vec![PollFd { fd: 3, events: POLLRDNORM, revents: POLLRDNORM }];
    assert_eq!(d.collect_ready(1, &polled), vec![Waker::Task(1)]);
    assert!(matches!(f.begin_poll(&mut d), IocpBegin::Try));
    assert!(matches!(f.end_poll(&mut d, Waker::Task(1), Ok(2)), Poll::Ready(Ok(2))));
    assert!(f.is_terminated());
    let mut a = IocpOwnedFdFuture::new(7);
    a.begin_poll(&mut d);
    assert!(matches!(a.end_poll(&mut d, Waker::Task(1), Ok(11)), Poll::Ready(Ok(11))));
    assert!(a.is_terminated());
}
