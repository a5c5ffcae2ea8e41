//! Futures, run by the library's loop over a simulated kernel.

use std::cell::{Cell, RefCell};
use std::collections::HashMap;
use std::future::Future;
use std::pin::Pin;
use std::rc::Rc;
use std::sync::{Arc, Mutex};
use std::task::{Context, Poll, Wake};

use futures::future::{join, join_all, select, Either};
use futures::stream::{FuturesUnordered, StreamExt};

use kimojio::async_event::{
    AsyncEvent, DeadlineRound, DeadlineStep, WaitAsyncEventFuture,
};
use kimojio::backend::io_uring::IO_URING_SUBMISSION_ENTRIES;
use kimojio::errno::{CanceledError, Errno, TimeoutError, ECANCELED, ETIME};
use kimojio::model::{Cqe, Waker as Wakes, WaitPoll};
use kimojio::operations::{
    self, ErrnoOrFuture, SetYieldCpuFuture, SubmitPoll, TaskHandle, TaskHandleError, YieldPoll,
};
use kimojio::requests::{self, IoRequest};
use kimojio::ring_future::{RingFuture, RingPoll};
use kimojio::runtime::{BusyPoll, Configuration, EventLoop, LoopAction, LoopEvent, Runtime};
use kimojio::sleep::{self, SleepFuture, SleepFutureInner, VirtualSleepFuture};
use kimojio::task::waits::TaskWait;
use kimojio::task::TaskState;
use kimojio::task_future::{FutureOrResult, Poll as TaskPoll, TaskFuture};
use kimojio::time::{Duration, Instant};
use kimojio::tracing::{EventEnvelope, Events};

type Payload = &'static str;
type IdleAdvance = Box<dyn FnMut(Instant, Option<Instant>) -> Option<Duration>>;

/// The body of a task, and how it fails.
struct Body {
    future: Pin<Box<dyn Future<Output = ()>>>,
    fail: Box<dyn Fn(Payload)>,
}

/// An operation in the kernel.
struct Op {
    id: u64,
    due: u64,
    result: Result<u32, Errno>,
    linked: bool,
}

struct TaskWaker {
    key: u64,
    woken: Arc<Mutex<Vec<u64>>>,
}

impl Wake for TaskWaker {
    fn wake(self: Arc<Self>) {
        self.woken.lock().unwrap().push(self.key);
    }
}

struct Thread {
    state: RefCell<TaskState>,
    now: Cell<u64>,
    ops: RefCell<Vec<Op>>,
    bodies: RefCell<HashMap<u64, Body>>,
    wakers: RefCell<HashMap<u64, std::task::Waker>>,
    woken: Arc<Mutex<Vec<u64>>>,
    foreign: RefCell<Vec<std::task::Waker>>,
    callbacks: RefCell<Vec<Option<IdleAdvance>>>,
    unwind: Cell<Option<Payload>>,
    traced: RefCell<Vec<EventEnvelope>>,
}

#[derive(Clone)]
struct Rt(Rc<Thread>);

/// The system clock at tick 0.
const START: i128 = 1_000_000_000_000;

impl Rt {
    fn new() -> Rt {
        Rt(Rc::new(Thread {
            state: RefCell::new(TaskState::new()),
            now: Cell::new(0),
            ops: RefCell::new(Vec::new()),
            bodies: RefCell::new(HashMap::new()),
            wakers: RefCell::new(HashMap::new()),
            woken: Arc::new(Mutex::new(Vec::new())),
            foreign: RefCell::new(Vec::new()),
            callbacks: RefCell::new(Vec::new()),
            unwind: Cell::new(None),
            traced: RefCell::new(Vec::new()),
        }))
    }

    fn system_now(&self) -> Instant {
        Instant::from_nanos(START + self.0.now.get() as i128 * 1000).unwrap()
    }

    /// Hands the wake-ups on that reach beyond the task state, and takes those in that
    /// came from there.
    fn settle_wakes(&self) {
        loop {
            let ids = self.0.state.borrow_mut().take_pending_wakes();
            for id in &ids {
                let waker = self.0.foreign.borrow()[*id as usize].clone();
                waker.wake();
            }
            let keys: Vec<u64> = std::mem::take(&mut *self.0.woken.lock().unwrap());
            for key in &keys {
                self.0.state.borrow_mut().wake(Wakes::Task(*key));
            }
            if ids.is_empty() && keys.is_empty() {
                return;
            }
        }
    }

    fn waker_of(&self, cx: &Context<'_>) -> Wakes {
        let key = self.0.state.borrow().get_current_task().unwrap();
        if self.0.wakers.borrow()[&key].will_wake(cx.waker()) {
            return Wakes::Task(key);
        }
        let mut foreign = self.0.foreign.borrow_mut();
        foreign.push(cx.waker().clone());
        Wakes::Foreign(foreign.len() as u64 - 1)
    }

    fn enter(&self, busy_poll: bool) {
        self.enter_ring(busy_poll, true);
        self.enter_ring(busy_poll, false);
        let dropped = self.0.state.borrow_mut().drop_completed_tasks();
        for key in dropped {
            self.0.wakers.borrow_mut().remove(&key);
        }
        self.settle_wakes();
    }

    fn enter_ring(&self, busy_poll: bool, iopoll: bool) {
        let mut state = self.0.state.borrow_mut();
        let enter = match state.begin_enter(busy_poll, iopoll, self.0.now.get()) {
            Some(enter) => enter,
            None => return,
        };
        let mut ops = self.0.ops.borrow_mut();
        let mut cqes = Vec::new();
        for cancel in state.take_cancels() {
            cqes.push(Cqe { user_data: None, result: Ok(0) });
            for op in ops.iter_mut().filter(|op| op.id == cancel.completion) {
                op.due = self.0.now.get();
                op.result = Err(Errno { code: ECANCELED });
            }
        }
        let earliest = ops.iter().map(|op| op.due).min();
        if enter.want && cqes.is_empty() {
            let due = earliest.expect("nothing will ever happen");
            self.0.now.set(self.0.now.get().max(due));
        } else {
            self.0.now.set(self.0.now.get() + 100);
        }
        let now = self.0.now.get();
        let (done, left): (Vec<Op>, Vec<Op>) = ops.drain(..).partition(|op| op.due <= now);
        *ops = left;
        for op in done {
            cqes.push(Cqe { user_data: Some(op.id), result: op.result });
            if op.linked {
                cqes.push(Cqe { user_data: None, result: Err(Errno { code: ETIME }) });
            }
        }
        state.end_enter(enter, 0, now, 0, &cqes);
        let traced = state.drain_trace();
        self.0.traced.borrow_mut().extend(traced);
    }

    fn poll_body(&self, key: u64) {
        let run = self.0.state.borrow_mut().begin_poll(key, self.0.now.get());
        let run = match run {
            Some(run) => run,
            None => return,
        };
        let waker = self.0.wakers.borrow()[&key].clone();
        let mut body = self.0.bodies.borrow_mut().remove(&key).unwrap();
        let mut complete = body.future.as_mut().poll(&mut Context::from_waker(&waker)).is_ready();
        if let Some(payload) = self.0.unwind.take() {
            (body.fail)(payload);
            complete = true;
        }
        if complete {
            drop(body);
        } else {
            self.0.bodies.borrow_mut().insert(key, body);
        }
        self.settle_wakes();
        self.0.state.borrow_mut().end_poll(run, complete, 0);
    }

    fn adopt(&self, key: u64, body: Body) {
        let waker = Arc::new(TaskWaker { key, woken: self.0.woken.clone() });
        self.0.wakers.borrow_mut().insert(key, waker.into());
        self.0.bodies.borrow_mut().insert(key, body);
    }

    fn run_loop(&self, event_loop: &mut EventLoop) {
        let mut event = LoopEvent::Begin { now: self.0.now.get() };
        loop {
            let action = event_loop.step(&mut self.0.state.borrow_mut(), event);
            self.settle_wakes();
            event = match action {
                LoopAction::Enter { busy_poll } => {
                    self.enter(busy_poll);
                    LoopEvent::IoDone
                }
                LoopAction::Poll { key } => {
                    self.poll_body(key);
                    LoopEvent::Polled { now: self.0.now.get() }
                }
                LoopAction::CallIdle { callback, now, next_deadline } => {
                    let mut f = self.0.callbacks.borrow_mut()[callback as usize].take().unwrap();
                    let advance = f(now, next_deadline);
                    self.0.callbacks.borrow_mut()[callback as usize] = Some(f);
                    LoopEvent::IdleReturned { advance }
                }
                LoopAction::Again => LoopEvent::Begin { now: self.0.now.get() },
                LoopAction::Done => return,
            };
        }
    }

    fn spawn<T: 'static>(&self, future: impl Future<Output = T> + 'static) -> JoinHandle<T> {
        let handle = operations::spawn_task(&mut self.0.state.borrow_mut());
        let slot = Rc::new(RefCell::new(TaskFuture::Future { future: () }));
        self.adopt(handle.wait.key, body_of(future, slot.clone()));
        JoinHandle { rt: self.clone(), handle, slot }
    }

    fn yield_io(&self) -> Yield {
        Yield { rt: self.clone(), inner: operations::yield_io() }
    }

    fn yield_cpu(&self) -> Yield {
        Yield { rt: self.clone(), inner: operations::yield_cpu() }
    }

    fn event(&self) -> Event {
        Event { rt: self.clone(), event: Rc::new(RefCell::new(AsyncEvent::new())) }
    }

    /// An operation that the kernel ends after `after`, with `result`.
    fn io(&self, request: IoRequest, after: Duration, result: Result<u32, Errno>) -> Io {
        let inner = RingFuture::new(request, &mut self.0.state.borrow_mut());
        Io { rt: self.clone(), inner, after, result }
    }

    /// An operation for which nothing happens until its timeout expires.
    fn expiring(&self, request: IoRequest) -> Io {
        let after = request.timeout.unwrap();
        self.io(request, after, Err(Errno { code: ECANCELED }))
    }

    fn nop(&self) -> Io {
        self.io(requests::nop(), Duration::from_nanos(0), Ok(0))
    }

    fn sleep(&self, duration: Duration) -> Sleep {
        let inner = sleep::sleep(&self.0.state.borrow(), duration, self.system_now());
        self.sleeping(inner)
    }

    fn sleep_until(&self, deadline: Instant) -> Sleep {
        let inner = sleep::sleep_until(&self.0.state.borrow(), deadline, self.system_now());
        self.sleeping(inner)
    }

    fn sleeping(&self, mut inner: SleepFuture) -> Sleep {
        let io = match inner.inner {
            SleepFutureInner::Real { duration, .. } => {
                let timer = requests::timeout(duration);
                let io = self.io(timer, duration, Err(Errno { code: ETIME }));
                inner.submitted(io.inner.completion);
                Some(io)
            }
            _ => None,
        };
        Sleep { rt: self.clone(), inner, io }
    }

    async fn timeout_at<T>(
        &self,
        deadline: Instant,
        future: impl Future<Output = T>,
    ) -> Result<T, TimeoutError> {
        let mut timer = self.sleep_until(deadline);
        let mut future = Box::pin(future);
        std::future::poll_fn(move |cx| {
            let inner = from_std(future.as_mut().poll(cx));
            let timer = match inner {
                TaskPoll::Ready(_) => TaskPoll::Pending,
                TaskPoll::Pending => from_std(Pin::new(&mut timer).poll(cx)),
            };
            to_std(sleep::timeout_at(inner, timer))
        })
        .await
    }

    fn set_idle_advance(
        &self,
        f: impl FnMut(Instant, Option<Instant>) -> Option<Duration> + 'static,
    ) {
        self.0.callbacks.borrow_mut().push(Some(Box::new(f)));
        let id = self.0.callbacks.borrow().len() as u64 - 1;
        operations::virtual_clock_set_idle_advance(&mut self.0.state.borrow_mut(), id);
    }

    fn clock_now(&self) -> Instant {
        operations::virtual_clock_now(&self.0.state.borrow())
    }

    fn clock_epoch(&self) -> Instant {
        operations::virtual_clock_epoch(&self.0.state.borrow())
    }

    fn clock_advance(&self, duration: Duration) -> usize {
        operations::virtual_clock_advance(&mut self.0.state.borrow_mut(), duration)
    }

    fn pending_timers(&self) -> usize {
        operations::virtual_clock_pending_timers(&self.0.state.borrow())
    }

    fn scope_cancel(&self) {
        self.enter(true);
        operations::io_scope_cancel(&mut self.0.state.borrow_mut());
        self.enter(true);
        operations::io_scope_cancel_waits(&mut self.0.state.borrow_mut());
    }

    /// Runs `body` in an I/O scope; what is in flight at its end is canceled and awaited.
    async fn scope<T>(&self, body: impl Future<Output = T>) -> T {
        let outer = operations::io_scope(&mut self.0.state.borrow_mut());
        let result = body.await;
        let gathered = operations::io_scope_close(&mut self.0.state.borrow_mut(), outer);
        if let Some(mut gathered) = gathered {
            self.enter(true);
            operations::io_scope_cancel_gathered(&mut self.0.state.borrow_mut(), &mut gathered);
            while !gathered.completions.is_empty() {
                self.enter(true);
                self.0.state.borrow_mut().retain_incomplete(&mut gathered.completions);
            }
        }
        result
    }
}

fn body_of<T: 'static>(
    future: impl Future<Output = T> + 'static,
    slot: Rc<RefCell<TaskFuture<(), T, Payload>>>,
) -> Body {
    let done = slot.clone();
    Body {
        future: Box::pin(async move {
            let value = future.await;
            done.borrow_mut().poll(Ok(TaskPoll::Ready(value)));
        }),
        fail: Box::new(move |payload| {
            slot.borrow_mut().poll(Err(payload));
        }),
    }
}

fn from_std<T>(poll: Poll<T>) -> TaskPoll<T> {
    match poll {
        Poll::Ready(value) => TaskPoll::Ready(value),
        Poll::Pending => TaskPoll::Pending,
    }
}

fn to_std<T>(poll: TaskPoll<T>) -> Poll<T> {
    match poll {
        TaskPoll::Ready(value) => Poll::Ready(value),
        TaskPoll::Pending => Poll::Pending,
    }
}

struct JoinHandle<T> {
    rt: Rt,
    handle: TaskHandle,
    slot: Rc<RefCell<TaskFuture<(), T, Payload>>>,
}

impl<T> JoinHandle<T> {
    fn abort(&self) {
        self.handle.abort(&mut self.rt.0.state.borrow_mut());
    }

    fn wait(&self) -> Wait {
        Wait { rt: self.rt.clone(), inner: self.handle.wait() }
    }
}

impl<T> Future for JoinHandle<T> {
    type Output = Result<T, TaskHandleError<Payload>>;

    fn poll(mut self: Pin<&mut Self>, cx: &mut Context<'_>) -> Poll<Self::Output> {
        let this = &mut *self;
        let waker = this.rt.waker_of(cx);
        let outcome = {
            let mut state = this.rt.0.state.borrow_mut();
            let tag = state.get_next_tag();
            this.handle.poll(&mut state, waker, tag)
        };
        if outcome == WaitPoll::Aborted {
            this.rt.0.unwind.set(Some("Task aborted"));
            return Poll::Pending;
        }
        let result = match outcome {
            WaitPoll::Ready => this.slot.borrow_mut().result(),
            _ => None,
        };
        to_std(TaskHandle::result(outcome, result))
    }
}

impl<T> Drop for JoinHandle<T> {
    fn drop(&mut self) {
        self.handle.wait.drop_wait(&mut self.rt.0.state.borrow_mut());
    }
}

/// A wait for a task without its result.
struct Wait {
    rt: Rt,
    inner: TaskWait,
}

impl Future for Wait {
    type Output = Result<(), CanceledError>;

    fn poll(mut self: Pin<&mut Self>, cx: &mut Context<'_>) -> Poll<Self::Output> {
        let this = &mut *self;
        let waker = this.rt.waker_of(cx);
        let mut state = this.rt.0.state.borrow_mut();
        let tag = state.get_next_tag();
        match this.inner.poll(&mut state, waker, tag) {
            WaitPoll::Ready => Poll::Ready(Ok(())),
            WaitPoll::Canceled => Poll::Ready(Err(CanceledError {})),
            WaitPoll::Pending => Poll::Pending,
            WaitPoll::Aborted => {
                this.rt.0.unwind.set(Some("Task aborted"));
                Poll::Pending
            }
        }
    }
}

impl Drop for Wait {
    fn drop(&mut self) {
        self.inner.drop_wait(&mut self.rt.0.state.borrow_mut());
    }
}

struct Yield {
    rt: Rt,
    inner: SetYieldCpuFuture,
}

impl Future for Yield {
    type Output = ();

    fn poll(mut self: Pin<&mut Self>, cx: &mut Context<'_>) -> Poll<()> {
        let this = &mut *self;
        let waker = this.rt.waker_of(cx);
        match this.inner.poll(&mut this.rt.0.state.borrow_mut(), waker) {
            YieldPoll::Ready => Poll::Ready(()),
            YieldPoll::Pending => Poll::Pending,
            YieldPoll::Aborted => {
                this.rt.0.unwind.set(Some("Task aborted"));
                Poll::Pending
            }
        }
    }
}

#[derive(Clone)]
struct Event {
    rt: Rt,
    event: Rc<RefCell<AsyncEvent>>,
}

impl Event {
    fn set(&self) {
        self.event.borrow_mut().set(&mut self.rt.0.state.borrow_mut());
    }

    fn set_wake_one(&self) {
        self.event.borrow_mut().set_wake_one(&mut self.rt.0.state.borrow_mut());
    }

    fn set_wake_n(&self, count: usize) {
        self.event.borrow_mut().set_wake_n(count, &mut self.rt.0.state.borrow_mut());
    }

    fn reset(&self) {
        self.event.borrow_mut().reset(&mut self.rt.0.state.borrow_mut());
    }

    fn waiting(&self, inner: WaitAsyncEventFuture) -> EventWait {
        EventWait { rt: self.rt.clone(), event: self.event.clone(), inner }
    }

    fn wait(&self) -> EventWait {
        let inner = self.event.borrow().wait();
        self.waiting(inner)
    }

    fn wait_reset(&self) -> EventWait {
        let inner = self.event.borrow().wait_reset();
        self.waiting(inner)
    }

    async fn wait_with_deadline(&self, deadline: Instant) -> Result<(), TimeoutError> {
        loop {
            let now = sleep::clock_now(&self.rt.0.state.borrow(), self.rt.system_now());
            let step = self.event.borrow().wait_with_deadline(deadline, now);
            match step {
                DeadlineStep::Done(result) => return result,
                DeadlineStep::Wait(left) => {
                    let round = match select(self.wait(), self.rt.sleep(left)).await {
                        Either::Left((waited, _)) => DeadlineRound::Waited(waited),
                        Either::Right((slept, _)) => DeadlineRound::Slept(slept),
                    };
                    if let Some(e) = AsyncEvent::round_ended(round) {
                        return Err(e);
                    }
                }
            }
        }
    }
}

struct EventWait {
    rt: Rt,
    event: Rc<RefCell<AsyncEvent>>,
    inner: WaitAsyncEventFuture,
}

impl Future for EventWait {
    type Output = Result<(), CanceledError>;

    fn poll(mut self: Pin<&mut Self>, cx: &mut Context<'_>) -> Poll<Self::Output> {
        let this = &mut *self;
        let waker = this.rt.waker_of(cx);
        let mut state = this.rt.0.state.borrow_mut();
        let tag = state.get_next_tag();
        match this.inner.poll(&mut this.event.borrow_mut(), &mut state, waker, tag) {
            WaitPoll::Ready => Poll::Ready(Ok(())),
            WaitPoll::Canceled => Poll::Ready(Err(CanceledError {})),
            WaitPoll::Pending => Poll::Pending,
            WaitPoll::Aborted => {
                this.rt.0.unwind.set(Some("Task aborted"));
                Poll::Pending
            }
        }
    }
}

impl Drop for EventWait {
    fn drop(&mut self) {
        self.inner.drop_wait(&mut self.event.borrow_mut(), &mut self.rt.0.state.borrow_mut());
    }
}

/// An operation of the simulated kernel.
struct Io {
    rt: Rt,
    inner: RingFuture,
    after: Duration,
    result: Result<u32, Errno>,
}

impl Future for Io {
    type Output = Result<usize, Errno>;

    fn poll(mut self: Pin<&mut Self>, cx: &mut Context<'_>) -> Poll<Self::Output> {
        let this = &mut *self;
        let waker = this.rt.waker_of(cx);
        match this.inner.poll(&mut this.rt.0.state.borrow_mut(), waker) {
            RingPoll::Ready(result) => Poll::Ready(result),
            RingPoll::Pending => Poll::Pending,
            RingPoll::Submit => {
                this.rt.0.ops.borrow_mut().push(Op {
                    id: this.inner.completion,
                    due: this.rt.0.now.get() + this.after.as_micros() as u64,
                    result: this.result,
                    linked: this.inner.request.timeout.is_some(),
                });
                Poll::Pending
            }
            RingPoll::Aborted => {
                this.rt.0.unwind.set(Some("Task aborted"));
                Poll::Pending
            }
        }
    }
}

impl Drop for Io {
    fn drop(&mut self) {
        self.inner.cancel(&mut self.rt.0.state.borrow_mut());
        while self.inner.in_kernel(&self.rt.0.state.borrow()) {
            self.rt.enter(true);
        }
        self.inner.release(&mut self.rt.0.state.borrow_mut());
    }
}

struct Sleep {
    rt: Rt,
    inner: SleepFuture,
    io: Option<Io>,
}

impl Future for Sleep {
    type Output = Result<(), Errno>;

    fn poll(mut self: Pin<&mut Self>, cx: &mut Context<'_>) -> Poll<Self::Output> {
        let this = &mut *self;
        let kernel = match &mut this.io {
            Some(io) => match Pin::new(io).poll(cx) {
                Poll::Ready(result) => TaskPoll::Ready(result.map(|_| ())),
                Poll::Pending => TaskPoll::Pending,
            },
            None => TaskPoll::Pending,
        };
        let waker = this.rt.waker_of(cx);
        to_std(this.inner.poll(&mut this.rt.0.state.borrow_mut(), waker, kernel))
    }
}

impl Drop for Sleep {
    fn drop(&mut self) {
        if let SleepFutureInner::Virtual { mut sleep } = self.inner.inner {
            sleep.drop_sleep(&mut self.rt.0.state.borrow_mut());
        }
    }
}

/// Polls a future once, in passing.
async fn poll_now<F: Future + Unpin>(future: &mut F) -> Option<F::Output> {
    std::future::poll_fn(|cx| Poll::Ready(sleep::poll_once(from_std(Pin::new(&mut *future).poll(cx)))))
        .await
}

/// Runs `main` and returns what became of it.
fn run_for<F: Future<Output = ()> + 'static>(
    configuration: Configuration,
    main: impl FnOnce(Rt) -> F,
) -> (Rt, Option<Result<(), Payload>>) {
    let rt = Rt::new();
    let (server_pipe, client_pipe) = rustix::pipe::pipe().unwrap();
    let mut runtime = Runtime::new(
        0,
        configuration,
        &mut rt.0.state.borrow_mut(),
        server_pipe,
        client_pipe,
    );
    let (tasks, mut event_loop) = runtime.block_on(&mut rt.0.state.borrow_mut(), 0, 1);
    let slot = Rc::new(RefCell::new(TaskFuture::Future { future: () }));
    rt.adopt(tasks.main, body_of(main(rt.clone()), slot.clone()));
    let served = Rc::new(RefCell::new(TaskFuture::Future { future: () }));
    rt.adopt(tasks.server, body_of(async {}, served));
    rt.run_loop(&mut event_loop);
    let result = slot.borrow_mut().result();
    let (result, was) = runtime.end_run(&mut rt.0.state.borrow_mut(), result);
    assert_eq!(rt.0.state.borrow().get_task_count(), 0);
    // The tests look at the state as the run left it.
    *rt.0.state.borrow_mut() = was;
    (rt, result)
}

/// Runs `main` to its end and returns the thread then.
fn run_with<F: Future<Output = ()> + 'static>(
    configuration: Configuration,
    main: impl FnOnce(Rt) -> F,
) -> Rt {
    let (rt, result) = run_for(configuration, main);
    assert_eq!(result, Some(Ok(())));
    rt
}

fn run<F: Future<Output = ()> + 'static>(main: impl FnOnce(Rt) -> F) -> Rt {
    run_with(Configuration { trace: false, busy_poll: BusyPoll::Never }, main)
}

fn run_virtual<F: Future<Output = ()> + 'static>(main: impl FnOnce(Rt) -> F) -> Rt {
    run(move |rt| {
        let now = rt.system_now();
        operations::virtual_clock_enable(&mut rt.0.state.borrow_mut(), true, now);
        main(rt)
    })
}

fn secs(n: u64) -> Duration {
    Duration::from_secs(n)
}

fn millis(n: u64) -> Duration {
    Duration::from_millis(n)
}

fn to_next(now: Instant, next: Option<Instant>) -> Option<Duration> {
    next.map(|d| d.saturating_duration_since(now))
}

fn since_epoch(rt: &Rt) -> Duration {
    rt.clock_now().checked_duration_since(rt.clock_epoch()).unwrap()
}

#[test]
fn event_test_set_reset() {
    run(|rt| async move {
        let e = rt.event();
        e.set();
        e.wait().await.unwrap();
        e.reset();
        e.wait_reset().await.unwrap();
    });
}

#[test]
fn event_test_wait() {
    run(|rt| async move {
        let e1 = rt.event();
        let e2 = rt.event();
        let x = Rc::new(Cell::new(0usize));
        let task = {
            let e1 = e1.clone();
            let e2 = e2.clone();
            let x = x.clone();
            rt.spawn(async move {
                x.set(1);
                e1.set();
                e2.wait().await.unwrap();
                x.set(2);
            })
        };
        assert_eq!(0, x.get());
        e1.wait().await.unwrap();
        assert_eq!(1, x.get());
        e2.set();
        task.await.unwrap();
        assert_eq!(2, x.get());
    });
}

async fn wait_for_n(rt: &Rt, x: &Cell<usize>, n: usize) {
    for _ in 0..100 {
        if n == x.get() {
            return;
        }
        rt.yield_io().await;
    }
    panic!();
}

#[test]
fn event_test_set_wake_n() {
    run(|rt| async move {
        let e1 = rt.event();
        let x = Rc::new(Cell::new(0usize));
        let y = Rc::new(Cell::new(0usize));
        let ready = rt.event();
        let tasks: Vec<_> = (0..10)
            .map(|_| {
                let e1 = e1.clone();
                let x = x.clone();
                let y = y.clone();
                let ready = ready.clone();
                rt.spawn(async move {
                    y.set(y.get() + 1);
                    if y.get() == 10 {
                        ready.set();
                    }
                    e1.wait().await.unwrap();
                    x.set(x.get() + 1);
                })
            })
            .collect();

        ready.wait().await.unwrap();
        assert_eq!(0, x.get());
        e1.set_wake_one();
        wait_for_n(&rt, &x, 1).await;
        e1.set();
        for task in tasks {
            task.await.unwrap();
        }
        wait_for_n(&rt, &x, 10).await;
    });
}

#[test]
fn async_event_select() {
    run(|rt| async move {
        let e1 = rt.event();
        let e2 = rt.event();
        let task = {
            let e1 = e1.clone();
            let e2 = e2.clone();
            rt.spawn(async move {
                let mut one = false;
                let mut two = false;
                let mut f1 = e1.wait();
                let mut f2 = e2.wait();
                while !one || !two {
                    std::future::poll_fn(|cx| {
                        if !f1.inner.is_terminated() && Pin::new(&mut f1).poll(cx).is_ready() {
                            assert!(!one);
                            one = true;
                            return Poll::Ready(());
                        }
                        if !f2.inner.is_terminated() && Pin::new(&mut f2).poll(cx).is_ready() {
                            assert!(!two);
                            two = true;
                            return Poll::Ready(());
                        }
                        Poll::Pending
                    })
                    .await;
                }
            })
        };
        e1.set();
        e2.set();
        task.await.unwrap();
    });
}

#[test]
fn async_event_await_same_future_twice() {
    run(|rt| async move {
        let e1 = rt.event();
        let mut fut = e1.wait();
        match select(&mut fut, rt.nop()).await {
            Either::Left(_) => panic!("should not complete"),
            Either::Right(_) => (),
        }
        match select(&mut fut, rt.nop()).await {
            Either::Left(_) => panic!("should not complete"),
            Either::Right(_) => (),
        }
        e1.set();
        fut.await.unwrap();
    });
}

#[test]
fn async_event_await_poll_pending() {
    run(|rt| async move {
        let e1 = rt.event();
        let e2 = e1.clone();
        let t = rt.spawn(async move {
            let mut wait = e2.wait();
            std::future::poll_fn(|cx| match Pin::new(&mut wait).poll(cx) {
                Poll::Ready(x) => Poll::Ready(x),
                Poll::Pending => Pin::new(&mut wait).poll(cx),
            })
            .await
            .unwrap();
        });
        rt.yield_io().await;
        e1.set();
        t.await.unwrap();
    });
}

#[test]
fn async_event_await_rearm() {
    run(|rt| async move {
        let events: Vec<Event> = (0..4).map(|_| rt.event()).collect();
        let mut waits: Vec<EventWait> = events.iter().map(|e| e.wait()).collect();
        for i in [3usize, 2, 1, 0] {
            events[i].set();
            let chosen = std::future::poll_fn(|cx| {
                for (i, wait) in waits.iter_mut().enumerate() {
                    if !wait.inner.is_terminated() && Pin::new(wait).poll(cx).is_ready() {
                        return Poll::Ready(i);
                    }
                }
                Poll::Pending
            })
            .await;
            assert_eq!(chosen, i);
        }
    });
}

#[test]
fn async_event_await_drop() {
    run(|rt| async move {
        let e = rt.event();
        let mut f1 = e.wait();
        let mut f2 = e.wait();
        assert!(poll_now(&mut f1).await.is_none());
        assert!(poll_now(&mut f2).await.is_none());
        rt.nop().await.unwrap();
        drop(f1);
        e.set();
        f2.await.unwrap();
    });
}

#[test]
fn reset_leaves_the_waits_for_set_alone() {
    let rt = run(|rt| async move {
        let e = rt.event();
        let done = Rc::new(Cell::new(0usize));
        for _ in 0..2 {
            let e = e.clone();
            let done = done.clone();
            rt.spawn(async move {
                e.wait().await.unwrap();
                done.set(done.get() + 1);
            });
        }
        rt.yield_io().await;
        let polled = rt.0.state.borrow().stats().tasks_polled_io;
        e.reset();
        rt.yield_io().await;
        rt.yield_io().await;
        // Only the main task was polled.
        assert_eq!(rt.0.state.borrow().stats().tasks_polled_io, polled + 2);
        assert!(e.event.borrow().any_waiting());
        e.set_wake_n(1);
        wait_for_n(&rt, &done, 1).await;
        assert!(e.event.borrow().any_waiting());
        e.set_wake_n(5);
        wait_for_n(&rt, &done, 2).await;
        assert!(!e.event.borrow().any_waiting());
        assert!(e.event.borrow().is_set());
    });
    assert_eq!(rt.0.state.borrow().get_task_count(), 0);
}

#[test]
fn event_wait_with_deadline() {
    run_virtual(|rt| async move {
        rt.set_idle_advance(to_next);
        let e = rt.event();
        let deadline = rt.clock_now().checked_add(secs(5)).unwrap();
        assert_eq!(e.wait_with_deadline(deadline).await, Err(TimeoutError::Timeout));
        assert_eq!(since_epoch(&rt), secs(5));
        let setter = e.clone();
        let sleeper = rt.sleep(secs(1));
        rt.spawn(async move {
            sleeper.await.unwrap();
            setter.set();
        });
        let deadline = rt.clock_now().checked_add(secs(5)).unwrap();
        assert_eq!(e.wait_with_deadline(deadline).await, Ok(()));
        assert_eq!(since_epoch(&rt), secs(6));
    });
}

#[test]
fn yield_cpu_test() {
    let rt = run(|rt| async move { rt.yield_cpu().await });
    assert!(rt.0.state.borrow().stats().tasks_polled_cpu > 0);
}

#[test]
fn yield_io_test() {
    let rt = run(|rt| async move { rt.yield_io().await });
    assert!(rt.0.state.borrow().stats().tasks_polled_io > 0);
}

#[test]
fn yield_io_in_futures_unordered() {
    run(|rt| async move {
        let mut futs: FuturesUnordered<Pin<Box<dyn Future<Output = i32>>>> =
            FuturesUnordered::new();
        for i in [1, 2] {
            let rt = rt.clone();
            futs.push(Box::pin(async move {
                rt.yield_io().await;
                i
            }));
        }
        let mut results = Vec::new();
        while let Some(val) = futs.next().await {
            results.push(val);
        }
        results.sort();
        assert_eq!(results, vec![1, 2]);
    });
}

#[test]
fn yield_cpu_in_futures_unordered() {
    run(|rt| async move {
        let mut futs: FuturesUnordered<Pin<Box<dyn Future<Output = i32>>>> =
            FuturesUnordered::new();
        for i in [1, 2] {
            let rt = rt.clone();
            futs.push(Box::pin(async move {
                rt.yield_cpu().await;
                i
            }));
        }
        let mut results = Vec::new();
        while let Some(val) = futs.next().await {
            results.push(val);
        }
        results.sort();
        assert_eq!(results, vec![1, 2]);
    });
}

#[test]
fn cpu_tasks_come_after_io_tasks() {
    run(|rt| async move {
        let order = Rc::new(RefCell::new(Vec::new()));
        for i in 0..4 {
            let order = order.clone();
            let inner = rt.clone();
            rt.spawn(async move {
                if i % 2 == 0 {
                    inner.yield_cpu().await;
                } else {
                    inner.yield_io().await;
                }
                order.borrow_mut().push(i);
            });
        }
        for _ in 0..10 {
            rt.yield_cpu().await;
        }
        assert_eq!(*order.borrow(), vec![1, 3, 0, 2]);
    });
}

#[test]
fn spawn_test() {
    run(|rt| async move {
        let shared = Rc::new(Cell::new(0i32));
        let shared1 = shared.clone();
        let task1 = rt.spawn(async move {
            shared1.set(shared1.get() + 1);
        });
        task1.await.unwrap();
        assert_eq!(1, shared.get());
    });
}

#[test]
fn spawn_io_test() {
    run(|rt| async move {
        let shared = Rc::new(Cell::new(0i32));
        let event = rt.event();
        event.reset();
        let task = {
            let event = event.clone();
            let shared = shared.clone();
            rt.spawn(async move {
                shared.set(shared.get() + 1);
                event.wait().await.unwrap();
                shared.set(shared.get() + 1);
            })
        };
        assert_eq!(0, shared.get());
        rt.yield_io().await;
        assert_eq!(1, shared.get());
        event.set();
        task.await.unwrap();
        assert_eq!(2, shared.get());
    });
}

#[test]
fn spawn_60k_tasks() {
    run(|rt| async move {
        {
            let mut tasks: Vec<_> = Vec::new();
            for _ in 0..60000 {
                tasks.push(rt.spawn(async {}))
            }
            rt.yield_io().await;
        }
        for _ in 0..60000 {
            let handle = rt.spawn(async {});
            handle.await.unwrap();
        }
    });
}

#[test]
fn create_10000_pending_io_test() {
    const TASK_COUNT: usize = IO_URING_SUBMISSION_ENTRIES * 10;
    run(|rt| async move {
        let count = Rc::new(Cell::new(0usize));
        let mut tasks = Vec::new();
        for _task_index in 0..TASK_COUNT {
            let count = count.clone();
            let inner = rt.clone();
            tasks.push(rt.spawn(async move {
                inner.sleep(millis(250)).await.unwrap();
                count.set(count.get() + 1);
            }));
        }
        for task in tasks {
            task.await.unwrap();
        }
        assert_eq!(count.get(), TASK_COUNT);
    });
}

#[test]
fn task_error_test() {
    run(|rt| async move {
        let task_handle = rt.spawn(async move { Err(Errno { code: 1 }) as Result<(), Errno> });
        assert_eq!(1, task_handle.await.unwrap().unwrap_err().code);
    });
}

async fn respawn(rt: Rt, done: Rc<Cell<bool>>, respawn_count: Rc<Cell<usize>>, terminate_time: u64) {
    assert!(
        rt.0.now.get() < terminate_time,
        "Short sleep should complete well before terminate_time"
    );
    if !done.get() {
        respawn_count.set(respawn_count.get() + 1);
        let again: Pin<Box<dyn Future<Output = ()>>> =
            Box::pin(respawn(rt.clone(), done, respawn_count, terminate_time));
        rt.spawn(again);
    }
}

#[test]
fn starvation_test() {
    run(|rt| async move {
        let terminate_time = rt.0.now.get() + 10_000_000;
        let done = Rc::new(Cell::new(false));
        let yield_count = Rc::new(Cell::new(0usize));
        let infinite_yield_task = {
            let done = done.clone();
            let yield_count = yield_count.clone();
            let inner = rt.clone();
            rt.spawn(async move {
                while !done.get() {
                    inner.yield_io().await;
                    yield_count.set(yield_count.get() + 1);
                    assert!(
                        inner.0.now.get() < terminate_time,
                        "Short sleep should complete well before terminate_time"
                    );
                }
            })
        };
        let respawn_count = Rc::new(Cell::new(0usize));
        rt.spawn(respawn(rt.clone(), done.clone(), respawn_count.clone(), terminate_time));
        rt.sleep(millis(100)).await.unwrap();
        done.set(true);
        infinite_yield_task.await.unwrap();
        assert!(yield_count.get() > 0);
        assert!(respawn_count.get() > 0);
    });
}

fn get_abort_result(result: Result<(), TaskHandleError<Payload>>) -> Payload {
    match result {
        Ok(_) => panic!("Task should have been aborted"),
        Err(TaskHandleError::Canceled) => panic!("Task should have been aborted"),
        Err(TaskHandleError::Panic(payload)) => payload,
    }
}

#[test]
fn test_abort() {
    run(|rt| async move {
        let inner = rt.clone();
        let io_forever_task = rt.spawn(async move {
            loop {
                inner.nop().await.unwrap();
            }
        });
        let event = rt.event();
        let wait_forever_task = rt.spawn(async move {
            event.wait().await.unwrap();
        });
        let inner = rt.clone();
        let yield_forever_task = rt.spawn(async move {
            loop {
                inner.yield_io().await;
            }
        });

        // yield and let tasks start
        rt.yield_io().await;

        // abort them all
        io_forever_task.abort();
        wait_forever_task.abort();
        yield_forever_task.abort();

        // wait for them to complete with panic message
        let result = io_forever_task.await;
        assert_eq!(get_abort_result(result), "Task aborted");
        let result = wait_forever_task.await;
        assert_eq!(get_abort_result(result), "Task aborted");
        let result = yield_forever_task.await;
        assert_eq!(get_abort_result(result), "Task aborted");
    });
}

#[test]
fn test_wait_for_multiple_tasks_with_futures_unordered() {
    run(|rt| async move {
        let task_count = 10;
        let mut futures = FuturesUnordered::new();
        for _ in 0..task_count {
            let inner = rt.clone();
            futures.push(rt.spawn(async move {
                inner.sleep(millis(100)).await.unwrap();
            }));
        }
        let mut ended = 0;
        while let Some(result) = futures.next().await {
            result.unwrap();
            ended += 1;
        }
        assert_eq!(ended, task_count);
    });
}

#[test]
fn test_wait_and_join_task_handle() {
    run(|rt| async move {
        let task = rt.spawn(async { 5 });
        let (_f1, f2) = join(task.wait(), task).await;
        assert_eq!(f2.unwrap(), 5);
    });
}

#[test]
fn test_cancel_sleep_with_io_scope() {
    run(|rt| async move {
        let sleep_a_long_time = rt
            .scope(async {
                let mut sleep_a_long_time = rt.sleep(secs(3600));
                assert!(poll_now(&mut sleep_a_long_time).await.is_none(), "sleep should not return");
                sleep_a_long_time
            })
            .await;
        assert_eq!(sleep_a_long_time.await, Err(Errno { code: ECANCELED }));
    });
}

#[test]
fn test_cancel_wait_with_io_scope() {
    run(|rt| async move {
        let event = rt.event();
        rt.scope(async {
            let mut wait = event.wait();
            assert!(poll_now(&mut wait).await.is_none(), "wait should not return");
            rt.scope_cancel();

            assert_eq!(wait.await, Err(CanceledError {}));

            event.set();
            assert_eq!(event.wait().await, Ok(()));
        })
        .await;
    });
}

#[test]
fn test_nested_io_scope_wait() {
    run(|rt| async move {
        let event1 = rt.event();
        let event2 = rt.event();
        rt.scope(async {
            let mut wait = event1.wait();
            assert!(poll_now(&mut wait).await.is_none(), "wait should not return");

            rt.scope(async {
                let mut wait2 = event2.wait();
                assert!(poll_now(&mut wait2).await.is_none(), "wait should not return");

                rt.scope_cancel();

                assert_eq!(wait2.await, Err(CanceledError {}));

                event2.set();
                assert_eq!(event2.wait().await, Ok(()));
            })
            .await;

            // still not complete
            assert!(poll_now(&mut wait).await.is_none(), "wait should not return");

            rt.scope_cancel();

            assert_eq!(wait.await, Err(CanceledError {}));

            event1.set();
            assert_eq!(event1.wait().await, Ok(()));
        })
        .await;
    });
}

#[test]
fn test_nested_io_scope() {
    run(|rt| async move {
        rt.scope(async {
            let mut wait1 = rt.sleep(secs(3600));
            assert!(poll_now(&mut wait1).await.is_none(), "wait should not return");

            rt.scope(async {
                let mut wait2 = rt.sleep(secs(3600));
                assert!(poll_now(&mut wait2).await.is_none(), "wait should not return");

                rt.scope_cancel();

                assert_eq!(wait2.await, Err(Errno { code: ECANCELED }));
            })
            .await;

            // still not complete
            assert!(poll_now(&mut wait1).await.is_none(), "wait should not return");

            rt.scope_cancel();

            assert_eq!(wait1.await, Err(Errno { code: ECANCELED }));
        })
        .await;
    });
}

#[test]
fn test_cancel_too_many_pending_io() {
    run(|rt| async move {
        let nops = rt
            .scope(async {
                let mut requests = Vec::new();
                for _ in 0..IO_URING_SUBMISSION_ENTRIES * 4 {
                    requests.push(rt.sleep(secs(3600)));
                }

                rt.scope_cancel();

                // after cancelling we should be able to issue more I/O
                let results = join_all(requests).await;
                for result in results {
                    assert_eq!(result, Err(Errno { code: ECANCELED }));
                }

                let rt = rt.clone();
                (0..IO_URING_SUBMISSION_ENTRIES).map(move |_| rt.nop())
            })
            .await;

        for result in join_all(nops).await {
            assert_eq!(result, Ok(0));
        }
    });
}

#[test]
fn test_overflow_via_submit() {
    run(|rt| async move {
        let mut ops = Vec::new();
        for _x in 0..IO_URING_SUBMISSION_ENTRIES * 100 {
            ops.push((operations::submit(requests::nop()), rt.nop()));
        }
        for (mut submit, mut op) in ops {
            let result = std::future::poll_fn(|cx| {
                match submit.poll(from_std(Pin::new(&mut op).poll(cx))) {
                    SubmitPoll::Ready(result) => Poll::Ready(result),
                    SubmitPoll::Pending => Poll::Pending,
                    SubmitPoll::Submit { iopoll } => {
                        assert!(!iopoll);
                        rt.enter_ring(false, iopoll);
                        rt.settle_wakes();
                        Poll::Pending
                    }
                }
            })
            .await;
            assert!(result.is_ok());
        }
    });
}

#[test]
fn test_too_many_pending_io() {
    run(|rt| async move {
        let requests: Vec<_> =
            (0..IO_URING_SUBMISSION_ENTRIES * 100).map(|_| rt.sleep(millis(100))).collect();
        let results = join_all(requests).await;
        for result in results {
            result.unwrap();
        }
    });
}

#[test]
fn test_spawn_return_future() {
    run(|rt| async move {
        let inner = rt.clone();
        let task = rt.spawn(async move { inner.nop() });
        let result = task.await.unwrap();
        assert_eq!(result.await, Ok(0));
    });
}

#[test]
fn test_ioend_activity_id() {
    const ACTIVITY_ID: u128 = 1;
    const TENANT_ID: u128 = 2;
    let rt = run_with(Configuration { trace: true, busy_poll: BusyPoll::Never }, |rt| async move {
        operations::set_activity_id_and_tenant_id(
            &mut rt.0.state.borrow_mut(),
            ACTIVITY_ID,
            TENANT_ID,
        );
        let mut sleep = rt.sleep(millis(100));
        assert!(poll_now(&mut sleep).await.is_none(), "not expected");
        operations::set_activity_id_and_tenant_id(&mut rt.0.state.borrow_mut(), 0, 0);
        sleep.await.unwrap();
    });
    let mut started = HashMap::new();
    let mut ended = 0;
    for envelope in rt.0.traced.borrow().iter() {
        match envelope.event {
            Events::IoStart { activity_id, tag, .. } => {
                started.insert(tag, activity_id);
            }
            Events::IoEnd { activity_id, tag, .. } => {
                assert_eq!(started.remove(&tag), Some(activity_id));
                assert_eq!(activity_id, ACTIVITY_ID);
                ended += 1;
            }
            _ => {}
        }
    }
    assert_eq!(ended, 1);
}

#[test]
fn test_inject_fault() {
    const FAULT: Errno = Errno { code: 14 };
    run(|rt| async move {
        let inject = |count| operations::inject_fault(&mut rt.0.state.borrow_mut(), count, FAULT);

        inject(0);
        assert_eq!(rt.nop().await, Err(FAULT));

        // after a fault, we are ok
        assert_eq!(rt.nop().await, Ok(0));

        // It takes two polls to complete any I/O so
        // with a fault count of 1, this will still fail.
        inject(1);
        assert_eq!(rt.nop().await, Err(FAULT));

        // after a fault, we are ok
        assert_eq!(rt.nop().await, Ok(0));

        // But with fault count of 2, we will skip the first and next will be Ok
        inject(2);
        assert_eq!(rt.nop().await, Ok(0));
        assert_eq!(rt.nop().await, Err(FAULT));
        assert_eq!(rt.nop().await, Ok(0));
    });
}

#[test]
fn recv_timeout_test() {
    run(|rt| async move {
        let request = requests::recv(3, 0x2000, 8, 0, Some(millis(100)));
        assert_eq!(rt.expiring(request).await, Err(Errno { code: ETIME }));
    });
}

#[test]
fn missed_deadline_is_timed_out() {
    run(|rt| async move {
        let now = rt.system_now();
        let deadline = now.checked_add(millis(100)).unwrap();
        let planned =
            requests::read_with_deadline(&rt.0.state.borrow(), 3, 0x2000, 8, Some(deadline), now);
        let request = match planned {
            ErrnoOrFuture::Future { fut } => fut,
            ErrnoOrFuture::Error { .. } => panic!("the deadline did not pass"),
        };
        assert_eq!(request.timeout, Some(millis(100)));
        assert_eq!(rt.expiring(request).await, Err(Errno { code: 110 }));
    });
}

#[test]
fn task_spawn_panic_test() {
    run(|rt| async move {
        let inner = rt.clone();
        let task1 = rt.spawn(async move {
            inner.0.unwind.set(Some("abort!"));
            std::future::pending::<()>().await;
        });
        let task2 = rt.spawn(async { Err(Errno { code: 22 }) as Result<i32, Errno> });
        let task3 = rt.spawn(async { Ok(1i32) as Result<i32, Errno> });

        let result1 = task1.await;
        let result2 = task2.await;
        let result3 = task3.await;

        match result1 {
            Err(TaskHandleError::Panic(payload)) => assert_eq!(payload, "abort!"),
            _ => panic!("task1 should have panicked"),
        }
        assert_eq!(result2.unwrap().unwrap_err(), Errno { code: 22 });
        assert_eq!(result3.unwrap().unwrap(), 1i32);
    });
}

#[test]
fn test_dangerous_task_drop() {
    let configuration = Configuration { trace: false, busy_poll: BusyPoll::Never };
    let (rt, result) = run_for(configuration, |rt| async move {
        let ready = rt.event();
        let inner = rt.clone();
        let setter = ready.clone();
        let _task = rt.spawn(async move {
            // when the task is dropped while the guard is active, the guard uses the state
            let inner_guard = inner.clone();
            let _guard = scopeguard::guard((), move |_| {
                println!(
                    "Activity id: {}",
                    operations::get_activity_id(&inner_guard.0.state.borrow())
                );
            });
            setter.set();
            loop {
                inner.yield_io().await;
            }
        });
        ready.wait().await.unwrap();
        operations::shutdown_loop(&mut rt.0.state.borrow_mut());
    });
    assert_eq!(result, None);
    assert_eq!(rt.0.state.borrow().get_task_count(), 1);
    let bodies = std::mem::take(&mut *rt.0.bodies.borrow_mut());
    drop(bodies);
}

#[test]
fn shutdown_is_immediate() {
    let configuration = Configuration { trace: false, busy_poll: BusyPoll::Never };
    let polled = Rc::new(Cell::new(0));
    let counted = polled.clone();
    let (rt, result) = run_for(configuration, |rt| async move {
        let count = || {
            let counted = counted.clone();
            rt.spawn(async move { counted.set(counted.get() + 1) });
        };
        count();
        count();
        let inner = rt.clone();
        rt.spawn(async move {
            operations::shutdown_loop(&mut inner.0.state.borrow_mut());
        });
        count();
        std::future::pending::<()>().await;
    });
    assert_eq!(result, None);
    assert_eq!(polled.get(), 2);
    assert!(rt.0.state.borrow().any_ready());
}

#[test]
fn drop_futures_test() {
    run(|rt| async move {
        let read = requests::read(3, 0x2000, 1);
        // The first read completes before it is dropped, without another poll.
        let mut read1 = rt.io(read, millis(1), Ok(1));
        assert!(poll_now(&mut read1).await.is_none());
        rt.sleep(millis(5)).await.unwrap();
        assert!(!read1.inner.in_kernel(&rt.0.state.borrow()));
        drop(read1);

        // The next one is dropped while the kernel has it, which cancels it.
        let mut read3 = rt.io(read, secs(3600), Ok(1));
        assert!(poll_now(&mut read3).await.is_none());
        let id = read3.inner.completion;
        drop(read3);
        assert!(rt.0.ops.borrow().iter().all(|op| op.id != id));
        assert_eq!(rt.0.state.borrow().stats().in_flight_io, 0);

        assert_eq!(rt.io(read, millis(1), Ok(1)).await, Ok(1));
    });
}

#[test]
fn canceled_before_submission_never_reaches_the_kernel() {
    run(|rt| async move {
        let mut nop = rt.nop();
        nop.inner.cancel(&mut rt.0.state.borrow_mut());
        assert_eq!(poll_now(&mut nop).await, Some(Err(Errno { code: ECANCELED })));
        assert!(rt.0.ops.borrow().is_empty());
        assert_eq!(rt.0.state.borrow().stats().in_flight_io, 0);
    });
}

#[test]
fn second_cancel_changes_nothing() {
    run(|rt| async move {
        let mut read = rt.io(requests::read(3, 0x2000, 1), secs(3600), Ok(1));
        assert!(poll_now(&mut read).await.is_none());
        let in_flight = || rt.0.state.borrow().stats().in_flight_io;
        assert_eq!(in_flight(), 1);
        read.inner.cancel(&mut rt.0.state.borrow_mut());
        assert_eq!(in_flight(), 2);
        read.inner.cancel(&mut rt.0.state.borrow_mut());
        assert_eq!(in_flight(), 2);
        assert_eq!(read.await, Err(Errno { code: ECANCELED }));
        assert_eq!(in_flight(), 0);
    });
}

#[test]
fn test_busy_poll_always() {
    run_with(Configuration { trace: false, busy_poll: BusyPoll::Always }, |rt| async move {
        rt.sleep(millis(100)).await.unwrap();
        assert_eq!(rt.0.state.borrow().enter_stats_wait().count, 0);
    });
}

#[test]
fn test_busy_poll_never() {
    run_with(Configuration { trace: false, busy_poll: BusyPoll::Never }, |rt| async move {
        rt.sleep(millis(100)).await.unwrap();
        assert_ne!(rt.0.state.borrow().enter_stats_wait().count, 0);
    });
}

#[test]
fn test_busy_poll_until() {
    run_with(Configuration { trace: false, busy_poll: BusyPoll::Until(millis(10)) }, |rt| async move {
        rt.sleep(millis(1)).await.unwrap();

        // should not have waited during above sleep
        assert_eq!(rt.0.state.borrow().enter_stats_wait().count, 0);

        rt.sleep(millis(100)).await.unwrap();

        // should have waiting during this sleep
        assert_ne!(rt.0.state.borrow().enter_stats_wait().count, 0);
    });
}

#[test]
fn test_in_flight_io_accounting_with_linked_timeouts() {
    run(|rt| async move {
        rt.sleep(millis(1)).await.unwrap();
        let baseline = rt.0.state.borrow().stats().in_flight_io;
        for _ in 0..200 {
            let futs: Vec<_> = (0..50)
                .map(|_| rt.expiring(requests::read_with_timeout(3, 0x2000, 1, Some(millis(1)))))
                .collect();
            for result in join_all(futs).await {
                assert_eq!(result, Err(Errno { code: ETIME }));
            }
        }
        rt.sleep(millis(1)).await.unwrap();
        let after = rt.0.state.borrow().stats().in_flight_io;
        assert_eq!(after, baseline);
    });
}

#[test]
fn virtual_sleep_completes_on_advance() {
    run_virtual(|rt| async move {
        let mut sleep = rt.sleep(secs(60));
        assert!(poll_now(&mut sleep).await.is_none(), "should be pending before advance");
        rt.clock_advance(secs(60));
        sleep.await.unwrap();
    });
}

#[test]
fn virtual_sleep_stays_pending_without_advance() {
    run_virtual(|rt| async move {
        let mut sleep = rt.sleep(secs(10));
        for _ in 0..3 {
            assert!(poll_now(&mut sleep).await.is_none());
        }
        rt.clock_advance(secs(5));
        assert!(poll_now(&mut sleep).await.is_none());
        rt.clock_advance(secs(5));
        sleep.await.unwrap();
    });
}

#[test]
fn multiple_virtual_sleeps_wake_in_order() {
    run_virtual(|rt| async move {
        let order = Rc::new(RefCell::new(Vec::new()));
        for n in [30u64, 10, 20] {
            let order = order.clone();
            let inner = rt.clone();
            rt.spawn(async move {
                inner.sleep(secs(n)).await.unwrap();
                order.borrow_mut().push(n);
            });
        }
        rt.yield_io().await;
        rt.clock_advance(secs(30));
        for _ in 0..5 {
            rt.yield_io().await;
        }
        assert_eq!(*order.borrow(), vec![10, 20, 30]);
    });
}

#[test]
fn virtual_sleep_60s_completes_fast() {
    let wall_start = std::time::Instant::now();
    run_virtual(|rt| async move {
        let mut sleep = rt.sleep(secs(60));
        poll_now(&mut sleep).await;
        rt.clock_advance(secs(60));
        sleep.await.unwrap();
    });
    assert!(wall_start.elapsed() < std::time::Duration::from_secs(1));
}

#[test]
fn spawned_virtual_sleep_completes_on_advance() {
    run_virtual(|rt| async move {
        let done = Rc::new(Cell::new(false));
        let d = done.clone();
        let inner = rt.clone();
        rt.spawn(async move {
            inner.sleep(secs(60)).await.unwrap();
            d.set(true);
        });
        rt.yield_io().await;
        assert!(!done.get());
        rt.clock_advance(secs(60));
        rt.yield_io().await;
        rt.yield_io().await;
        assert!(done.get());
    });
}

#[test]
fn sleep_until_completes_at_deadline() {
    run_virtual(|rt| async move {
        let deadline = rt.clock_now().checked_add(secs(5)).unwrap();
        let mut sleep = rt.sleep_until(deadline);
        assert!(poll_now(&mut sleep).await.is_none());
        rt.clock_advance(secs(5));
        sleep.await.unwrap();
    });
}

fn second_before(t: Instant) -> Instant {
    Instant::from_nanos(t.as_nanos() - 1_000_000_000).unwrap()
}

#[test]
fn sleep_until_past_deadline_completes_immediately() {
    run_virtual(|rt| async move {
        let past = second_before(rt.clock_now());
        rt.sleep_until(past).await.unwrap();
        assert_eq!(poll_now(&mut rt.sleep_until(past)).await, Some(Ok(())));
        let mut canceled = rt.sleep_until(past);
        canceled.inner.cancel(&mut rt.0.state.borrow_mut());
        assert_eq!(poll_now(&mut canceled).await, Some(Err(Errno { code: ECANCELED })));
        assert!(canceled.inner.is_terminated());
    });
}

#[test]
fn past_deadline_of_the_system_clock_needs_no_kernel() {
    run(|rt| async move {
        let past = second_before(rt.system_now());
        assert_eq!(poll_now(&mut rt.sleep_until(past)).await, Some(Ok(())));
        assert!(rt.0.ops.borrow().is_empty());
    });
}

#[test]
fn timeout_at_returns_inner_result_on_fast_future() {
    run_virtual(|rt| async move {
        let deadline = rt.clock_now().checked_add(secs(10)).unwrap();
        let result = rt.timeout_at(deadline, async { 42 }).await;
        assert_eq!(result, Ok(42));
    });
}

#[test]
fn timeout_at_returns_timeout_on_advance() {
    run_virtual(|rt| async move {
        let deadline = rt.clock_now().checked_add(secs(5)).unwrap();
        let done = Rc::new(Cell::new(None::<Result<(), TimeoutError>>));
        let d = done.clone();
        let inner = rt.clone();
        rt.spawn(async move {
            let result = inner.timeout_at(deadline, std::future::pending::<()>()).await;
            d.set(Some(result));
        });
        rt.yield_io().await;
        assert!(done.get().is_none(), "should still be pending");
        rt.clock_advance(secs(5));
        rt.yield_io().await;
        rt.yield_io().await;
        assert_eq!(done.get(), Some(Err(TimeoutError::Timeout)));
    });
}

#[test]
fn timeout_at_past_deadline_immediate_timeout() {
    run_virtual(|rt| async move {
        let past_deadline = second_before(rt.clock_now());
        let result = rt.timeout_at(past_deadline, std::future::pending::<()>()).await;
        assert_eq!(result, Err(TimeoutError::Timeout));
    });
}

#[test]
fn dropped_virtual_sleep_cancels_timer() {
    run_virtual(|rt| async move {
        assert_eq!(rt.pending_timers(), 0);
        {
            let mut sleep = rt.sleep(secs(100));
            poll_now(&mut sleep).await;
            assert_eq!(rt.pending_timers(), 1);
        }
        assert_eq!(rt.pending_timers(), 0);
    });
}

#[test]
fn dropped_virtual_sleep_no_spurious_wakeup_on_advance() {
    run_virtual(|rt| async move {
        {
            let mut sleep = rt.sleep(secs(10));
            poll_now(&mut sleep).await;
        }
        assert_eq!(rt.pending_timers(), 0);
        let fired = rt.clock_advance(secs(10));
        assert_eq!(fired, 0);
    });
}

#[test]
fn unpolled_virtual_sleep_drops_cleanly() {
    run_virtual(|rt| async move {
        let sleep = rt.sleep(secs(10));
        drop(sleep);
        assert_eq!(rt.pending_timers(), 0);
    });
}

#[test]
fn canceled_virtual_sleep_reports_it() {
    run_virtual(|rt| async move {
        let mut sleep = rt.sleep(secs(10));
        assert!(poll_now(&mut sleep).await.is_none());
        sleep.inner.cancel(&mut rt.0.state.borrow_mut());
        assert_eq!(rt.pending_timers(), 0);
        assert_eq!(poll_now(&mut sleep).await, Some(Err(Errno { code: ECANCELED })));
        assert!(sleep.inner.is_terminated());
    });
}

#[test]
fn sleep_is_ready_once_its_time_has_come() {
    run_virtual(|rt| async move {
        let mut sleep = rt.sleep(secs(10));
        assert!(poll_now(&mut sleep).await.is_none());
        rt.clock_advance(secs(10));
        assert_eq!(poll_now(&mut sleep).await, Some(Ok(())));

        // One that was never pending yields first.
        let mut empty = rt.sleep(secs(0));
        assert!(poll_now(&mut empty).await.is_none());
        assert_eq!(poll_now(&mut empty).await, Some(Ok(())));
    });
}

#[test]
fn polls_of_a_sleep_leave_one_timer() {
    run_virtual(|rt| async move {
        let mut sleep = VirtualSleepFuture::new(rt.clock_now().checked_add(secs(5)).unwrap());
        let mut state = rt.0.state.borrow_mut();
        for waker in [Wakes::Foreign(0), Wakes::Foreign(0), Wakes::Task(0), Wakes::Foreign(1)] {
            assert_eq!(sleep.poll(&mut state, waker), TaskPoll::Pending);
            assert_eq!(operations::virtual_clock_pending_timers(&state), 1);
        }
        sleep.drop_sleep(&mut state);
    });
}

#[test]
fn canceled_kernel_sleep_ends_with_an_error() {
    run(|rt| async move {
        // Before its operation is noted, and whatever the kernel says.
        let now = rt.system_now();
        let mut early = sleep::sleep(&rt.0.state.borrow(), secs(1), now);
        early.cancel(&mut rt.0.state.borrow_mut());
        early.submitted(7);
        let expired = TaskPoll::Ready(Err(Errno { code: ETIME }));
        // It waits until the kernel let go of its timeout.
        let held = early.poll(&mut rt.0.state.borrow_mut(), Wakes::Foreign(0), TaskPoll::Pending);
        assert_eq!(held, TaskPoll::Pending);
        assert!(!early.is_terminated());
        let polled = early.poll(&mut rt.0.state.borrow_mut(), Wakes::Foreign(0), expired);
        assert_eq!(polled, TaskPoll::Ready(Err(Errno { code: ECANCELED })));
        assert!(early.is_terminated());

        // One that was never submitted has nothing to wait for.
        let mut unsubmitted = sleep::sleep(&rt.0.state.borrow(), secs(1), now);
        unsubmitted.cancel(&mut rt.0.state.borrow_mut());
        let polled =
            unsubmitted.poll(&mut rt.0.state.borrow_mut(), Wakes::Foreign(0), TaskPoll::Pending);
        assert_eq!(polled, TaskPoll::Ready(Err(Errno { code: ECANCELED })));

        let mut sleep = rt.sleep(secs(3600));
        assert!(poll_now(&mut sleep).await.is_none());
        sleep.inner.cancel(&mut rt.0.state.borrow_mut());
        assert!(poll_now(&mut sleep).await.is_none());
        assert_eq!(sleep.await, Err(Errno { code: ECANCELED }));
    });
}

#[test]
fn inner_cancel_leaves_the_outer_scope_alone() {
    run(|rt| async move {
        let event = rt.event();
        rt.scope(async {
            let mut outer = event.wait();
            assert!(poll_now(&mut outer).await.is_none());
            let mut read = rt.io(requests::read(3, 0x2000, 1), millis(50), Ok(1));
            assert!(poll_now(&mut read).await.is_none());
            rt.scope(async {
                let mut inner = event.wait();
                assert!(poll_now(&mut inner).await.is_none());
                rt.scope_cancel();
                assert_eq!(inner.await, Err(CanceledError {}));
            })
            .await;
            assert!(poll_now(&mut outer).await.is_none());
            assert_eq!(read.await, Ok(1));
            event.set();
            assert_eq!(outer.await, Ok(()));
        })
        .await;
    });
}

#[test]
fn callback_completes_sleep() {
    run_virtual(|rt| async move {
        rt.set_idle_advance(to_next);
        rt.sleep(secs(60)).await.unwrap();
    });
}

#[test]
fn callback_60s_completes_fast() {
    let wall_start = std::time::Instant::now();
    run_virtual(|rt| async move {
        rt.set_idle_advance(to_next);
        rt.sleep(secs(60)).await.unwrap();
    });
    assert!(wall_start.elapsed() < std::time::Duration::from_secs(1));
}

#[test]
fn callback_fires_timers_in_sequence() {
    run_virtual(|rt| async move {
        rt.set_idle_advance(to_next);
        rt.sleep(secs(10)).await.unwrap();
        assert_eq!(since_epoch(&rt), secs(10));
        rt.sleep(secs(20)).await.unwrap();
        assert_eq!(since_epoch(&rt), secs(30));
    });
}

#[test]
fn callback_wakes_spawned_task() {
    run_virtual(|rt| async move {
        let done = Rc::new(Cell::new(false));
        let d = done.clone();
        rt.set_idle_advance(to_next);
        let inner = rt.clone();
        rt.spawn(async move {
            inner.sleep(secs(60)).await.unwrap();
            d.set(true);
        });
        rt.sleep(secs(60)).await.unwrap();
        rt.yield_io().await;
        assert!(done.get());
    });
}

#[test]
fn fixed_callback_completes_sleep() {
    let wall_start = std::time::Instant::now();
    run_virtual(|rt| async move {
        rt.set_idle_advance(|_, _| Some(Duration::from_millis(1)));
        rt.sleep(secs(60)).await.unwrap();
    });
    assert!(wall_start.elapsed() < std::time::Duration::from_secs(1));
}

#[test]
fn no_callback_is_noop() {
    run_virtual(|rt| async move {
        assert_eq!(rt.clock_now(), rt.clock_epoch());
        assert!(!operations::virtual_clock_has_idle_advance(&rt.0.state.borrow()));
    });
}

#[test]
fn replace_callback_changes_behavior() {
    run_virtual(|rt| async move {
        rt.set_idle_advance(to_next);
        rt.sleep(secs(60)).await.unwrap();
        assert_eq!(since_epoch(&rt), secs(60));

        rt.set_idle_advance(|_, _| Some(Duration::from_millis(1)));
        rt.sleep(millis(10)).await.unwrap();
        assert!(since_epoch(&rt).as_nanos() >= 60_010_000_000);
    });
}

#[test]
fn declined_callback_is_not_called_again() {
    let calls = Rc::new(Cell::new(0));
    let seen = calls.clone();
    run_virtual(move |rt| async move {
        let counted = calls.clone();
        rt.set_idle_advance(move |_, _| {
            counted.set(counted.get() + 1);
            None
        });
        // The kernel wakes the thread; nothing else does.
        rt.io(requests::read(3, 0x2000, 1), millis(5), Ok(1)).await.unwrap();
        assert_eq!(calls.get(), 1);
        operations::virtual_clock_clear_idle_advance(&mut rt.0.state.borrow_mut());
        rt.io(requests::read(3, 0x2000, 1), millis(5), Ok(1)).await.unwrap();
        assert_eq!(calls.get(), 1);
    });
    assert_eq!(seen.get(), 1);
}

#[test]
fn warning_is_given_once() {
    run_virtual(|rt| async move {
        rt.set_idle_advance(to_next);
        let mut future = rt.sleep(secs(10));
        let mut timer = rt.sleep(secs(3));
        let mut expired = false;
        let mut warned = false;
        let mut warnings = Vec::new();
        std::future::poll_fn(|cx| {
            let inner = from_std(Pin::new(&mut future).poll(cx));
            if !expired {
                expired = Pin::new(&mut timer).poll(cx).is_ready();
            }
            let step = sleep::with_timeout_warning(&mut warned, inner, expired);
            if step.warn {
                warnings.push(since_epoch(&rt));
            }
            to_std(step.poll)
        })
        .await
        .unwrap();
        assert_eq!(warnings, vec![secs(3)]);
        assert_eq!(since_epoch(&rt), secs(10));
    });
}

#[test]
fn high_priority_task_keeps_its_place() {
    run(|rt| async move {
        let order = Rc::new(RefCell::new(Vec::new()));
        let event = rt.event();
        for i in 0..3 {
            let order = order.clone();
            let event = event.clone();
            let inner = rt.clone();
            rt.spawn(async move {
                if i == 2 {
                    operations::set_high_priority(&mut inner.0.state.borrow_mut(), true);
                }
                event.wait().await.unwrap();
                order.borrow_mut().push(i);
            });
        }
        rt.yield_io().await;
        event.set();
        rt.yield_io().await;
        rt.yield_io().await;
        assert_eq!(order.borrow().len(), 3);
    });
}

#[test]
fn identities_are_inherited() {
    run(|rt| async move {
        let identity = operations::task_identity(&rt.0.state.borrow());
        assert_eq!((identity.thread_index, identity.task_index), (0, 1));
        assert_ne!(operations::get_activity_id(&rt.0.state.borrow()), 0);
        operations::set_activity_id_and_tenant_id(&mut rt.0.state.borrow_mut(), 7, 9);
        let inner = rt.clone();
        rt.spawn(async move {
            assert_eq!(operations::get_activity_id(&inner.0.state.borrow()), 7);
            assert_eq!(operations::get_tenant_id(&inner.0.state.borrow()), 9);
        })
        .await
        .unwrap();
    });
}
