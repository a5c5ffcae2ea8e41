//! The virtual clock: when timers fire, in which order, and the idle callback.

use std::sync::atomic::{AtomicUsize, Ordering as AtomicOrdering};
use std::sync::Arc;
use std::task::Waker;

use kimojio::time::{Duration, Instant};
use kimojio::virtual_clock::{TimerId, VirtualClockState};

type IdleAdvanceFn = Box<dyn FnMut(Instant, Option<Instant>) -> Option<Duration>>;

type Clock = VirtualClockState<Waker, IdleAdvanceFn>;

fn some_instant() -> Instant {
    Instant::from_nanos(1_234_567_890_123).unwrap()
}

fn later(start: Instant, d: Duration) -> Instant {
    start.checked_add(d).unwrap()
}

struct CountingWake(AtomicUsize);

impl std::task::Wake for CountingWake {
    fn wake(self: Arc<Self>) {
        self.0.fetch_add(1, AtomicOrdering::SeqCst);
    }
    fn wake_by_ref(self: &Arc<Self>) {
        self.0.fetch_add(1, AtomicOrdering::SeqCst);
    }
}

fn counting_waker() -> (Waker, Arc<CountingWake>) {
    let counter = Arc::new(CountingWake(AtomicUsize::new(0)));
    let waker = Waker::from(counter.clone());
    (waker, counter)
}

struct OrderRecorder {
    index: usize,
    order: Arc<std::sync::Mutex<Vec<usize>>>,
}

impl std::task::Wake for OrderRecorder {
    fn wake(self: Arc<Self>) {
        self.order.lock().unwrap().push(self.index);
    }
    fn wake_by_ref(self: &Arc<Self>) {
        self.order.lock().unwrap().push(self.index);
    }
}

fn ordering_waker(index: usize, order: &Arc<std::sync::Mutex<Vec<usize>>>) -> Waker {
    Waker::from(Arc::new(OrderRecorder {
        index,
        order: order.clone(),
    }))
}

#[test]
fn virtual_clock_initial_time() {
    let start = some_instant();
    let state = Clock::new(start);
    assert_eq!(state.now(), start);
}

#[test]
fn advance_with_no_timers_returns_zero() {
    let mut state = Clock::new(some_instant());
    let (fired, wakers) = state.advance(Duration::from_secs(10));
    assert_eq!(fired, 0);
    assert!(wakers.is_empty());
}

#[test]
fn advance_by_zero_fires_no_timers() {
    let mut state = Clock::new(some_instant());
    let (waker, counter) = counting_waker();
    let deadline = later(state.now(), Duration::from_secs(1));
    state.register_timer(deadline, waker);
    let (fired, wakers) = state.advance(Duration::from_secs(0));
    assert_eq!(fired, 0);
    assert!(wakers.is_empty());
    assert_eq!(counter.0.load(AtomicOrdering::SeqCst), 0);
}

#[test]
fn advance_fires_expired_timers() {
    let start = some_instant();
    let mut state = Clock::new(start);
    let (waker, counter) = counting_waker();
    state.register_timer(later(start, Duration::from_secs(5)), waker);
    let (fired, wakers) = state.advance(Duration::from_secs(5));
    assert_eq!(fired, 1);
    for w in wakers {
        w.wake();
    }
    assert_eq!(counter.0.load(AtomicOrdering::SeqCst), 1);
}

#[test]
fn advance_does_not_fire_future_timers() {
    let start = some_instant();
    let mut state = Clock::new(start);
    let (waker, counter) = counting_waker();
    state.register_timer(later(start, Duration::from_secs(10)), waker);
    let (fired, wakers) = state.advance(Duration::from_secs(3));
    assert_eq!(fired, 0);
    assert!(wakers.is_empty());
    assert_eq!(counter.0.load(AtomicOrdering::SeqCst), 0);
}

#[test]
fn timers_fire_in_deadline_order() {
    let start = some_instant();
    let mut state = Clock::new(start);
    let order = Arc::new(std::sync::Mutex::new(Vec::new()));
    for (secs, i) in [(5u64, 0usize), (10, 1), (7, 2)] {
        let waker = ordering_waker(i, &order);
        state.register_timer(later(start, Duration::from_secs(secs)), waker);
    }
    let (fired, wakers) = state.advance(Duration::from_secs(15));
    assert_eq!(fired, 3);
    for w in wakers {
        w.wake();
    }
    assert_eq!(*order.lock().unwrap(), vec![0, 2, 1]);
}

#[test]
fn equal_deadline_fires_in_registration_order() {
    let start = some_instant();
    let mut state = Clock::new(start);
    let deadline = later(start, Duration::from_secs(5));
    let order = Arc::new(std::sync::Mutex::new(Vec::new()));
    for i in 0..3 {
        let waker = ordering_waker(i, &order);
        state.register_timer(deadline, waker);
    }
    let (fired, wakers) = state.advance(Duration::from_secs(5));
    assert_eq!(fired, 3);
    for w in wakers {
        w.wake();
    }
    assert_eq!(*order.lock().unwrap(), vec![0, 1, 2]);
}

#[test]
fn cancel_timer_prevents_firing() {
    let start = some_instant();
    let mut state = Clock::new(start);
    let (waker, counter) = counting_waker();
    let id = state.register_timer(later(start, Duration::from_secs(5)), waker);
    state.cancel_timer(id);
    let (fired, wakers) = state.advance(Duration::from_secs(10));
    assert_eq!(fired, 0);
    assert!(wakers.is_empty());
    assert_eq!(counter.0.load(AtomicOrdering::SeqCst), 0);
}

#[test]
fn cancel_nonexistent_timer_is_noop() {
    let mut state = Clock::new(some_instant());
    state.cancel_timer(TimerId(999));
}

#[test]
fn next_deadline_returns_earliest() {
    let start = some_instant();
    let mut state = Clock::new(start);
    let (w1, _) = counting_waker();
    let (w2, _) = counting_waker();
    let (w3, _) = counting_waker();
    state.register_timer(later(start, Duration::from_secs(10)), w1);
    state.register_timer(later(start, Duration::from_secs(3)), w2);
    state.register_timer(later(start, Duration::from_secs(7)), w3);
    assert_eq!(state.next_deadline(), Some(later(start, Duration::from_secs(3))));
}

#[test]
fn next_deadline_none_when_empty() {
    let state = Clock::new(some_instant());
    assert_eq!(state.next_deadline(), None);
}

#[test]
fn advance_to_specific_instant() {
    let start = some_instant();
    let mut state = Clock::new(start);
    let (w1, c1) = counting_waker();
    let (w2, _c2) = counting_waker();
    state.register_timer(later(start, Duration::from_secs(5)), w1);
    state.register_timer(later(start, Duration::from_secs(10)), w2);
    let target = later(start, Duration::from_secs(7));
    let (fired, wakers) = state.advance_to(target);
    assert_eq!(fired, 1);
    assert_eq!(state.now(), target);
    for w in wakers {
        w.wake();
    }
    assert_eq!(c1.0.load(AtomicOrdering::SeqCst), 1);
}

#[test]
fn advance_to_before_current_time_is_noop() {
    let start = some_instant();
    let mut state = Clock::new(start);
    state.advance(Duration::from_secs(10));
    let before = later(start, Duration::from_secs(5));
    let (fired, wakers) = state.advance_to(before);
    assert_eq!(fired, 0);
    assert!(wakers.is_empty());
    assert_eq!(state.now(), later(start, Duration::from_secs(10)));
}

#[test]
fn move_back_fires_no_timer() {
    let start = some_instant();
    let mut state: VirtualClockState<u32, ()> = VirtualClockState::new(start);
    state.advance(Duration::from_secs(10));
    state.register_timer(start, 1);
    let before = later(start, Duration::from_secs(5));
    assert_eq!(state.advance_to(before), (0, vec![]));
    assert_eq!(state.pending_timers(), 1);
    assert_eq!(state.advance(Duration::from_nanos(0)), (1, vec![1]));
}

#[test]
fn pending_timers_count() {
    let start = some_instant();
    let mut state = Clock::new(start);
    assert_eq!(state.pending_timers(), 0);
    let (w1, _) = counting_waker();
    let (w2, _) = counting_waker();
    state.register_timer(later(start, Duration::from_secs(5)), w1);
    state.register_timer(later(start, Duration::from_secs(10)), w2);
    assert_eq!(state.pending_timers(), 2);
    state.advance(Duration::from_secs(7));
    assert_eq!(state.pending_timers(), 1);
}

#[test]
fn past_deadline_timer_fires_on_next_advance() {
    let start = some_instant();
    let mut state = Clock::new(later(start, Duration::from_secs(10)));
    let (waker, counter) = counting_waker();
    state.register_timer(later(start, Duration::from_secs(5)), waker);
    assert_eq!(counter.0.load(AtomicOrdering::SeqCst), 0);
    let (fired, wakers) = state.advance(Duration::from_secs(0));
    assert_eq!(fired, 1);
    for w in wakers {
        w.wake();
    }
    assert_eq!(counter.0.load(AtomicOrdering::SeqCst), 1);
}

#[test]
fn idle_advance_fn_none_by_default() {
    let state = Clock::new(some_instant());
    assert!(!state.has_idle_advance_fn());
}

#[test]
fn set_idle_advance_fn_stores() {
    let mut state = Clock::new(some_instant());
    state.set_idle_advance_fn(Some(Box::new(|_, _| Some(Duration::from_secs(1)))));
    assert!(state.has_idle_advance_fn());
}

#[test]
fn set_and_clear_idle_advance_fn() {
    let mut state = Clock::new(some_instant());
    state.set_idle_advance_fn(Some(Box::new(|_, _| Some(Duration::from_secs(1)))));
    assert!(state.has_idle_advance_fn());

    state.set_idle_advance_fn(None);
    assert!(!state.has_idle_advance_fn());
}

#[test]
fn take_idle_advance_fn_returns_none_when_empty() {
    let mut state = Clock::new(some_instant());
    assert!(state.take_idle_advance_fn().is_none());
}

#[test]
fn take_idle_advance_fn_extracts_callback() {
    let mut state = Clock::new(some_instant());
    state.set_idle_advance_fn(Some(Box::new(|_, _| Some(Duration::from_secs(1)))));
    let cb = state.take_idle_advance_fn();
    assert!(cb.is_some());
    assert!(!state.has_idle_advance_fn());
}

#[test]
fn restore_idle_advance_fn_puts_back_when_clean() {
    let mut state = Clock::new(some_instant());
    state.set_idle_advance_fn(Some(Box::new(|_, _| Some(Duration::from_secs(1)))));
    let cb = state.take_idle_advance_fn().unwrap();
    // dirty flag was reset by take
    assert!(!state.has_idle_advance_fn());
    let was_replaced = state.restore_idle_advance_fn(cb);
    assert!(!was_replaced);
    assert!(state.has_idle_advance_fn());
}

#[test]
fn restore_idle_advance_fn_drops_when_dirty() {
    let mut state = Clock::new(some_instant());
    state.set_idle_advance_fn(Some(Box::new(|_, _| Some(Duration::from_secs(1)))));
    let cb = state.take_idle_advance_fn().unwrap();
    // Simulate user code calling set during invocation
    state.set_idle_advance_fn(None);
    // dirty flag is now set - restore should NOT put back the old callback
    let was_replaced = state.restore_idle_advance_fn(cb);
    assert!(was_replaced);
    assert!(!state.has_idle_advance_fn());
}

#[test]
fn callback_invoked_with_correct_params() {
    let start = some_instant();
    let mut state = Clock::new(start);
    let (waker, _) = counting_waker();
    let deadline = later(start, Duration::from_secs(10));
    state.register_timer(deadline, waker);

    state.set_idle_advance_fn(Some(Box::new(|now, next| {
        next.map(|d| d.saturating_duration_since(now))
    })));

    let mut cb = state.take_idle_advance_fn().unwrap();
    let now = state.now();
    let next = state.next_deadline();
    let result = cb(now, next);

    assert_eq!(now, start);
    assert_eq!(next, Some(deadline));
    assert_eq!(result, Some(Duration::from_secs(10)));
}

#[test]
fn advance_in_steps_fires_the_same_timers() {
    let start = some_instant();
    let order = Arc::new(std::sync::Mutex::new(Vec::new()));
    let mut state = Clock::new(start);
    for (secs, i) in [(9u64, 0usize), (3, 1), (6, 2), (3, 3)] {
        state.register_timer(later(start, Duration::from_secs(secs)), ordering_waker(i, &order));
    }
    for step in 0..10 {
        let (fired, wakers) = state.advance(Duration::from_secs(1));
        assert_eq!(fired, wakers.len());
        assert_eq!(fired, if step == 2 { 2 } else if step == 5 || step == 8 { 1 } else { 0 });
        for w in wakers {
            w.wake();
        }
    }
    assert_eq!(*order.lock().unwrap(), vec![1, 3, 2, 0]);
    assert_eq!(state.pending_timers(), 0);
}

#[test]
fn advance_past_the_latest_instant_moves_a_century() {
    let start = some_instant();
    let mut state = Clock::new(start);
    let forever = Duration::from_parts(u64::MAX, 999_999_999);
    assert!(state.can_advance(forever));
    state.advance(forever);
    let century = Duration::from_secs(365 * 24 * 3600 * 100);
    assert_eq!(state.now(), later(start, century));
    assert_eq!(state.epoch(), start);
}

#[test]
fn a_clock_near_the_latest_instant_cannot_advance() {
    let start = Instant::from_nanos(9_223_372_036_854_775_807_999_999_999).unwrap();
    let state = Clock::new(start);
    assert!(state.can_advance(Duration::from_secs(0)));
    assert!(!state.can_advance(Duration::from_nanos(1)));
}

#[test]
fn canceling_one_timer_keeps_the_others() {
    let start = some_instant();
    let mut state = Clock::new(start);
    let order = Arc::new(std::sync::Mutex::new(Vec::new()));
    let mut ids = Vec::new();
    for i in 0..4 {
        let deadline = later(start, Duration::from_secs(4 - i as u64));
        ids.push(state.register_timer(deadline, ordering_waker(i, &order)));
    }
    assert_eq!(ids, vec![TimerId(1), TimerId(2), TimerId(3), TimerId(4)]);
    state.cancel_timer(ids[1]);
    state.cancel_timer(ids[1]);
    let (fired, wakers) = state.advance(Duration::from_secs(4));
    assert_eq!(fired, 3);
    for w in wakers {
        w.wake();
    }
    assert_eq!(*order.lock().unwrap(), vec![3, 2, 0]);
}

#[test]
fn time_is_the_epoch_and_the_moves() {
    let start = some_instant();
    let mut state: VirtualClockState<u32, ()> = VirtualClockState::new(start);
    state.register_timer(start, 1);
    state.advance(Duration::from_secs(3));
    state.set_idle_advance_fn(Some(()));
    state.advance(Duration::from_secs(4));
    assert_eq!(state.epoch(), start);
    assert_eq!(state.now(), later(start, Duration::from_secs(7)));
}

#[test]
fn registration_adds_one_timer_under_a_new_id() {
    let start = some_instant();
    let mut state: VirtualClockState<u32, ()> = VirtualClockState::new(start);
    let late = later(start, Duration::from_secs(9));
    let soon = later(start, Duration::from_secs(2));
    let first = state.register_timer(late, 1);
    assert_eq!((state.pending_timers(), state.next_deadline()), (1, Some(late)));
    let second = state.register_timer(soon, 2);
    assert_eq!((state.pending_timers(), state.next_deadline()), (2, Some(soon)));
    state.cancel_timer(second);
    state.advance(Duration::from_secs(9));
    let third = state.register_timer(start, 3);
    assert_eq!((state.pending_timers(), state.next_deadline()), (1, Some(start)));
    assert!(third != first && third != second);
}
