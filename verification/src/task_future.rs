//! A task's future, and its result once it has one.

use vstd::prelude::*;

verus! {

/// What a poll of a future gives.
#[derive(Debug, PartialEq, Eq)]
pub enum Poll<T> {
    /// The future is over.
    Ready(T),
    /// The future goes on.
    Pending,
}

/// A task's future while it goes on, or what became of it.
///
/// `T` is what the future returns, `E` what it panicked with.
pub enum TaskFuture<F, T, E> {
    /// The future that is being polled.
    Future {
        future: F,
    },
    /// What the future returned or panicked with, until somebody takes it.
    Result {
        result: Option<Result<T, E>>,
    },
}

/// A future that keeps its result for whoever asks for it.
pub trait FutureOrResult<T, E>: Sized {
    /// Whether the future goes on.
    spec fn goes_on(&self) -> bool;

    /// The result that is kept.
    spec fn kept(&self) -> Option<Result<T, E>>;

    /// Takes in what a poll of the future gave: `Ok` with what the poll returned, or
    /// `Err` with what it panicked with. A future that returned or panicked is dropped
    /// and not polled again.
    fn poll(&mut self, outcome: Result<Poll<T>, E>) -> (p: Poll<()>)
        requires
            old(self).goes_on(),
        ensures
            match outcome {
                Ok(Poll::Pending) => p == Poll::<()>::Pending && *final(self) == *old(self),
                Ok(Poll::Ready(value)) => {
                    &&& p == Poll::Ready(())
                    &&& !final(self).goes_on()
                    &&& final(self).kept() == Some(Ok::<T, E>(value))
                },
                Err(payload) => {
                    &&& p == Poll::Ready(())
                    &&& !final(self).goes_on()
                    &&& final(self).kept() == Some(Err::<T, E>(payload))
                },
            },
    ;

    /// Takes the result: `None` while the future goes on, and after the result was
    /// taken.
    fn result(&mut self) -> (r: Option<Result<T, E>>)
        ensures
            r == (if old(self).goes_on() {
                None
            } else {
                old(self).kept()
            }),
            final(self).goes_on() == old(self).goes_on(),
            old(self).goes_on() ==> *final(self) == *old(self),
            !old(self).goes_on() ==> final(self).kept() is None,
    ;
}

impl<F, T, E> FutureOrResult<T, E> for TaskFuture<F, T, E> {
    open spec fn goes_on(&self) -> bool {
        self is Future
    }

    open spec fn kept(&self) -> Option<Result<T, E>> {
        match *self {
            TaskFuture::Future { future: _ } => None,
            TaskFuture::Result { result } => result,
        }
    }

    fn poll(&mut self, outcome: Result<Poll<T>, E>) -> (p: Poll<()>) {
        match outcome {
            Ok(Poll::Pending) => Poll::Pending,
            Ok(Poll::Ready(value)) => {
                *self = TaskFuture::Result { result: Some(Ok(value)) };
                Poll::Ready(())
            },
            Err(payload) => {
                *self = TaskFuture::Result { result: Some(Err(payload)) };
                Poll::Ready(())
            },
        }
    }

    fn result(&mut self) -> (r: Option<Result<T, E>>) {
        match self {
            TaskFuture::Future { future: _ } => None,
            TaskFuture::Result { result } => result.take(),
        }
    }
}

} // verus!
