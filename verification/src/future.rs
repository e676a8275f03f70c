//! Tasks: units of work that advance only when they are polled.
//!
//! The legacy protocol polls a task to one result of fixed shape, an item or
//! an error. The current protocol polls a task to an output of any type.
use vstd::prelude::*;
use crate::task::{Context, Poll};

verus! {

/// The answer of a poll in the legacy protocol that did not fail.
#[derive(Debug, PartialEq, Eq)]
pub enum Async<T> {
    /// The task has finished with this item.
    Ready(T),
    /// The task has not finished.
    NotReady,
}

/// A task of the legacy protocol: polled until it yields its item or fails.
pub trait Future01: Sized {
    type Item;

    type Error;

    /// The task is in a state that its own operations can leave it in.
    spec fn inv(&self) -> bool;

    /// One poll may take the task from `self` to `next` and answer `answer`.
    spec fn poll_step(&self, next: &Self, answer: Result<Async<Self::Item>, Self::Error>) -> bool;

    /// One poll that is handed the context `cx`, takes the task from `self`
    /// to `next` and answers `answer` may leave the context as `after`.
    spec fn poll_context(
        &self,
        cx: Context,
        next: &Self,
        answer: Result<Async<Self::Item>, Self::Error>,
        after: Context,
    ) -> bool;

    /// Polls the task. Polls never take back a wake-up that has been asked
    /// for.
    fn poll(&mut self, cx: &mut Context) -> (r: Result<Async<Self::Item>, Self::Error>)
        requires
            old(self).inv(),
        ensures
            final(self).inv(),
            old(self).poll_step(final(self), r),
            old(self).poll_context(*old(cx), final(self), r, *final(cx)),
            old(cx).woken ==> final(cx).woken,
    ;
}

/// A task of the current protocol: polled until it yields its output.
pub trait Future03: Sized {
    type Output;

    /// The task is in a state that its own operations can leave it in.
    spec fn inv(&self) -> bool;

    /// One poll may take the task from `self` to `next` and answer `answer`.
    spec fn poll_step(&self, next: &Self, answer: Poll<Self::Output>) -> bool;

    /// One poll that is handed the context `cx`, takes the task from `self`
    /// to `next` and answers `answer` may leave the context as `after`.
    spec fn poll_context(
        &self,
        cx: Context,
        next: &Self,
        answer: Poll<Self::Output>,
        after: Context,
    ) -> bool;

    /// Polls the task. Polls never take back a wake-up that has been asked
    /// for.
    fn poll(&mut self, cx: &mut Context) -> (r: Poll<Self::Output>)
        requires
            old(self).inv(),
        ensures
            final(self).inv(),
            old(self).poll_step(final(self), r),
            old(self).poll_context(*old(cx), final(self), r, *final(cx)),
            old(cx).woken ==> final(cx).woken,
    ;
}

/// A task that is ready at once with a value it was made with.
#[derive(Debug)]
pub struct Ready<T> {
    pub value: Option<T>,
}

/// The task that yields `value` on its first poll.
pub fn ready<T>(value: T) -> (r: Ready<T>)
    ensures
        r.value == Some(value),
{
    Ready { value: Some(value) }
}

impl<T> Future03 for Ready<T> {
    type Output = T;

    open spec fn inv(&self) -> bool {
        true
    }

    open spec fn poll_step(&self, next: &Self, answer: Poll<T>) -> bool {
        &&& next.value is None
        &&& answer == match self.value {
            Some(value) => Poll::Ready(value),
            None => Poll::Pending,
        }
    }

    open spec fn poll_context(&self, cx: Context, next: &Self, answer: Poll<T>, after: Context) -> bool {
        after == cx
    }

    /// Yields the value, once. A task that has yielded is not ready again.
    /// It never asks for a wake-up.
    fn poll(&mut self, cx: &mut Context) -> (r: Poll<T>) {
        match self.value.take() {
            Some(value) => Poll::Ready(value),
            None => Poll::Pending,
        }
    }
}

/// A legacy task that is ready at once with a result it was made with.
#[derive(Debug)]
pub struct FutureResult<T, E> {
    pub result: Option<Result<T, E>>,
}

/// The legacy task that yields `result` on its first poll.
pub fn result<T, E>(outcome: Result<T, E>) -> (r: FutureResult<T, E>)
    ensures
        r.result == Some(outcome),
{
    FutureResult { result: Some(outcome) }
}

impl<T, E> Future01 for FutureResult<T, E> {
    type Item = T;

    type Error = E;

    open spec fn inv(&self) -> bool {
        true
    }

    open spec fn poll_step(&self, next: &Self, answer: Result<Async<T>, E>) -> bool {
        &&& next.result is None
        &&& answer == match self.result {
            Some(Ok(item)) => Ok(Async::Ready(item)),
            Some(Err(e)) => Err(e),
            None => Ok(Async::NotReady),
        }
    }

    open spec fn poll_context(
        &self,
        cx: Context,
        next: &Self,
        answer: Result<Async<T>, E>,
        after: Context,
    ) -> bool {
        after == cx
    }

    /// Yields the result, once. A task that has yielded is not ready again.
    /// It never asks for a wake-up.
    fn poll(&mut self, cx: &mut Context) -> (r: Result<Async<T>, E>) {
        match self.result.take() {
            Some(Ok(item)) => Ok(Async::Ready(item)),
            Some(Err(e)) => Err(e),
            None => Ok(Async::NotReady),
        }
    }
}

} // verus!
