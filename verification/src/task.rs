//! The answer of one poll, and the capability to ask for another.
use vstd::prelude::*;

verus! {

/// What a poll hands back: the result, or word that it is not there yet.
#[derive(Debug, PartialEq, Eq)]
pub enum Poll<T> {
    /// The operation finished with this value.
    Ready(T),
    /// The operation is not finished; the caller is to poll again once it
    /// has been notified.
    Pending,
}

impl<T> Poll<T> {
    /// True if the poll carries a result.
    pub fn is_ready(&self) -> (b: bool)
        ensures
            b == (*self is Ready),
    {
        match self {
            Poll::Ready(_) => true,
            Poll::Pending => false,
        }
    }

    /// True if the operation is not finished.
    pub fn is_pending(&self) -> (b: bool)
        ensures
            b == (*self is Pending),
    {
        match self {
            Poll::Ready(_) => false,
            Poll::Pending => true,
        }
    }
}

/// The notification capability handed down into every poll.
///
/// A handle that answers [`Poll::Pending`] although nothing outside will
/// notify the task calls [`Context::wake`], so that the owner of the task
/// polls again. The request is a flag: once raised it stays raised until the
/// owner of the context takes it with [`Context::take_wake`].
#[derive(Clone, Copy, Debug, PartialEq, Eq, Hash)]
pub struct Context {
    pub woken: bool,
}

impl Context {
    /// A context on which no wake-up has been asked for.
    pub fn new() -> (cx: Context)
        ensures
            !cx.woken,
    {
        Context { woken: false }
    }

    /// Asks for the task to be polled again.
    pub fn wake(&mut self)
        ensures
            final(self).woken,
    {
        self.woken = true;
    }

    /// True if a wake-up has been asked for and not yet taken.
    pub fn is_woken(&self) -> (b: bool)
        ensures
            b == self.woken,
    {
        self.woken
    }

    /// Hands the pending wake-up request to the caller and clears it.
    pub fn take_wake(&mut self) -> (b: bool)
        ensures
            b == old(self).woken,
            !final(self).woken,
    {
        let b = self.woken;
        self.woken = false;
        b
    }
}

} // verus!
