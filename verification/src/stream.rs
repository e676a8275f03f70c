//! Chunk-producing sequences: the upstream side of the reader adapter.
use vstd::prelude::*;
use crate::error::Error;
use crate::task::{Context, Poll};

verus! {

/// One item of a chunk sequence, seen as plain data: a chunk of bytes or the
/// failure that took its place.
pub type Item = Result<Seq<u8>, Error>;

/// The answer of one poll of a chunk sequence, seen as plain data: not ready,
/// the next item, or `None` at the end of the sequence.
pub type Answer = Poll<Option<Item>>;

/// The plain-data view of an item.
pub open spec fn item_view(item: Result<Vec<u8>, Error>) -> Item {
    match item {
        Ok(chunk) => Ok(chunk@),
        Err(e) => Err(e),
    }
}

/// The plain-data view of the answer of one poll.
pub open spec fn answer_view(r: Poll<Option<Result<Vec<u8>, Error>>>) -> Answer {
    match r {
        Poll::Pending => Poll::Pending,
        Poll::Ready(None) => Poll::Ready(None),
        Poll::Ready(Some(item)) => Poll::Ready(Some(item_view(item))),
    }
}

/// A sequence of byte chunks that is pulled one poll at a time.
///
/// Each poll either is not ready, yields the next chunk, yields a failure, or
/// reports the end of the sequence. What a given sequence does on a poll is
/// its `poll_step` relation, and what the poll does to the context it is
/// handed is its `poll_context` relation; `try_poll_next` is bound to both.
pub trait TryStream: Sized {
    /// The sequence is in a state that its own operations can leave it in.
    spec fn inv(&self) -> bool;

    /// One poll may take the sequence from `self` to `next` and answer
    /// `answer`.
    spec fn poll_step(&self, next: &Self, answer: Answer) -> bool;

    /// One poll that is handed the context `cx`, takes the sequence from
    /// `self` to `next` and answers `answer` may leave the context as
    /// `after`.
    spec fn poll_context(&self, cx: Context, next: &Self, answer: Answer, after: Context) -> bool;

    /// Pulls the next item. Polls never take back a wake-up that has been
    /// asked for.
    fn try_poll_next(&mut self, cx: &mut Context) -> (r: Poll<Option<Result<Vec<u8>, Error>>>)
        requires
            old(self).inv(),
        ensures
            final(self).inv(),
            old(self).poll_step(final(self), answer_view(r)),
            old(self).poll_context(*old(cx), final(self), answer_view(r), *final(cx)),
            old(cx).woken ==> final(cx).woken,
    ;
}

/// A chunk sequence that yields the items of a list, first to last, and is
/// ready on every poll.
#[derive(Debug)]
pub struct Iter {
    pub items: Vec<Result<Vec<u8>, Error>>,
}

/// The sequence that yields `items` in order and then ends.
pub fn iter(items: Vec<Result<Vec<u8>, Error>>) -> (s: Iter)
    ensures
        s.items == items,
{
    Iter { items }
}

impl Iter {
    /// The items not yet yielded, in the order in which they will come.
    pub open spec fn upcoming(&self) -> Seq<Item> {
        self.items@.map_values(|item: Result<Vec<u8>, Error>| item_view(item))
    }
}

impl TryStream for Iter {
    open spec fn inv(&self) -> bool {
        true
    }

    open spec fn poll_step(&self, next: &Self, answer: Answer) -> bool {
        if self.upcoming().len() == 0 {
            answer == Poll::<Option<Item>>::Ready(None) && next.upcoming().len() == 0
        } else {
            answer == Poll::Ready(Some(self.upcoming()[0])) && next.upcoming() == self.upcoming().skip(1)
        }
    }

    open spec fn poll_context(&self, cx: Context, next: &Self, answer: Answer, after: Context) -> bool {
        after == cx
    }

    /// Yields the first of the items that are left, or reports the end. It
    /// never asks for a wake-up.
    fn try_poll_next(&mut self, cx: &mut Context) -> (r: Poll<Option<Result<Vec<u8>, Error>>>) {
        if self.items.len() == 0 {
            Poll::Ready(None)
        } else {
            let item = self.items.remove(0);
            assert(self.upcoming() =~= old(self).upcoming().skip(1));
            Poll::Ready(Some(item))
        }
    }
}

} // verus!
