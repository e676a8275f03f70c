//! Byte readers that are polled: the contract every reader of this crate
//! keeps, and every wrapper relies on.
use vstd::prelude::*;
use crate::error::Error;
use crate::task::{Context, Poll};

verus! {

/// The answer of one read or peek, seen as plain data: not ready, a failure,
/// or the bytes that were delivered or exposed.
pub type Bytes = Poll<Result<Seq<u8>, Error>>;

/// The plain-data view of the answer of a read into a buffer that now holds
/// `buf`: the count stands for the first so many bytes of the buffer.
pub open spec fn read_view(r: Poll<Result<usize, Error>>, buf: Seq<u8>) -> Bytes {
    match r {
        Poll::Pending => Poll::Pending,
        Poll::Ready(Err(e)) => Poll::Ready(Err(e)),
        Poll::Ready(Ok(n)) => Poll::Ready(Ok(buf.take(n as int))),
    }
}

/// The plain-data view of the answer of a peek.
pub open spec fn fill_view(r: Poll<Result<&[u8], Error>>) -> Bytes {
    match r {
        Poll::Pending => Poll::Pending,
        Poll::Ready(Err(e)) => Poll::Ready(Err(e)),
        Poll::Ready(Ok(s)) => Poll::Ready(Ok(s@)),
    }
}

/// The bytes that an answer hands to the caller: none unless it is a
/// successful one.
pub open spec fn delivered(answer: Bytes) -> Seq<u8> {
    match answer {
        Poll::Ready(Ok(bytes)) => bytes,
        _ => Seq::empty(),
    }
}

/// A source of bytes that is read one poll at a time.
///
/// A read copies bytes to the front of the caller's buffer and answers with
/// their count. It may deliver fewer bytes than the buffer holds, and it
/// touches nothing of the buffer behind the bytes it delivered. What a given
/// reader does on a read is its `read_step` relation, and what the read does
/// to the context it is handed is its `read_context` relation; `poll_read`
/// is bound to both.
pub trait AsyncRead: Sized {
    /// The reader is in a state that its own operations can leave it in.
    spec fn inv(&self) -> bool;

    /// One read into a buffer of `want` bytes may take the reader from `self`
    /// to `next` and answer `answer`.
    spec fn read_step(&self, want: usize, next: &Self, answer: Bytes) -> bool;

    /// One read into a buffer of `want` bytes that is handed the context
    /// `cx`, takes the reader from `self` to `next` and answers `answer` may
    /// leave the context as `after`.
    spec fn read_context(
        &self,
        cx: Context,
        want: usize,
        next: &Self,
        answer: Bytes,
        after: Context,
    ) -> bool;

    /// Reads into `buf`. Polls never take back a wake-up that has been asked
    /// for.
    fn poll_read(&mut self, cx: &mut Context, buf: &mut [u8]) -> (r: Poll<Result<usize, Error>>)
        requires
            old(self).inv(),
        ensures
            final(self).inv(),
            old(self).read_step(old(buf).len(), final(self), read_view(r, final(buf)@)),
            old(self).read_context(
                *old(cx),
                old(buf).len(),
                final(self),
                read_view(r, final(buf)@),
                *final(cx),
            ),
            final(buf)@.len() == old(buf)@.len(),
            match r {
                Poll::Ready(Ok(n)) => n <= old(buf)@.len() && final(buf)@.skip(n as int) == old(
                    buf,
                )@.skip(n as int),
                _ => final(buf)@ == old(buf)@,
            },
            old(cx).woken ==> final(cx).woken,
    ;
}

/// A reader that lets the caller look at its next bytes before taking them.
///
/// A peek exposes bytes without consuming them; `consume` then takes as many
/// of them as the caller has used.
pub trait AsyncBufRead: AsyncRead {
    /// How many bytes are exposed right now: what the last peek showed, less
    /// what has been consumed since.
    spec fn exposed(&self) -> usize;

    /// One peek may take the reader from `self` to `next` and answer
    /// `answer`.
    spec fn fill_step(&self, next: &Self, answer: Bytes) -> bool;

    /// One peek that is handed the context `cx`, takes the reader from
    /// `self` to `next` and answers `answer` may leave the context as
    /// `after`.
    spec fn fill_context(&self, cx: Context, next: &Self, answer: Bytes, after: Context) -> bool;

    /// Consuming `amount` bytes may take the reader from `self` to `next`.
    spec fn consume_step(&self, amount: usize, next: &Self) -> bool;

    /// The number of bytes that are exposed right now: the most that
    /// `consume` may be asked to take.
    fn exposed_len(&self) -> (n: usize)
        requires
            self.inv(),
        ensures
            n == self.exposed(),
    ;

    /// Peeks at the next bytes. The slice handed out is what stays exposed.
    fn poll_fill_buf<'a>(&'a mut self, cx: &mut Context) -> (r: Poll<Result<&'a [u8], Error>>)
        requires
            old(self).inv(),
        ensures
            final(self).inv(),
            old(self).fill_step(final(self), fill_view(r)),
            old(self).fill_context(*old(cx), final(self), fill_view(r), *final(cx)),
            r matches Poll::Ready(Ok(s)) ==> s@.len() == final(self).exposed(),
            old(cx).woken ==> final(cx).woken,
    ;

    /// Takes `amount` of the exposed bytes. To ask for more than is exposed
    /// is a fault of the caller.
    fn consume(&mut self, amount: usize)
        requires
            old(self).inv(),
            amount <= old(self).exposed(),
        ensures
            final(self).inv(),
            old(self).consume_step(amount, final(self)),
    ;
}

} // verus!
