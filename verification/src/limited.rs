//! A reader that never asks its source for more than a fixed number of bytes.
use vstd::prelude::*;
use crate::error::Error;
use crate::into_async_read::{chunk_of, min, IntoAsyncRead, Phase};
use crate::io::{delivered, AsyncBufRead, AsyncRead, Bytes};
use crate::stream::{Answer, TryStream};
use crate::task::{Context, Poll};

verus! {

/// Wraps a reader and caps every read at `limit` bytes.
///
/// The cap cuts the request, not the answer: the wrapped reader is handed the
/// first `limit` bytes of the caller's buffer and never sees the rest. Nothing
/// is buffered in between, so peeks and consumes pass straight through.
#[derive(Debug)]
pub struct Limited<Io> {
    pub io: Io,
    pub limit: usize,
}

impl<Io> Limited<Io> {
    /// Wraps `io` with a cap of `limit` bytes on each read.
    pub fn new(io: Io, limit: usize) -> (r: Self)
        ensures
            r.io == io,
            r.limit == limit,
    {
        Limited { io, limit }
    }

    /// The wrapped reader.
    pub fn get_ref(&self) -> (io: &Io)
        ensures
            *io == self.io,
    {
        &self.io
    }

    /// Unwraps the reader.
    pub fn into_inner(self) -> (io: Io)
        ensures
            io == self.io,
    {
        self.io
    }
}

/// What is asked of the wrapped reader where the caller's buffer holds `want`
/// bytes and the cap is `limit`: the smaller of the two.
pub open spec fn capped(limit: usize, want: usize) -> usize {
    if want < limit {
        want
    } else {
        limit
    }
}

impl<R: AsyncRead> AsyncRead for Limited<R> {
    open spec fn inv(&self) -> bool {
        self.io.inv()
    }

    open spec fn read_step(&self, want: usize, next: &Self, answer: Bytes) -> bool {
        &&& next.limit == self.limit
        &&& self.io.read_step(capped(self.limit, want), &next.io, answer)
        &&& delivered(answer).len() <= capped(self.limit, want)
    }

    open spec fn read_context(
        &self,
        cx: Context,
        want: usize,
        next: &Self,
        answer: Bytes,
        after: Context,
    ) -> bool {
        self.io.read_context(cx, capped(self.limit, want), &next.io, answer, after)
    }

    /// Hands the wrapped reader the front of `buf`, `limit` bytes at most,
    /// and the caller's context, for one read of its own.
    fn poll_read(&mut self, cx: &mut Context, buf: &mut [u8]) -> (r: Poll<Result<usize, Error>>)
        ensures
            r matches Poll::Ready(Ok(n)) ==> n <= old(self).limit,
    {
        let len = if buf.len() < self.limit {
            buf.len()
        } else {
            self.limit
        };
        let (head, tail) = buf.split_at_mut(len);
        let ghost head_before = head@;
        let r = self.io.poll_read(cx, head);
        proof {
            let before = old(buf)@;
            let after = head@ + tail@;
            assert(before =~= head_before + tail@);
            match r {
                Poll::Ready(Ok(n)) => {
                    assert(after.take(n as int) =~= head@.take(n as int));
                    assert(after.skip(n as int) =~= head@.skip(n as int) + tail@);
                    assert(before.skip(n as int) =~= head_before.skip(n as int) + tail@);
                },
                _ => {},
            }
        }
        r
    }
}

impl<R: AsyncBufRead> AsyncBufRead for Limited<R> {
    open spec fn exposed(&self) -> usize {
        self.io.exposed()
    }

    open spec fn fill_step(&self, next: &Self, answer: Bytes) -> bool {
        &&& next.limit == self.limit
        &&& self.io.fill_step(&next.io, answer)
    }

    open spec fn fill_context(&self, cx: Context, next: &Self, answer: Bytes, after: Context) -> bool {
        self.io.fill_context(cx, &next.io, answer, after)
    }

    open spec fn consume_step(&self, amount: usize, next: &Self) -> bool {
        &&& next.limit == self.limit
        &&& self.io.consume_step(amount, &next.io)
    }

    fn exposed_len(&self) -> (n: usize) {
        self.io.exposed_len()
    }

    /// One peek of the wrapped reader, uncapped, with the caller's context.
    fn poll_fill_buf<'a>(&'a mut self, cx: &mut Context) -> (r: Poll<Result<&'a [u8], Error>>) {
        self.io.poll_fill_buf(cx)
    }

    /// One consume of the wrapped reader.
    fn consume(&mut self, amount: usize) {
        self.io.consume(amount)
    }
}

/// A capped read never delivers more than the cap, whatever the wrapped
/// reader and however large the caller's buffer.
pub proof fn lemma_capped_read_fits<R: AsyncRead>(
    pre: &Limited<R>,
    want: usize,
    next: &Limited<R>,
    answer: Bytes,
)
    requires
        pre.read_step(want, next, answer),
    ensures
        delivered(answer).len() <= pre.limit,
        delivered(answer).len() <= want,
{
}

/// A capped read from a chunk reader that has a chunk to read from, be it
/// held or pulled by this read, delivers the next bytes of it, as many as
/// the cap, the buffer and the chunk allow, no fewer and no more: with a
/// buffer of at least `limit` bytes and a chunk with more than `limit` bytes
/// left, exactly `limit`.
pub proof fn lemma_capped_read_of_chunk<St: TryStream>(
    pre: &Limited<IntoAsyncRead<St>>,
    want: usize,
    up: Option<Answer>,
    next: &Limited<IntoAsyncRead<St>>,
    answer: Bytes,
)
    requires
        pre.io.state@.wf(),
        pre.io.state@ is HoldingChunk || up matches Some(Poll::Ready(Some(Ok(_)))),
        next.limit == pre.limit,
        pre.io.read_with(capped(pre.limit, want) as nat, up, &next.io, answer),
    ensures
        pre.read_step(want, next, answer),
        answer == Poll::<Result<Seq<u8>, Error>>::Ready(
            Ok((pre.io.unread() + chunk_of(up)).take(delivered(answer).len() as int)),
        ),
        delivered(answer).len() == min(
            capped(pre.limit, want) as nat,
            (pre.io.unread() + chunk_of(up)).len(),
        ),
        want >= pre.limit && (pre.io.unread() + chunk_of(up)).len() > pre.limit ==> delivered(
            answer,
        ).len() == pre.limit,
        next.io.unread() == (pre.io.unread() + chunk_of(up)).skip(delivered(answer).len() as int),
{
    let n = delivered(answer).len();
    match pre.io.state@ {
        Phase::HoldingChunk { chunk, offset } => {
            let left = chunk.skip(offset as int);
            assert(left + Seq::<u8>::empty() =~= left);
            assert(chunk.subrange(offset as int, (offset + n) as int) =~= left.take(n as int));
            assert(next.io.unread() =~= left.skip(n as int));
        },
        _ => {
            let chunk = chunk_of(up);
            assert(Seq::<u8>::empty() + chunk =~= chunk);
            assert(chunk.subrange(0, n as int) =~= chunk.take(n as int));
            assert(next.io.unread() =~= chunk.skip(n as int));
        },
    }
}

} // verus!
