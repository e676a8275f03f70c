//! A byte reader over a sequence of chunks.
use vstd::prelude::*;
use vstd::slice::slice_subrange;
use crate::error::Error;
use crate::io::{delivered, fill_view, read_view, AsyncBufRead, AsyncRead, Bytes};
use crate::stream::{answer_view, Answer, TryStream};
use crate::task::{Context, Poll};

verus! {

/// Where the reader stands between two operations.
#[derive(Debug)]
pub enum ReadState {
    /// A chunk is held; `chunk_start` bytes of it have been consumed.
    Ready { chunk: Vec<u8>, chunk_start: usize },
    /// No chunk is held; the next operation pulls one.
    PendingChunk,
    /// The sequence has ended or failed. Nothing is pulled any more.
    Eof,
}

/// A reader's state as plain data.
pub enum Phase {
    /// No chunk is held; the next operation pulls one.
    AwaitingChunk,
    /// `chunk` is held and its first `offset` bytes have been consumed.
    HoldingChunk { chunk: Seq<u8>, offset: nat },
    /// The sequence has ended or failed.
    Exhausted,
}

impl View for ReadState {
    type V = Phase;

    open spec fn view(&self) -> Phase {
        match *self {
            ReadState::Ready { chunk, chunk_start } => Phase::HoldingChunk {
                chunk: chunk@,
                offset: chunk_start as nat,
            },
            ReadState::PendingChunk => Phase::AwaitingChunk,
            ReadState::Eof => Phase::Exhausted,
        }
    }
}

impl Phase {
    /// A held chunk always has bytes left: it is let go with its last byte.
    pub open spec fn wf(self) -> bool {
        self matches Phase::HoldingChunk { chunk, offset } ==> offset < chunk.len()
    }

    /// The bytes of the held chunk that have not been consumed.
    pub open spec fn unread(self) -> Seq<u8> {
        match self {
            Phase::HoldingChunk { chunk, offset } => chunk.skip(offset as int),
            _ => Seq::empty(),
        }
    }
}

/// The smaller of two sizes.
pub open spec fn min(a: nat, b: nat) -> nat {
    if a <= b {
        a
    } else {
        b
    }
}

/// The state after `n` more bytes of `chunk` have been consumed: the chunk
/// stays while bytes are left and goes with the last one.
pub open spec fn advance(chunk: Seq<u8>, offset: nat, n: nat) -> Phase {
    if offset + n >= chunk.len() {
        Phase::AwaitingChunk
    } else {
        Phase::HoldingChunk { chunk, offset: offset + n }
    }
}

/// A read of up to `want` bytes from a held chunk: as many bytes as both the
/// buffer and the chunk allow, at once, and no second attempt.
pub open spec fn serve(chunk: Seq<u8>, offset: nat, want: nat) -> (Phase, Bytes) {
    let n = min(want, (chunk.len() - offset) as nat);
    (advance(chunk, offset, n), Poll::Ready(Ok(chunk.subrange(offset as int, (offset + n) as int))))
}

/// A read of up to `want` bytes that found no chunk and got `up` from the
/// sequence.
pub open spec fn pull_and_serve(up: Answer, want: nat) -> (Phase, Bytes) {
    match up {
        Poll::Pending => (Phase::AwaitingChunk, Poll::Pending),
        Poll::Ready(None) => (Phase::Exhausted, Poll::Ready(Ok(Seq::empty()))),
        Poll::Ready(Some(Err(e))) => (Phase::Exhausted, Poll::Ready(Err(e))),
        Poll::Ready(Some(Ok(chunk))) => serve(chunk, 0, want),
    }
}

/// A peek that found no chunk and got `up` from the sequence. An empty chunk
/// is dropped on the spot and the peek is not ready: an empty view is kept
/// for the end of the data.
pub open spec fn pull_and_expose(up: Answer) -> (Phase, Bytes) {
    match up {
        Poll::Pending => (Phase::AwaitingChunk, Poll::Pending),
        Poll::Ready(None) => (Phase::Exhausted, Poll::Ready(Ok(Seq::empty()))),
        Poll::Ready(Some(Err(e))) => (Phase::Exhausted, Poll::Ready(Err(e))),
        Poll::Ready(Some(Ok(chunk))) => if chunk.len() == 0 {
            (Phase::AwaitingChunk, Poll::Pending)
        } else {
            (Phase::HoldingChunk { chunk, offset: 0 }, Poll::Ready(Ok(chunk)))
        },
    }
}

/// The chunk that an answer of the sequence brings: empty unless it is one.
pub open spec fn chunk_of(up: Option<Answer>) -> Seq<u8> {
    match up {
        Some(Poll::Ready(Some(Ok(chunk)))) => chunk,
        _ => Seq::empty(),
    }
}

/// The bytes that a run of reads delivered, in order.
pub open spec fn bytes_delivered(answers: Seq<Bytes>) -> Seq<u8>
    decreases answers.len(),
{
    if answers.len() == 0 {
        Seq::empty()
    } else {
        bytes_delivered(answers.drop_last()) + delivered(answers.last())
    }
}

/// The bytes of the chunks that the sequence yielded during a run, in order.
pub open spec fn bytes_pulled(ups: Seq<Option<Answer>>) -> Seq<u8>
    decreases ups.len(),
{
    if ups.len() == 0 {
        Seq::empty()
    } else {
        bytes_pulled(ups.drop_last()) + chunk_of(ups.last())
    }
}

/// Reader over the chunks of `St`.
///
/// It holds at most one chunk and a cursor into it. Reads and peeks are
/// served from the held chunk; only when none is held is the sequence polled,
/// once. After the end or a failure of the sequence the reader is exhausted
/// for good.
#[derive(Debug)]
#[must_use]
pub struct IntoAsyncRead<St> {
    pub stream: St,
    pub state: ReadState,
}

impl<St: TryStream> IntoAsyncRead<St> {
    /// A reader that has pulled nothing from `stream` yet.
    pub fn new(stream: St) -> (r: Self)
        requires
            stream.inv(),
        ensures
            r.well_formed(),
            r.stream == stream,
            r.state@ == Phase::AwaitingChunk,
    {
        IntoAsyncRead { stream, state: ReadState::PendingChunk }
    }

    /// The sequence is sound and a held chunk has bytes left.
    pub open spec fn well_formed(&self) -> bool {
        &&& self.stream.inv()
        &&& self.state@.wf()
    }

    /// The bytes that were pulled from the sequence and not consumed yet.
    pub open spec fn unread(&self) -> Seq<u8> {
        self.state@.unread()
    }

    /// One read of up to `want` bytes, with what the sequence answered when
    /// the read polled it (`None` when it did not), may take the reader from
    /// `self` to `next` and answer `answer`.
    pub open spec fn read_with(&self, want: nat, up: Option<Answer>, next: &Self, answer: Bytes) -> bool {
        match self.state@ {
            Phase::HoldingChunk { chunk, offset } => {
                &&& up is None
                &&& next.stream == self.stream
                &&& (next.state@, answer) == serve(chunk, offset, want)
            },
            Phase::Exhausted => {
                &&& up is None
                &&& next.stream == self.stream
                &&& next.state@ == Phase::Exhausted
                &&& answer == Poll::<Result<Seq<u8>, Error>>::Ready(Ok(Seq::empty()))
            },
            Phase::AwaitingChunk => {
                &&& up matches Some(a)
                &&& self.stream.poll_step(&next.stream, a)
                &&& (next.state@, answer) == pull_and_serve(a, want)
            },
        }
    }

    /// One peek, with what the sequence answered when the peek polled it
    /// (`None` when it did not), may take the reader from `self` to `next`
    /// and answer `answer`.
    pub open spec fn fill_with(&self, up: Option<Answer>, next: &Self, answer: Bytes) -> bool {
        match self.state@ {
            Phase::HoldingChunk { chunk, offset } => {
                &&& up is None
                &&& next.stream == self.stream
                &&& next.state@ == self.state@
                &&& answer == Poll::<Result<Seq<u8>, Error>>::Ready(Ok(chunk.skip(offset as int)))
            },
            Phase::Exhausted => {
                &&& up is None
                &&& next.stream == self.stream
                &&& next.state@ == Phase::Exhausted
                &&& answer == Poll::<Result<Seq<u8>, Error>>::Ready(Ok(Seq::empty()))
            },
            Phase::AwaitingChunk => {
                &&& up matches Some(a)
                &&& self.stream.poll_step(&next.stream, a)
                &&& (next.state@, answer) == pull_and_expose(a)
            },
        }
    }
}

/// The view of a reader that holds nothing.
fn nothing() -> (s: &'static [u8])
    ensures
        s@.len() == 0,
{
    &[]
}

/// Copies from the held chunk to the front of `buf`, as much as both allow,
/// moves the cursor on and lets the chunk go once it is used up.
fn copy_out(state: &mut ReadState, buf: &mut [u8]) -> (n: usize)
    requires
        old(state)@ matches Phase::HoldingChunk { chunk, offset } && offset <= chunk.len(),
    ensures
        old(state)@ matches Phase::HoldingChunk { chunk, offset } && {
            &&& (final(state)@, read_view(Poll::Ready(Ok(n)), final(buf)@)) == serve(
                chunk,
                offset,
                old(buf)@.len(),
            )
            &&& n == min(old(buf)@.len(), (chunk.len() - offset) as nat)
        },
        final(buf)@.len() == old(buf)@.len(),
        final(buf)@.skip(n as int) == old(buf)@.skip(n as int),
{
    let mut used_up = false;
    let mut n: usize = 0;
    match state {
        ReadState::Ready { chunk, chunk_start } => {
            let left = chunk.len() - *chunk_start;
            let len = if buf.len() < left {
                buf.len()
            } else {
                left
            };
            let mut i: usize = 0;
            while i < len
                invariant
                    i <= len,
                    len <= buf@.len(),
                    *chunk_start + len <= chunk.len(),
                    buf@.len() == old(buf)@.len(),
                    buf@.take(i as int) == chunk@.subrange(*chunk_start as int, *chunk_start + i),
                    buf@.skip(i as int) == old(buf)@.skip(i as int),
                decreases len - i,
            {
                let ghost before = buf@;
                buf[i] = chunk[*chunk_start + i];
                proof {
                    assert forall|j: int| 0 <= j < i implies buf@[j] == chunk@[*chunk_start + j] by {
                        assert(before.take(i as int)[j] == before[j]);
                    }
                    assert forall|j: int| i < j < buf@.len() implies buf@[j] == old(buf)@[j] by {
                        assert(before.skip(i as int)[j - i] == before[j]);
                        assert(old(buf)@.skip(i as int)[j - i] == old(buf)@[j]);
                    }
                    assert(buf@.take(i + 1) =~= chunk@.subrange(*chunk_start as int, *chunk_start + i + 1));
                    assert(buf@.skip(i + 1) =~= old(buf)@.skip(i + 1));
                }
                i += 1;
            }
            *chunk_start += len;
            n = len;
            used_up = *chunk_start == chunk.len();
        },
        _ => {},
    }
    if used_up {
        *state = ReadState::PendingChunk;
    }
    n
}

impl<St: TryStream> AsyncRead for IntoAsyncRead<St> {
    open spec fn inv(&self) -> bool {
        self.well_formed()
    }

    open spec fn read_step(&self, want: usize, next: &Self, answer: Bytes) -> bool {
        exists|up: Option<Answer>| self.read_with(want as nat, up, next, answer)
    }

    open spec fn read_context(
        &self,
        cx: Context,
        want: usize,
        next: &Self,
        answer: Bytes,
        after: Context,
    ) -> bool {
        if self.state@ is AwaitingChunk {
            exists|up: Answer|
                self.read_with(want as nat, Some(up), next, answer) && self.stream.poll_context(
                    cx,
                    &next.stream,
                    up,
                    after,
                )
        } else {
            after == cx
        }
    }

    /// Serves the read from the held chunk, or pulls a chunk first if none is
    /// held, polling the sequence with the caller's context. A chunk that
    /// was just pulled is served in the same call. An exhausted reader
    /// answers with zero bytes and leaves the sequence alone. A failure of
    /// the sequence is handed on as it is.
    fn poll_read(&mut self, cx: &mut Context, buf: &mut [u8]) -> (r: Poll<Result<usize, Error>>) {
        let ghost up: Option<Answer> = None;
        match self.state {
            ReadState::PendingChunk => {
                let pulled = self.stream.try_poll_next(cx);
                proof {
                    up = Some(answer_view(pulled));
                }
                match pulled {
                    Poll::Pending => {
                        assert(old(self).read_with(old(buf)@.len(), up, self, read_view(Poll::Pending, buf@)));
                        return Poll::Pending;
                    },
                    Poll::Ready(None) => {
                        self.state = ReadState::Eof;
                        assert(buf@.take(0) =~= Seq::<u8>::empty());
                        assert(old(self).read_with(old(buf)@.len(), up, self, read_view(Poll::Ready(Ok(0)), buf@)));
                        return Poll::Ready(Ok(0));
                    },
                    Poll::Ready(Some(Err(e))) => {
                        self.state = ReadState::Eof;
                        assert(old(self).read_with(old(buf)@.len(), up, self, read_view(Poll::Ready(Err(e)), buf@)));
                        return Poll::Ready(Err(e));
                    },
                    Poll::Ready(Some(Ok(chunk))) => {
                        self.state = ReadState::Ready { chunk, chunk_start: 0 };
                    },
                }
            },
            ReadState::Eof => {
                assert(buf@.take(0) =~= Seq::<u8>::empty());
                assert(old(self).read_with(old(buf)@.len(), up, self, read_view(Poll::Ready(Ok(0)), buf@)));
                return Poll::Ready(Ok(0));
            },
            ReadState::Ready { .. } => {},
        }
        let n = copy_out(&mut self.state, buf);
        assert(old(self).read_with(old(buf)@.len(), up, self, read_view(Poll::Ready(Ok(n)), buf@)));
        Poll::Ready(Ok(n))
    }
}

impl<St: TryStream> AsyncBufRead for IntoAsyncRead<St> {
    open spec fn exposed(&self) -> usize {
        self.unread().len() as usize
    }

    open spec fn fill_step(&self, next: &Self, answer: Bytes) -> bool {
        exists|up: Option<Answer>| self.fill_with(up, next, answer)
    }

    open spec fn fill_context(&self, cx: Context, next: &Self, answer: Bytes, after: Context) -> bool {
        if self.state@ is AwaitingChunk {
            exists|up: Answer, left: Context|
                {
                    &&& self.fill_with(Some(up), next, answer)
                    &&& self.stream.poll_context(cx, &next.stream, up, left)
                    &&& after == if up matches Poll::Ready(Some(Ok(chunk))) && chunk.len() == 0 {
                        Context { woken: true }
                    } else {
                        left
                    }
                }
        } else {
            after == cx
        }
    }

    open spec fn consume_step(&self, amount: usize, next: &Self) -> bool {
        &&& next.stream == self.stream
        &&& next.state@ == match self.state@ {
            Phase::HoldingChunk { chunk, offset } => advance(chunk, offset, amount as nat),
            other => other,
        }
    }

    fn exposed_len(&self) -> (n: usize) {
        match &self.state {
            ReadState::Ready { chunk, chunk_start } => {
                chunk.len() - *chunk_start
            },
            _ => 0,
        }
    }

    /// Exposes the unconsumed rest of the held chunk, or pulls a chunk first
    /// if none is held, polling the sequence with the caller's context. The
    /// view is empty only once the reader is exhausted: where the sequence
    /// yields an empty chunk, the chunk is dropped, the peek is not ready
    /// and asks to be polled again.
    fn poll_fill_buf<'a>(&'a mut self, cx: &mut Context) -> (r: Poll<Result<&'a [u8], Error>>)
        ensures
            r is Pending && !final(cx).woken ==> old(self).stream.poll_step(
                &final(self).stream,
                Poll::Pending,
            ),
            r matches Poll::Ready(Ok(s)) ==> (s@.len() == 0 <==> final(self).state@ is Exhausted),
    {
        let ghost up: Option<Answer> = None;
        if let ReadState::PendingChunk = self.state {
            let pulled = self.stream.try_poll_next(cx);
            proof {
                up = Some(answer_view(pulled));
            }
            match pulled {
                Poll::Pending => {
                    assert(old(self).fill_with(up, self, fill_view(Poll::Pending)));
                    return Poll::Pending;
                },
                Poll::Ready(None) => {
                    self.state = ReadState::Eof;
                },
                Poll::Ready(Some(Err(e))) => {
                    self.state = ReadState::Eof;
                    assert(old(self).fill_with(up, self, fill_view(Poll::Ready(Err(e)))));
                    return Poll::Ready(Err(e));
                },
                Poll::Ready(Some(Ok(chunk))) => {
                    if chunk.len() == 0 {
                        cx.wake();
                        assert(old(self).fill_with(up, self, fill_view(Poll::Pending)));
                        return Poll::Pending;
                    }
                    self.state = ReadState::Ready { chunk, chunk_start: 0 };
                },
            }
        }
        match &self.state {
            ReadState::Ready { chunk, chunk_start } => {
                let rest = slice_subrange(chunk.as_slice(), *chunk_start, chunk.len());
                assert(rest@ =~= chunk@.skip(*chunk_start as int));
                assert(chunk@.skip(0) =~= chunk@);
                assert(old(self).fill_with(up, self, fill_view(Poll::Ready(Ok(rest)))));
                Poll::Ready(Ok(rest))
            },
            _ => {
                let rest = nothing();
                assert(rest@ =~= Seq::<u8>::empty());
                assert(old(self).fill_with(up, self, fill_view(Poll::Ready(Ok(rest)))));
                Poll::Ready(Ok(rest))
            },
        }
    }

    /// Moves the cursor `amount` bytes on and lets the chunk go once it is
    /// used up. It never polls the sequence.
    fn consume(&mut self, amount: usize) {
        let mut used_up = false;
        match &mut self.state {
            ReadState::Ready { chunk, chunk_start } => {
                assert(old(self).unread() == chunk@.skip(*chunk_start as int));
                assert(chunk@.len() == chunk.len());
                *chunk_start += amount;
                used_up = *chunk_start >= chunk.len();
            },
            _ => {},
        }
        if used_up {
            self.state = ReadState::PendingChunk;
        }
    }
}

/// One read neither loses nor repeats a byte: what it delivers, followed by
/// what it leaves unconsumed, is what was unconsumed before, followed by the
/// chunk it pulled.
pub proof fn lemma_read_conserves_bytes<St: TryStream>(
    pre: &IntoAsyncRead<St>,
    want: nat,
    up: Option<Answer>,
    next: &IntoAsyncRead<St>,
    answer: Bytes,
)
    requires
        pre.state@.wf(),
        pre.read_with(want, up, next, answer),
    ensures
        next.state@.wf(),
        delivered(answer) + next.unread() == pre.unread() + chunk_of(up),
        delivered(answer).len() <= want,
{
    match pre.state@ {
        Phase::HoldingChunk { chunk, offset } => {
            let n = min(want, (chunk.len() - offset) as nat);
            assert(chunk.subrange(offset as int, (offset + n) as int) + advance(chunk, offset, n).unread()
                =~= chunk.skip(offset as int));
            assert(chunk.skip(offset as int) + Seq::<u8>::empty() =~= chunk.skip(offset as int));
        },
        Phase::Exhausted => {
            assert(Seq::<u8>::empty() + Seq::<u8>::empty() =~= Seq::<u8>::empty());
        },
        Phase::AwaitingChunk => {
            match up->0 {
                Poll::Ready(Some(Ok(chunk))) => {
                    let n = min(want, chunk.len());
                    assert(chunk.subrange(0, n as int) + advance(chunk, 0, n).unread() =~= chunk);
                    assert(Seq::<u8>::empty() + chunk =~= chunk);
                },
                _ => {
                    assert(Seq::<u8>::empty() + Seq::<u8>::empty() =~= Seq::<u8>::empty());
                },
            }
        },
    }
}

/// Any run of reads, with buffers of any sizes, reproduces the bytes of the
/// chunks in order: what the reads delivered, followed by what the reader
/// still holds, is what it held at first followed by every chunk pulled
/// during the run. For a reader that starts and ends without a held chunk the
/// bytes delivered are exactly the bytes pulled, nothing lost, repeated or
/// reordered.
pub proof fn lemma_reads_reproduce_chunks<St: TryStream>(
    states: Seq<IntoAsyncRead<St>>,
    wants: Seq<nat>,
    ups: Seq<Option<Answer>>,
    answers: Seq<Bytes>,
)
    requires
        states.len() == answers.len() + 1,
        wants.len() == answers.len(),
        ups.len() == answers.len(),
        states[0].state@.wf(),
        forall|i: int|
            0 <= i < answers.len() ==> states[i].read_with(
                wants[i],
                ups[i],
                &states[i + 1],
                #[trigger] answers[i],
            ),
    ensures
        states.last().state@.wf(),
        bytes_delivered(answers) + states.last().unread() == states[0].unread() + bytes_pulled(ups),
        states[0].state@ !is HoldingChunk && states.last().state@ !is HoldingChunk ==> bytes_delivered(
            answers,
        ) == bytes_pulled(ups),
    decreases answers.len(),
{
    if answers.len() == 0 {
        assert(Seq::<u8>::empty() + states[0].unread() =~= states[0].unread() + Seq::<u8>::empty());
    } else {
        let k = answers.len() - 1;
        let head = answers.drop_last();
        assert forall|i: int| 0 <= i < head.len() implies states.drop_last()[i].read_with(
            wants.drop_last()[i],
            ups.drop_last()[i],
            &states.drop_last()[i + 1],
            #[trigger] head[i],
        ) by {
            assert(states[i].read_with(wants[i], ups[i], &states[i + 1], answers[i]));
        }
        lemma_reads_reproduce_chunks(states.drop_last(), wants.drop_last(), ups.drop_last(), head);
        assert(states.drop_last().last() == states[k]);
        assert(states[k].read_with(wants[k], ups[k], &states[k + 1], answers[k]));
        lemma_read_conserves_bytes(&states[k], wants[k], ups[k], &states[k + 1], answers[k]);
        let d = delivered(answers[k]);
        let c = chunk_of(ups[k]);
        assert(bytes_delivered(answers) == bytes_delivered(head) + d);
        assert(bytes_pulled(ups) == bytes_pulled(ups.drop_last()) + c);
        assert(bytes_delivered(head) + d + states[k + 1].unread() =~= bytes_delivered(head) + (d
            + states[k + 1].unread()));
        assert(bytes_delivered(head) + (states[k].unread() + c) =~= bytes_delivered(head)
            + states[k].unread() + c);
        assert(states[0].unread() + bytes_pulled(ups.drop_last()) + c =~= states[0].unread() + (
        bytes_pulled(ups.drop_last()) + c));
    }
    if states[0].state@ !is HoldingChunk && states.last().state@ !is HoldingChunk {
        assert(bytes_delivered(answers) + Seq::<u8>::empty() =~= bytes_delivered(answers));
        assert(Seq::<u8>::empty() + bytes_pulled(ups) =~= bytes_pulled(ups));
    }
}

/// Exhaustion is final. An exhausted reader answers every read with zero
/// bytes and every peek with an empty view, stays exhausted, and leaves the
/// sequence as it is.
pub proof fn lemma_exhausted_is_terminal<St: TryStream>(
    pre: &IntoAsyncRead<St>,
    want: usize,
    next: &IntoAsyncRead<St>,
    answer: Bytes,
)
    requires
        pre.state@ is Exhausted,
        pre.read_step(want, next, answer) || pre.fill_step(next, answer),
    ensures
        next.stream == pre.stream,
        next.state@ is Exhausted,
        answer == Poll::<Result<Seq<u8>, Error>>::Ready(Ok(Seq::empty())),
{
}

/// A failure of the sequence comes out of the one read or peek that met it,
/// unchanged, and exhausts the reader; no other read or peek fails. With
/// `lemma_exhausted_is_terminal`, it is never raised a second time.
pub proof fn lemma_failure_is_surfaced_once<St: TryStream>(
    pre: &IntoAsyncRead<St>,
    want: nat,
    up: Option<Answer>,
    next: &IntoAsyncRead<St>,
    answer: Bytes,
)
    requires
        pre.read_with(want, up, next, answer) || pre.fill_with(up, next, answer),
    ensures
        forall|e: Error|
            answer == Poll::<Result<Seq<u8>, Error>>::Ready(Err(e)) <==> up == Some(
                Poll::<Option<Result<Seq<u8>, Error>>>::Ready(Some(Err(e))),
            ),
        answer matches Poll::Ready(Err(_)) ==> next.state@ is Exhausted,
{
}

} // verus!
