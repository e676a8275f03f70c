//! A wrapper that is not ready on every other poll.
use vstd::prelude::*;
use crate::error::Error;
use crate::future::Future03;
use crate::io::{AsyncBufRead, AsyncRead, Bytes};
use crate::stream::{Answer, TryStream};
use crate::task::{Context, Poll};

verus! {

/// Wraps a reader, a chunk sequence or a task and puts a not-ready answer in
/// front of each of its operations.
///
/// Polls alternate. The first poll, and every second one after it, answers
/// [`Poll::Pending`] without touching what is wrapped and asks to be polled
/// again; the poll after it is handed on, once. Reads, peeks and pulls share
/// the one switch. `consume` cannot be not ready, so it is always handed on
/// and leaves the switch alone.
#[derive(Debug)]
pub struct InterleavePending<T> {
    pub inner: T,
    /// True when the last poll was answered here, so the next one is handed
    /// on.
    pub pended: bool,
}

impl<T> InterleavePending<T> {
    /// Wraps `inner`. The first poll will not be ready.
    pub fn new(inner: T) -> (r: Self)
        ensures
            r.inner == inner,
            !r.pended,
    {
        InterleavePending { inner, pended: false }
    }

    /// What is wrapped.
    pub fn get_ref(&self) -> (inner: &T)
        ensures
            *inner == self.inner,
    {
        &self.inner
    }

    /// Unwraps.
    pub fn into_inner(self) -> (inner: T)
        ensures
            inner == self.inner,
    {
        self.inner
    }
}

impl<R: AsyncRead> AsyncRead for InterleavePending<R> {
    open spec fn inv(&self) -> bool {
        self.inner.inv()
    }

    open spec fn read_step(&self, want: usize, next: &Self, answer: Bytes) -> bool {
        if self.pended {
            !next.pended && self.inner.read_step(want, &next.inner, answer)
        } else {
            next.pended && next.inner == self.inner && answer == Poll::<
                Result<Seq<u8>, Error>,
            >::Pending
        }
    }

    open spec fn read_context(
        &self,
        cx: Context,
        want: usize,
        next: &Self,
        answer: Bytes,
        after: Context,
    ) -> bool {
        if self.pended {
            self.inner.read_context(cx, want, &next.inner, answer, after)
        } else {
            after == (Context { woken: true })
        }
    }

    /// Not ready and asking for another poll, or one read of the wrapped
    /// reader with the caller's context, in turn.
    fn poll_read(&mut self, cx: &mut Context, buf: &mut [u8]) -> (r: Poll<Result<usize, Error>>) {
        if self.pended {
            self.pended = false;
            self.inner.poll_read(cx, buf)
        } else {
            cx.wake();
            self.pended = true;
            Poll::Pending
        }
    }
}

impl<R: AsyncBufRead> AsyncBufRead for InterleavePending<R> {
    open spec fn exposed(&self) -> usize {
        self.inner.exposed()
    }

    open spec fn fill_step(&self, next: &Self, answer: Bytes) -> bool {
        if self.pended {
            !next.pended && self.inner.fill_step(&next.inner, answer)
        } else {
            next.pended && next.inner == self.inner && answer == Poll::<
                Result<Seq<u8>, Error>,
            >::Pending
        }
    }

    open spec fn fill_context(&self, cx: Context, next: &Self, answer: Bytes, after: Context) -> bool {
        if self.pended {
            self.inner.fill_context(cx, &next.inner, answer, after)
        } else {
            after == (Context { woken: true })
        }
    }

    open spec fn consume_step(&self, amount: usize, next: &Self) -> bool {
        &&& next.pended == self.pended
        &&& self.inner.consume_step(amount, &next.inner)
    }

    fn exposed_len(&self) -> (n: usize) {
        self.inner.exposed_len()
    }

    /// Not ready and asking for another poll, or one peek of the wrapped
    /// reader with the caller's context, in turn.
    fn poll_fill_buf<'a>(&'a mut self, cx: &mut Context) -> (r: Poll<Result<&'a [u8], Error>>) {
        if self.pended {
            self.pended = false;
            self.inner.poll_fill_buf(cx)
        } else {
            cx.wake();
            self.pended = true;
            Poll::Pending
        }
    }

    /// One consume of the wrapped reader. The switch stays as it is.
    fn consume(&mut self, amount: usize) {
        self.inner.consume(amount)
    }
}

impl<St: TryStream> TryStream for InterleavePending<St> {
    open spec fn inv(&self) -> bool {
        self.inner.inv()
    }

    open spec fn poll_step(&self, next: &Self, answer: Answer) -> bool {
        if self.pended {
            !next.pended && self.inner.poll_step(&next.inner, answer)
        } else {
            next.pended && next.inner == self.inner && answer == Poll::<
                Option<Result<Seq<u8>, Error>>,
            >::Pending
        }
    }

    open spec fn poll_context(&self, cx: Context, next: &Self, answer: Answer, after: Context) -> bool {
        if self.pended {
            self.inner.poll_context(cx, &next.inner, answer, after)
        } else {
            after == (Context { woken: true })
        }
    }

    /// Not ready and asking for another poll, or one pull from the wrapped
    /// sequence with the caller's context, in turn.
    fn try_poll_next(&mut self, cx: &mut Context) -> (r: Poll<Option<Result<Vec<u8>, Error>>>) {
        if self.pended {
            self.pended = false;
            self.inner.try_poll_next(cx)
        } else {
            cx.wake();
            self.pended = true;
            Poll::Pending
        }
    }
}

impl<Fut: Future03> Future03 for InterleavePending<Fut> {
    type Output = Fut::Output;

    open spec fn inv(&self) -> bool {
        self.inner.inv()
    }

    open spec fn poll_step(&self, next: &Self, answer: Poll<Fut::Output>) -> bool {
        if self.pended {
            !next.pended && self.inner.poll_step(&next.inner, answer)
        } else {
            next.pended && next.inner == self.inner && answer is Pending
        }
    }

    open spec fn poll_context(
        &self,
        cx: Context,
        next: &Self,
        answer: Poll<Fut::Output>,
        after: Context,
    ) -> bool {
        if self.pended {
            self.inner.poll_context(cx, &next.inner, answer, after)
        } else {
            after == (Context { woken: true })
        }
    }

    /// Not ready and asking for another poll, or one poll of the wrapped
    /// task with the caller's context, in turn.
    fn poll(&mut self, cx: &mut Context) -> (r: Poll<Fut::Output>) {
        if self.pended {
            self.pended = false;
            self.inner.poll(cx)
        } else {
            cx.wake();
            self.pended = true;
            Poll::Pending
        }
    }
}

/// How many of the first `polls` polls of a fresh wrapper are handed on to
/// what it wraps.
pub open spec fn handed_on(polls: nat) -> nat {
    polls / 2
}

/// How many of the first `polls` reads of the run `states` found the switch
/// set, and so were handed on.
pub open spec fn reads_handed_on<R>(states: Seq<InterleavePending<R>>, polls: nat) -> nat
    decreases polls,
{
    if polls == 0 {
        0
    } else {
        reads_handed_on(states, (polls - 1) as nat) + if states[polls - 1].pended {
            1nat
        } else {
            0nat
        }
    }
}

/// Reads of a fresh wrapper alternate, not ready first. The reads of even
/// index (the first, the third, ...) are not ready and leave the wrapped
/// reader untouched; each read of odd index is one read of the wrapped reader
/// and carries its answer. So of any `n` reads `n / 2` reach the wrapped
/// reader: `m` reads of the wrapped reader take exactly `2 * m` polls.
pub proof fn lemma_reads_alternate<R: AsyncRead>(
    states: Seq<InterleavePending<R>>,
    wants: Seq<usize>,
    answers: Seq<Bytes>,
)
    requires
        states.len() == answers.len() + 1,
        wants.len() == answers.len(),
        !states[0].pended,
        forall|i: int|
            0 <= i < answers.len() ==> states[i].read_step(
                wants[i],
                &states[i + 1],
                #[trigger] answers[i],
            ),
    ensures
        forall|i: int| 0 <= i <= answers.len() ==> (#[trigger] states[i]).pended == (i % 2 == 1),
        forall|i: int|
            #![trigger answers[i]]
            0 <= i < answers.len() && i % 2 == 0 ==> answers[i] is Pending && states[i + 1].inner
                == states[i].inner,
        forall|i: int|
            #![trigger answers[i]]
            0 <= i < answers.len() && i % 2 == 1 ==> states[i].inner.read_step(
                wants[i],
                &states[i + 1].inner,
                answers[i],
            ),
        forall|n: nat| n <= answers.len() ==> #[trigger] reads_handed_on(states, n) == handed_on(n),
{
    assert forall|i: int| 0 <= i <= answers.len() implies (#[trigger] states[i]).pended == (i % 2
        == 1) by {
        lemma_switch_after(states, wants, answers, i);
    }
    assert forall|i: int|
        #![trigger answers[i]]
        0 <= i < answers.len() && i % 2 == 0 implies answers[i] is Pending && states[i + 1].inner
        == states[i].inner by {
        assert(states[i].pended == (i % 2 == 1));
        assert(states[i].read_step(wants[i], &states[i + 1], answers[i]));
    }
    assert forall|i: int|
        #![trigger answers[i]]
        0 <= i < answers.len() && i % 2 == 1 implies states[i].inner.read_step(
        wants[i],
        &states[i + 1].inner,
        answers[i],
    ) by {
        assert(states[i].pended == (i % 2 == 1));
        assert(states[i].read_step(wants[i], &states[i + 1], answers[i]));
    }
    assert forall|n: nat| n <= answers.len() implies #[trigger] reads_handed_on(states, n)
        == handed_on(n) by {
        lemma_count_handed_on(states, n);
    }
}

/// After `i` reads of a fresh wrapper the switch is set exactly if `i` is
/// odd.
proof fn lemma_switch_after<R: AsyncRead>(
    states: Seq<InterleavePending<R>>,
    wants: Seq<usize>,
    answers: Seq<Bytes>,
    i: int,
)
    requires
        states.len() == answers.len() + 1,
        wants.len() == answers.len(),
        !states[0].pended,
        forall|j: int|
            0 <= j < answers.len() ==> states[j].read_step(
                wants[j],
                &states[j + 1],
                #[trigger] answers[j],
            ),
        0 <= i <= answers.len(),
    ensures
        states[i].pended == (i % 2 == 1),
    decreases i,
{
    if i > 0 {
        lemma_switch_after(states, wants, answers, i - 1);
        assert(states[i - 1].read_step(wants[i - 1], &states[i - 1 + 1], answers[i - 1]));
    }
}

/// Where the switch is set after every odd number of reads and only then,
/// half of any number of reads are handed on.
proof fn lemma_count_handed_on<R>(states: Seq<InterleavePending<R>>, n: nat)
    requires
        n < states.len(),
        forall|i: int| 0 <= i < states.len() ==> (#[trigger] states[i]).pended == (i % 2 == 1),
    ensures
        reads_handed_on(states, n) == handed_on(n),
    decreases n,
{
    if n > 0 {
        lemma_count_handed_on(states, (n - 1) as nat);
        assert(states[n - 1].pended == ((n - 1) % 2 == 1));
    }
}

} // verus!
