//! Task submission across two protocols.
//!
//! The legacy protocol polls a task to one result of fixed shape, an item or
//! an error, and submits tasks to an [`Executor01`]. The current protocol
//! polls a task to an output of any type and submits tasks to a [`Spawn03`].
//! [`Executor01As03`] makes a current spawner of a legacy executor and
//! [`Compat`] a legacy executor of a current spawner. Both only change how a
//! task is represented, and both drop its result before they hand it on:
//! when and in what order tasks run is up to the target they wrap.
use vstd::prelude::*;
use crate::future::{Async, Future01, Future03};
use crate::task::{Context, Poll};

verus! {

/// Why a legacy executor refused a task.
#[derive(Clone, Copy, Debug, PartialEq, Eq, Hash)]
pub enum ExecuteErrorKind {
    /// The executor has shut down.
    Shutdown,
    /// The executor has no room for another task now.
    NoCapacity,
}

/// A legacy executor refused a task.
#[derive(Clone, Copy, Debug, PartialEq, Eq, Hash)]
pub struct ExecuteError01 {
    pub kind: ExecuteErrorKind,
}

impl ExecuteError01 {
    /// Why the task was refused.
    pub fn kind(&self) -> (k: ExecuteErrorKind)
        ensures
            k == self.kind,
    {
        self.kind
    }
}

/// A current spawner refused a task. The one reason it can give is that it
/// has shut down.
#[derive(Clone, Copy, Debug, PartialEq, Eq, Hash)]
pub enum SpawnError03 {
    /// The spawner has shut down.
    Shutdown,
}

impl SpawnError03 {
    /// The refusal of a spawner that has shut down.
    pub fn shutdown() -> (e: SpawnError03)
        ensures
            e == SpawnError03::Shutdown,
    {
        SpawnError03::Shutdown
    }

    /// Whether the spawner refused because it has shut down.
    pub fn is_shutdown(&self) -> (b: bool)
        ensures
            b == (*self is Shutdown),
    {
        match self {
            SpawnError03::Shutdown => true,
        }
    }
}

/// A place to submit tasks `F` to in the legacy protocol.
pub trait Executor01<F>: Sized {
    /// The executor is in a state that its own operations can leave it in.
    spec fn inv(&self) -> bool;

    /// Submitting `future` may take the executor from `self` to `next` and
    /// come back with `r`.
    spec fn execute_step(&self, future: F, next: &Self, r: Result<(), ExecuteError01>) -> bool;

    /// Submits `future` to run on its own and comes back at once.
    fn execute(&mut self, future: F) -> (r: Result<(), ExecuteError01>)
        requires
            old(self).inv(),
        ensures
            final(self).inv(),
            old(self).execute_step(future, final(self), r),
    ;
}

/// A place to submit tasks `F` to in the current protocol.
pub trait Spawn03<F>: Sized {
    /// The spawner is in a state that its own operations can leave it in.
    spec fn inv(&self) -> bool;

    /// Submitting `future` may take the spawner from `self` to `next` and
    /// come back with `r`.
    spec fn spawn_step(&self, future: F, next: &Self, r: Result<(), SpawnError03>) -> bool;

    /// Submits `future` to run on its own and comes back at once.
    fn spawn_obj(&mut self, future: F) -> (r: Result<(), SpawnError03>)
        requires
            old(self).inv(),
        ensures
            final(self).inv(),
            old(self).spawn_step(future, final(self), r),
    ;
}

/// A current task dressed for a legacy executor: whatever the task comes to,
/// the legacy side sees a task that ends well with the unit item.
///
/// The legacy protocol fixes the types of item and error, so there is no way
/// to carry the output of an arbitrary task across. [`UnitError`] drops it.
#[derive(Debug)]
pub struct UnitError<Fut> {
    pub future: Fut,
}

/// What [`UnitError`] makes of the answer of the task it wraps.
pub open spec fn unit_error<T>(answer: Poll<T>) -> Poll<Result<(), ()>> {
    match answer {
        Poll::Pending => Poll::Pending,
        Poll::Ready(_) => Poll::Ready(Ok(())),
    }
}

impl<Fut: Future03> UnitError<Fut> {
    /// Wraps `future`.
    pub fn new(future: Fut) -> (r: Self)
        ensures
            r.future == future,
    {
        UnitError { future }
    }

    /// One poll, in which the wrapped task answered `inner`, may take the
    /// task from `self` to `next` and answer `answer`.
    pub open spec fn poll_with(
        &self,
        inner: Poll<Fut::Output>,
        next: &Self,
        answer: Poll<Result<(), ()>>,
    ) -> bool {
        &&& self.future.poll_step(&next.future, inner)
        &&& answer == unit_error(inner)
    }
}

impl<Fut: Future03> Future03 for UnitError<Fut> {
    type Output = Result<(), ()>;

    open spec fn inv(&self) -> bool {
        self.future.inv()
    }

    open spec fn poll_step(&self, next: &Self, answer: Poll<Result<(), ()>>) -> bool {
        exists|inner: Poll<Fut::Output>| self.poll_with(inner, next, answer)
    }

    open spec fn poll_context(
        &self,
        cx: Context,
        next: &Self,
        answer: Poll<Result<(), ()>>,
        after: Context,
    ) -> bool {
        exists|inner: Poll<Fut::Output>|
            self.poll_with(inner, next, answer) && self.future.poll_context(
                cx,
                &next.future,
                inner,
                after,
            )
    }

    /// One poll of the wrapped task with the caller's context. Its output,
    /// success or failure, becomes `Ok(())`.
    fn poll(&mut self, cx: &mut Context) -> (r: Poll<Result<(), ()>>) {
        let inner = self.future.poll(cx);
        let r = match &inner {
            Poll::Pending => Poll::Pending,
            Poll::Ready(_) => Poll::Ready(Ok(())),
        };
        assert(old(self).poll_with(inner, self, r) && old(self).future.poll_context(
            *old(cx),
            &self.future,
            inner,
            *cx,
        ));
        r
    }
}

/// A task whose output is dropped: whatever the task it wraps comes to, it
/// is ready with the unit value.
///
/// The tasks that a current spawner runs carry no result. [`UnitOutput`]
/// makes such a task of any task.
#[derive(Debug)]
pub struct UnitOutput<Fut> {
    pub future: Fut,
}

/// What [`UnitOutput`] makes of the answer of the task it wraps.
pub open spec fn unit_output<T>(answer: Poll<T>) -> Poll<()> {
    match answer {
        Poll::Pending => Poll::Pending,
        Poll::Ready(_) => Poll::Ready(()),
    }
}

impl<Fut: Future03> UnitOutput<Fut> {
    /// Wraps `future`.
    pub fn new(future: Fut) -> (r: Self)
        ensures
            r.future == future,
    {
        UnitOutput { future }
    }

    /// One poll, in which the wrapped task answered `inner`, may take the
    /// task from `self` to `next` and answer `answer`.
    pub open spec fn poll_with(&self, inner: Poll<Fut::Output>, next: &Self, answer: Poll<()>) -> bool {
        &&& self.future.poll_step(&next.future, inner)
        &&& answer == unit_output(inner)
    }
}

impl<Fut: Future03> Future03 for UnitOutput<Fut> {
    type Output = ();

    open spec fn inv(&self) -> bool {
        self.future.inv()
    }

    open spec fn poll_step(&self, next: &Self, answer: Poll<()>) -> bool {
        exists|inner: Poll<Fut::Output>| self.poll_with(inner, next, answer)
    }

    open spec fn poll_context(&self, cx: Context, next: &Self, answer: Poll<()>, after: Context) -> bool {
        exists|inner: Poll<Fut::Output>|
            self.poll_with(inner, next, answer) && self.future.poll_context(
                cx,
                &next.future,
                inner,
                after,
            )
    }

    /// One poll of the wrapped task with the caller's context. Its output,
    /// success or failure, becomes `()`.
    fn poll(&mut self, cx: &mut Context) -> (r: Poll<()>) {
        let inner = self.future.poll(cx);
        let r = match &inner {
            Poll::Pending => Poll::Pending,
            Poll::Ready(_) => Poll::Ready(()),
        };
        assert(old(self).poll_with(inner, self, r) && old(self).future.poll_context(
            *old(cx),
            &self.future,
            inner,
            *cx,
        ));
        r
    }
}

/// Dresses what it wraps for the legacy protocol: a current task that
/// yields a `Result` becomes a legacy task, a current spawner becomes a
/// legacy executor.
#[derive(Debug)]
pub struct Compat<T> {
    pub inner: T,
}

/// What [`Compat`] makes of the answer of the task it wraps.
pub open spec fn compat_answer<T, E>(answer: Poll<Result<T, E>>) -> Result<Async<T>, E> {
    match answer {
        Poll::Pending => Ok(Async::NotReady),
        Poll::Ready(Ok(item)) => Ok(Async::Ready(item)),
        Poll::Ready(Err(e)) => Err(e),
    }
}

impl<T> Compat<T> {
    /// Wraps `inner`.
    pub fn new(inner: T) -> (r: Self)
        ensures
            r.inner == inner,
    {
        Compat { inner }
    }

    /// What is wrapped.
    pub fn get_ref(&self) -> (inner: &T)
        ensures
            *inner == self.inner,
    {
        &self.inner
    }

    /// Unwraps.
    pub fn into_inner(self) -> (inner: T)
        ensures
            inner == self.inner,
    {
        self.inner
    }
}

impl<T, E, Fut: Future03<Output = Result<T, E>>> Future01 for Compat<Fut> {
    type Item = T;

    type Error = E;

    open spec fn inv(&self) -> bool {
        self.inner.inv()
    }

    open spec fn poll_step(&self, next: &Self, answer: Result<Async<T>, E>) -> bool {
        exists|inner: Poll<Result<T, E>>|
            self.inner.poll_step(&next.inner, inner) && answer == compat_answer(inner)
    }

    open spec fn poll_context(
        &self,
        cx: Context,
        next: &Self,
        answer: Result<Async<T>, E>,
        after: Context,
    ) -> bool {
        exists|inner: Poll<Result<T, E>>|
            {
                &&& self.inner.poll_step(&next.inner, inner)
                &&& answer == compat_answer(inner)
                &&& self.inner.poll_context(cx, &next.inner, inner, after)
            }
    }

    /// One poll of the wrapped task with the caller's context, its answer
    /// put in legacy form.
    fn poll(&mut self, cx: &mut Context) -> (r: Result<Async<T>, E>) {
        let inner = self.inner.poll(cx);
        let ghost seen = inner;
        let r = match inner {
            Poll::Pending => Ok(Async::NotReady),
            Poll::Ready(Ok(item)) => Ok(Async::Ready(item)),
            Poll::Ready(Err(e)) => Err(e),
        };
        assert(old(self).inner.poll_step(&self.inner, seen) && r == compat_answer(seen) && old(
            self,
        ).inner.poll_context(*old(cx), &self.inner, seen, *cx));
        r
    }
}

/// A legacy task dressed as a current one: it yields the legacy result as
/// its output.
#[derive(Debug)]
pub struct Compat01As03<F> {
    pub inner: F,
}

/// What [`Compat01As03`] makes of the answer of the task it wraps.
pub open spec fn compat01_answer<T, E>(answer: Result<Async<T>, E>) -> Poll<Result<T, E>> {
    match answer {
        Ok(Async::NotReady) => Poll::Pending,
        Ok(Async::Ready(item)) => Poll::Ready(Ok(item)),
        Err(e) => Poll::Ready(Err(e)),
    }
}

impl<F> Compat01As03<F> {
    /// Wraps `inner`.
    pub fn new(inner: F) -> (r: Self)
        ensures
            r.inner == inner,
    {
        Compat01As03 { inner }
    }
}

impl<F: Future01> Future03 for Compat01As03<F> {
    type Output = Result<F::Item, F::Error>;

    open spec fn inv(&self) -> bool {
        self.inner.inv()
    }

    open spec fn poll_step(&self, next: &Self, answer: Poll<Result<F::Item, F::Error>>) -> bool {
        exists|inner: Result<Async<F::Item>, F::Error>|
            self.inner.poll_step(&next.inner, inner) && answer == compat01_answer(inner)
    }

    open spec fn poll_context(
        &self,
        cx: Context,
        next: &Self,
        answer: Poll<Result<F::Item, F::Error>>,
        after: Context,
    ) -> bool {
        exists|inner: Result<Async<F::Item>, F::Error>|
            {
                &&& self.inner.poll_step(&next.inner, inner)
                &&& answer == compat01_answer(inner)
                &&& self.inner.poll_context(cx, &next.inner, inner, after)
            }
    }

    /// One poll of the wrapped task with the caller's context, its answer
    /// put in current form.
    fn poll(&mut self, cx: &mut Context) -> (r: Poll<Result<F::Item, F::Error>>) {
        let inner = self.inner.poll(cx);
        let ghost seen = inner;
        let r = match inner {
            Ok(Async::NotReady) => Poll::Pending,
            Ok(Async::Ready(item)) => Poll::Ready(Ok(item)),
            Err(e) => Poll::Ready(Err(e)),
        };
        assert(old(self).inner.poll_step(&self.inner, seen) && r == compat01_answer(seen) && old(
            self,
        ).inner.poll_context(*old(cx), &self.inner, seen, *cx));
        r
    }
}

/// The form in which a current task `Fut` is handed to a legacy executor.
pub type Executor01Future<Fut> = Compat<UnitError<Fut>>;

/// The form in which the current task `future` is handed to a legacy
/// executor.
pub open spec fn executor01_future<Fut>(future: Fut) -> Executor01Future<Fut> {
    Compat { inner: UnitError { future } }
}

/// The form in which a legacy task `F` is handed to a current spawner.
pub type Spawn03Future<F> = UnitOutput<Compat01As03<F>>;

/// The form in which the legacy task `future` is handed to a current
/// spawner: as a current task, its item or error dropped.
pub open spec fn spawn03_future<F>(future: F) -> Spawn03Future<F> {
    UnitOutput { future: Compat01As03 { inner: future } }
}

/// What a current spawner answers where the legacy executor it stands for
/// answered `r`: every refusal, whatever its kind, comes out as "shut down".
pub open spec fn spawn_result(r: Result<(), ExecuteError01>) -> Result<(), SpawnError03> {
    match r {
        Ok(_) => Ok(()),
        Err(_) => Err(SpawnError03::Shutdown),
    }
}

/// What a legacy executor answers where the current spawner it stands for
/// answered `r`.
pub open spec fn execute_result(r: Result<(), SpawnError03>) -> Result<(), ExecuteError01> {
    match r {
        Ok(_) => Ok(()),
        Err(_) => Err(ExecuteError01 { kind: ExecuteErrorKind::Shutdown }),
    }
}

/// A current spawner over a legacy executor.
#[derive(Clone, Debug)]
pub struct Executor01As03<Ex> {
    pub executor01: Ex,
}

impl<Ex> Executor01As03<Ex> {
    /// One submission of `future`, which the executor answered with `inner`,
    /// may take the spawner from `self` to `next` and come back with `r`.
    pub open spec fn spawn_with<Fut>(
        &self,
        future: Fut,
        inner: Result<(), ExecuteError01>,
        next: &Self,
        r: Result<(), SpawnError03>,
    ) -> bool where Ex: Executor01<Executor01Future<Fut>> {
        &&& self.executor01.execute_step(executor01_future(future), &next.executor01, inner)
        &&& r == spawn_result(inner)
    }
}

impl<Fut: Future03, Ex: Executor01<Executor01Future<Fut>>> Spawn03<Fut> for Executor01As03<Ex> {
    open spec fn inv(&self) -> bool {
        self.executor01.inv()
    }

    open spec fn spawn_step(&self, future: Fut, next: &Self, r: Result<(), SpawnError03>) -> bool {
        exists|inner: Result<(), ExecuteError01>| self.spawn_with(future, inner, next, r)
    }

    /// Hands `future` to the executor, once, dressed as a legacy task that
    /// cannot fail. A refusal of the executor comes back as "shut down".
    fn spawn_obj(&mut self, future: Fut) -> (r: Result<(), SpawnError03>) {
        let future01 = Compat::new(UnitError::new(future));
        let inner = self.executor01.execute(future01);
        let r = match inner {
            Ok(_) => Ok(()),
            Err(_) => Err(SpawnError03::shutdown()),
        };
        assert(old(self).spawn_with(future, inner, self, r));
        r
    }
}

impl<F: Future01, Sp: Spawn03<Spawn03Future<F>>> Executor01<F> for Compat<Sp> {
    open spec fn inv(&self) -> bool {
        self.inner.inv()
    }

    open spec fn execute_step(&self, future: F, next: &Self, r: Result<(), ExecuteError01>) -> bool {
        exists|inner: Result<(), SpawnError03>|
            self.inner.spawn_step(spawn03_future(future), &next.inner, inner) && r
                == execute_result(inner)
    }

    /// Hands `future` to the spawner, once, dressed as a current task
    /// without a result. A refusal of the spawner comes back as "shut down".
    fn execute(&mut self, future: F) -> (r: Result<(), ExecuteError01>) {
        let future03 = UnitOutput::new(Compat01As03::new(future));
        let inner = self.inner.spawn_obj(future03);
        let r = match inner {
            Ok(_) => Ok(()),
            Err(_) => Err(ExecuteError01 { kind: ExecuteErrorKind::Shutdown }),
        };
        assert(old(self).inner.spawn_step(spawn03_future(future), &self.inner, inner) && r
            == execute_result(inner));
        r
    }
}

/// Extension trait for legacy executors.
pub trait Executor01CompatExt<Fut: Future03>: Executor01<Executor01Future<Fut>> {
    /// Makes a current spawner of this legacy executor.
    fn compat(self) -> (r: Executor01As03<Self>)
        ensures
            r.executor01 == self,
    {
        Executor01As03 { executor01: self }
    }
}

impl<Fut: Future03, Ex: Executor01<Executor01Future<Fut>>> Executor01CompatExt<Fut> for Ex {
}

/// A task handed across to a legacy executor never fails there: every poll
/// of it answers "not ready" or "ready with the unit item", whatever the
/// task it wraps comes to. No output and no error of a current task reaches
/// the legacy side.
pub proof fn lemma_handed_task_cannot_fail<Fut: Future03>(
    pre: &Executor01Future<Fut>,
    next: &Executor01Future<Fut>,
    answer: Result<Async<()>, ()>,
)
    requires
        pre.poll_step(next, answer),
    ensures
        answer == Ok::<Async<()>, ()>(Async::NotReady) || answer == Ok::<Async<()>, ()>(
            Async::Ready(()),
        ),
        answer == Ok::<Async<()>, ()>(Async::NotReady) ==> pre.inner.future.poll_step(
            &next.inner.future,
            Poll::Pending,
        ),
{
    let mid = choose|mid: Poll<Result<(), ()>>|
        pre.inner.poll_step(&next.inner, mid) && answer == compat_answer(mid);
    let inner = choose|inner: Poll<Fut::Output>| pre.inner.poll_with(inner, &next.inner, mid);
    assert(pre.inner.poll_with(inner, &next.inner, mid));
}

/// A task handed across to a current spawner has no result there: a poll of
/// it is not ready exactly when the poll of the legacy task it wraps is not
/// ready, and is ready with the unit value when that task ends, be it with
/// its item or with its error. No item and no error of a legacy task
/// reaches the current side.
pub proof fn lemma_handed_back_task_has_no_result<F: Future01>(
    pre: &Spawn03Future<F>,
    next: &Spawn03Future<F>,
    answer: Poll<()>,
)
    requires
        pre.poll_step(next, answer),
    ensures
        answer is Pending ==> pre.future.inner.poll_step(
            &next.future.inner,
            Ok(Async::NotReady),
        ),
        answer is Ready ==> answer == Poll::Ready(()) && exists|end: Result<
            Async<F::Item>,
            F::Error,
        >|
            pre.future.inner.poll_step(&next.future.inner, end) && end != Ok::<
                Async<F::Item>,
                F::Error,
            >(Async::NotReady),
{
    let mid = choose|mid: Poll<Result<F::Item, F::Error>>| pre.poll_with(mid, next, answer);
    assert(pre.poll_with(mid, next, answer));
    let end = choose|end: Result<Async<F::Item>, F::Error>|
        pre.future.inner.poll_step(&next.future.inner, end) && mid == compat01_answer(end);
    assert(pre.future.inner.poll_step(&next.future.inner, end));
}

/// A queue of submitted tasks: the plainest target of either protocol.
///
/// While it is open and not full it takes every task, in the order of
/// submission. Once it has been shut down it refuses every task. Running the
/// tasks is up to its owner, who takes them from the front.
#[derive(Debug)]
pub struct RunQueue<F> {
    pub tasks: Vec<F>,
    pub open: bool,
    pub limit: usize,
}

impl<F> RunQueue<F> {
    /// An open queue without tasks and without a limit of its own.
    pub fn new() -> (q: Self)
        ensures
            q.tasks@.len() == 0,
            q.open,
            q.limit == usize::MAX,
    {
        RunQueue { tasks: Vec::new(), open: true, limit: usize::MAX }
    }

    /// An open queue without tasks that holds `limit` tasks at most.
    pub fn with_limit(limit: usize) -> (q: Self)
        ensures
            q.tasks@.len() == 0,
            q.open,
            q.limit == limit,
    {
        RunQueue { tasks: Vec::new(), open: true, limit }
    }

    /// Shuts the queue down. Tasks that are in it stay.
    pub fn shutdown(&mut self)
        ensures
            !final(self).open,
            final(self).tasks == old(self).tasks,
            final(self).limit == old(self).limit,
    {
        self.open = false;
    }

    /// The number of tasks in the queue.
    pub fn len(&self) -> (n: usize)
        ensures
            n == self.tasks@.len(),
    {
        self.tasks.len()
    }

    /// Takes the task that has been in the queue longest.
    pub fn take_next(&mut self) -> (task: Option<F>)
        ensures
            final(self).open == old(self).open,
            final(self).limit == old(self).limit,
            old(self).tasks@.len() == 0 ==> task is None && final(self).tasks@ == old(self).tasks@,
            old(self).tasks@.len() > 0 ==> task == Some(old(self).tasks@[0]) && final(self).tasks@
                == old(self).tasks@.skip(1),
    {
        if self.tasks.len() == 0 {
            None
        } else {
            let task = self.tasks.remove(0);
            assert(self.tasks@ =~= old(self).tasks@.skip(1));
            Some(task)
        }
    }

    /// Why the queue would refuse a task now, if it would.
    pub open spec fn refusal(&self) -> Option<ExecuteErrorKind> {
        if !self.open {
            Some(ExecuteErrorKind::Shutdown)
        } else if self.tasks@.len() >= self.limit {
            Some(ExecuteErrorKind::NoCapacity)
        } else {
            None
        }
    }

    /// What a submission of `future` does to the queue: a task that is taken
    /// goes to the back, a task that is refused leaves no trace.
    pub open spec fn submit(&self, future: F, next: &Self) -> bool {
        &&& next.open == self.open
        &&& next.limit == self.limit
        &&& next.tasks@ == if self.refusal() is None {
            self.tasks@.push(future)
        } else {
            self.tasks@
        }
    }

    /// Puts `future` at the back of the queue, or says why not.
    fn push(&mut self, future: F) -> (r: Option<ExecuteErrorKind>)
        ensures
            old(self).submit(future, final(self)),
            r == old(self).refusal(),
    {
        if !self.open {
            Some(ExecuteErrorKind::Shutdown)
        } else if self.tasks.len() >= self.limit {
            Some(ExecuteErrorKind::NoCapacity)
        } else {
            self.tasks.push(future);
            None
        }
    }
}

impl<F> Executor01<F> for RunQueue<F> {
    open spec fn inv(&self) -> bool {
        true
    }

    open spec fn execute_step(&self, future: F, next: &Self, r: Result<(), ExecuteError01>) -> bool {
        &&& self.submit(future, next)
        &&& r == match self.refusal() {
            None => Ok::<(), ExecuteError01>(()),
            Some(kind) => Err(ExecuteError01 { kind }),
        }
    }

    /// Puts `future` at the back of the queue, unless the queue has been
    /// shut down or is full.
    fn execute(&mut self, future: F) -> (r: Result<(), ExecuteError01>) {
        match self.push(future) {
            None => Ok(()),
            Some(kind) => Err(ExecuteError01 { kind }),
        }
    }
}

impl<F> Spawn03<F> for RunQueue<F> {
    open spec fn inv(&self) -> bool {
        true
    }

    open spec fn spawn_step(&self, future: F, next: &Self, r: Result<(), SpawnError03>) -> bool {
        &&& self.submit(future, next)
        &&& r == match self.refusal() {
            None => Ok::<(), SpawnError03>(()),
            Some(_) => Err(SpawnError03::Shutdown),
        }
    }

    /// Puts `future` at the back of the queue, unless the queue has been
    /// shut down or is full.
    fn spawn_obj(&mut self, future: F) -> (r: Result<(), SpawnError03>) {
        match self.push(future) {
            None => Ok(()),
            Some(_) => Err(SpawnError03::shutdown()),
        }
    }
}

} // verus!
