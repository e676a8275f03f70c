use poll_bridge::error::{Error, ErrorKind};
use poll_bridge::executor::{
    Compat, Compat01As03, ExecuteError01, ExecuteErrorKind, Executor01, Executor01As03,
    Executor01CompatExt, Executor01Future, RunQueue, Spawn03, Spawn03Future, SpawnError03,
    UnitError, UnitOutput,
};
use poll_bridge::future::{ready, result, Async, Future01, Future03, FutureResult, Ready};
use poll_bridge::interleave_pending::InterleavePending;
use poll_bridge::task::{Context, Poll};

type Task = Ready<Result<u8, Error>>;

#[test]
fn a_failing_task_neither_blocks_nor_leaks_its_error() {
    let queue: RunQueue<Executor01Future<Task>> = RunQueue::new();
    let mut spawner = queue.compat();
    let failure = Error::new(ErrorKind::BrokenPipe);
    assert_eq!(spawner.spawn_obj(ready(Err(failure))), Ok(()));
    assert_eq!(spawner.spawn_obj(ready(Ok(7))), Ok(()));
    assert_eq!(spawner.executor01.len(), 2);

    let mut cx = Context::new();
    let mut first = spawner.executor01.take_next().unwrap();
    // the legacy side sees a task that ended well with the unit item
    assert_eq!(first.poll(&mut cx), Ok(Async::Ready(())));
    let mut second = spawner.executor01.take_next().unwrap();
    assert_eq!(second.poll(&mut cx), Ok(Async::Ready(())));
    assert!(spawner.executor01.take_next().is_none());
    // and the spawner still takes tasks
    assert_eq!(spawner.spawn_obj(ready(Ok(8))), Ok(()));
}

#[test]
fn dropping_a_submitted_task_leaves_the_others_alone() {
    let mut spawner = Executor01As03 { executor01: RunQueue::<Executor01Future<Task>>::new() };
    spawner.spawn_obj(ready(Ok(1))).unwrap();
    spawner.spawn_obj(ready(Ok(2))).unwrap();
    drop(spawner.executor01.take_next());
    let mut cx = Context::new();
    let mut left = spawner.executor01.take_next().unwrap();
    assert_eq!(left.get_ref().future.value, Some(Ok(2)));
    assert_eq!(left.poll(&mut cx), Ok(Async::Ready(())));
}

#[test]
fn a_spawner_over_a_shut_down_executor_reports_shutdown() {
    let mut queue: RunQueue<Executor01Future<Task>> = RunQueue::new();
    queue.shutdown();
    let mut spawner = queue.compat();
    let refused = spawner.spawn_obj(ready(Ok(1)));
    assert_eq!(refused, Err(SpawnError03::shutdown()));
    assert!(refused.unwrap_err().is_shutdown());
    assert_eq!(spawner.executor01.len(), 0);
}

#[test]
fn every_refusal_of_the_executor_comes_out_as_shutdown() {
    let queue: RunQueue<Executor01Future<Task>> = RunQueue::with_limit(1);
    let mut spawner = queue.compat();
    assert_eq!(spawner.spawn_obj(ready(Ok(1))), Ok(()));
    // the executor itself says "no capacity"
    let mut probe: RunQueue<u8> = RunQueue::with_limit(0);
    let full = probe.execute(1).unwrap_err();
    assert_eq!(full, ExecuteError01 { kind: ExecuteErrorKind::NoCapacity });
    assert_eq!(full.kind(), ExecuteErrorKind::NoCapacity);
    // across the bridge it is "shut down"
    assert_eq!(spawner.spawn_obj(ready(Ok(2))), Err(SpawnError03::shutdown()));
    assert_eq!(spawner.executor01.len(), 1);
    // room again: taken again
    drop(spawner.executor01.take_next());
    assert_eq!(spawner.spawn_obj(ready(Ok(3))), Ok(()));
}

#[test]
fn a_task_that_is_not_ready_is_not_ready_on_the_legacy_side() {
    let failing: Task = ready(Err(Error::new(ErrorKind::Other)));
    let mut task = Compat::new(UnitError::new(InterleavePending::new(failing)));
    let mut cx = Context::new();
    assert_eq!(task.poll(&mut cx), Ok(Async::NotReady));
    assert!(cx.take_wake());
    assert_eq!(task.poll(&mut cx), Ok(Async::Ready(())));
    assert!(!cx.is_woken());
}

#[test]
fn a_legacy_executor_over_a_spawner_takes_legacy_tasks() {
    type Legacy = FutureResult<(), ()>;
    let queue: RunQueue<Spawn03Future<Legacy>> = RunQueue::new();
    let mut executor = Compat::new(queue);
    // a task that will fail is taken at once, without being polled
    assert_eq!(executor.execute(result(Err(()))), Ok(()));
    assert_eq!(executor.get_ref().len(), 1);
    // and the next submission goes as if nothing had happened
    assert_eq!(executor.execute(result(Ok(()))), Ok(()));
    let mut cx = Context::new();
    let mut queue = executor.into_inner();
    assert_eq!(queue.len(), 2);
    let mut first = queue.take_next().unwrap();
    assert_eq!(first.future.inner.result, Some(Err(())));
    // the spawner's side sees a task that ended, and nothing of its error
    assert_eq!(first.poll(&mut cx), Poll::Ready(()));
    assert_eq!(first.poll(&mut cx), Poll::Pending);
    let mut second = queue.take_next().unwrap();
    assert_eq!(second.poll(&mut cx), Poll::Ready(()));
    assert!(queue.take_next().is_none());
}

#[test]
fn no_item_and_no_error_of_a_legacy_task_reaches_the_spawner() {
    type Legacy = FutureResult<u8, Error>;
    let mut executor = Compat::new(RunQueue::<Spawn03Future<Legacy>>::new());
    assert_eq!(executor.execute(result(Err(Error::new(ErrorKind::TimedOut)))), Ok(()));
    assert_eq!(executor.execute(result(Ok(7))), Ok(()));
    let mut queue = executor.into_inner();
    let mut cx = Context::new();
    let mut failing = queue.take_next().unwrap();
    assert_eq!(failing.poll(&mut cx), Poll::Ready(()));
    let mut fine = queue.take_next().unwrap();
    assert_eq!(fine.poll(&mut cx), Poll::Ready(()));
}

#[test]
fn a_legacy_task_that_is_not_ready_is_not_ready_on_the_current_side() {
    // the innermost task is a current one, so that it can be made to wait
    let waiting: Task = ready(Err(Error::new(ErrorKind::Other)));
    let legacy = Compat::new(UnitError::new(InterleavePending::new(waiting)));
    let mut task = UnitOutput::new(Compat01As03::new(legacy));
    let mut cx = Context::new();
    assert_eq!(task.poll(&mut cx), Poll::Pending);
    // the wake-up that the innermost wrapper asked for has come all the way up
    assert!(cx.take_wake());
    assert_eq!(task.poll(&mut cx), Poll::Ready(()));
    assert!(!cx.is_woken());
}

#[test]
fn a_legacy_executor_over_a_shut_down_spawner_reports_shutdown() {
    type Legacy = FutureResult<(), ()>;
    let mut queue: RunQueue<Spawn03Future<Legacy>> = RunQueue::new();
    queue.shutdown();
    let mut executor = Compat::new(queue);
    assert_eq!(
        executor.execute(result(Ok(()))),
        Err(ExecuteError01 { kind: ExecuteErrorKind::Shutdown })
    );
    assert_eq!(executor.get_ref().len(), 0);
}

#[test]
fn the_bridges_stack() {
    // current -> legacy -> current: the task arrives wrapped, and still runs
    type Inner = Spawn03Future<Executor01Future<Task>>;
    let queue: RunQueue<Inner> = RunQueue::new();
    let mut spawner = Executor01As03 { executor01: Compat::new(queue) };
    assert_eq!(spawner.spawn_obj(ready(Err(Error::new(ErrorKind::Other)))), Ok(()));
    let mut queue = spawner.executor01.into_inner();
    let mut task = queue.take_next().unwrap();
    let mut cx = Context::new();
    assert_eq!(task.poll(&mut cx), Poll::Ready(()));
}

#[test]
fn a_ready_task_yields_once() {
    let mut task = ready(5u8);
    let mut cx = Context::new();
    assert!(task.poll(&mut cx).is_ready());
    assert!(task.poll(&mut cx).is_pending());
    let mut legacy = result::<u8, u8>(Err(3));
    assert_eq!(legacy.poll(&mut cx), Err(3));
    assert_eq!(legacy.poll(&mut cx), Ok(Async::NotReady));
    let mut legacy = result::<u8, u8>(Ok(4));
    assert_eq!(legacy.poll(&mut cx), Ok(Async::Ready(4)));
    assert!(!cx.is_woken());
}
