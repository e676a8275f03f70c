//! Non-blocking TCP driven by readiness notifications.
//!
//! The handles here decide; they do not touch a socket. Each pending
//! operation names the one piece of outside work it is waiting for as a
//! [`Request`], and is moved on with the [`Event`] that answers it. Whoever
//! owns the event loop performs the request and hands the event back.
//!
//! A non-blocking call that would block is never a failure: the operation
//! subscribes to the readiness signal again and waits. Any other failure
//! ends the one operation that met it and nothing else.
use vstd::prelude::*;
use crate::error::Error;

verus! {

/// An IP address.
#[derive(Clone, Copy, Debug, PartialEq, Eq, Hash)]
pub enum IpAddr {
    V4(u32),
    V6(u128),
}

/// The address of a TCP endpoint.
#[derive(Clone, Copy, Debug, PartialEq, Eq, Hash)]
pub struct SocketAddr {
    pub ip: IpAddr,
    pub port: u16,
}

/// A socket of the operating system, by its descriptor.
#[derive(Clone, Copy, Debug, PartialEq, Eq, Hash)]
pub struct Socket {
    pub fd: u64,
}

/// A handle to an event loop.
#[derive(Clone, Copy, Debug, PartialEq, Eq, Hash)]
pub struct LoopHandle {
    pub id: u64,
}

/// The two directions of a socket. Each has a readiness signal of its own.
#[derive(Clone, Copy, Debug, PartialEq, Eq, Hash)]
pub enum Direction {
    Read,
    Write,
}

/// The readiness signal of one direction of a registered socket.
///
/// The signal is edge-triggered: after it has fired it has to be awaited
/// again before it fires again.
#[derive(Clone, Copy, Debug, PartialEq, Eq, Hash)]
pub struct ReadinessStream {
    pub source: Socket,
    pub direction: Direction,
}

/// A socket registered with an event loop, with its two readiness signals.
#[derive(Clone, Copy, Debug, PartialEq, Eq, Hash)]
pub struct ReadinessPair {
    pub source: Socket,
    pub ready_read: ReadinessStream,
    pub ready_write: ReadinessStream,
}

impl ReadinessPair {
    /// The registration of `source`: the socket and the signals of its two
    /// directions.
    pub open spec fn of(source: Socket) -> ReadinessPair {
        ReadinessPair {
            source,
            ready_read: ReadinessStream { source, direction: Direction::Read },
            ready_write: ReadinessStream { source, direction: Direction::Write },
        }
    }

    /// The registration of `source`, once the event loop has confirmed it.
    pub fn new(source: Socket) -> (pair: ReadinessPair)
        ensures
            pair == ReadinessPair::of(source),
    {
        ReadinessPair {
            source,
            ready_read: ReadinessStream { source, direction: Direction::Read },
            ready_write: ReadinessStream { source, direction: Direction::Write },
        }
    }
}

/// Outside work that a pending operation waits for.
#[derive(Clone, Copy, Debug, PartialEq, Eq, Hash)]
pub enum Request {
    /// Take over `listener`, a listening socket bound to `addr`.
    AdoptListener { listener: Socket, addr: SocketAddr },
    /// Start a non-blocking connect of a new socket to `addr`.
    Connect { addr: SocketAddr },
    /// Start a non-blocking connect of `stream` to `addr`.
    ConnectStream { stream: Socket, addr: SocketAddr },
    /// Register `source` with the event loop `handle`.
    Register { handle: LoopHandle, source: Socket },
    /// Subscribe to `signal` and wait until it fires.
    Await { signal: ReadinessStream },
    /// Try once to accept a connection on `source`.
    Accept { source: Socket },
    /// Ask `source` for its pending error.
    TakeError { source: Socket },
    /// Try once to read up to `len` bytes from `source`.
    Read { source: Socket, len: usize },
    /// Try once to write up to `len` bytes to `source`.
    Write { source: Socket, len: usize },
}

/// What came of a piece of outside work.
#[derive(Clone, Copy, Debug, PartialEq, Eq, Hash)]
pub enum Event {
    /// A socket was taken over or set to connect; or not.
    Opened(Result<Socket, Error>),
    /// The event loop registered the socket; or not.
    Registered(Result<(), Error>),
    /// The awaited signal fired.
    Ready,
    /// A connection from the given peer was accepted; or not.
    Accepted(Result<(Socket, SocketAddr), Error>),
    /// The socket has no pending error; or it has this one.
    ErrorTaken(Result<(), Error>),
    /// So many bytes were read or written; or none.
    Transferred(Result<usize, Error>),
}

impl Request {
    /// `event` is an answer to this request.
    pub open spec fn answered_by(self, event: Event) -> bool {
        match self {
            Request::AdoptListener { .. } | Request::Connect { .. }
            | Request::ConnectStream { .. } => event is Opened,
            Request::Register { .. } => event is Registered,
            Request::Await { .. } => event is Ready,
            Request::Accept { .. } => event is Accepted,
            Request::TakeError { .. } => event is ErrorTaken,
            Request::Read { .. } | Request::Write { .. } => event is Transferred,
        }
    }

    /// Tells whether `event` is an answer to this request.
    pub fn is_answered_by(&self, event: &Event) -> (b: bool)
        ensures
            b == self.answered_by(*event),
    {
        match self {
            Request::AdoptListener { .. } | Request::Connect { .. }
            | Request::ConnectStream { .. } => match event {
                Event::Opened(_) => true,
                _ => false,
            },
            Request::Register { .. } => match event {
                Event::Registered(_) => true,
                _ => false,
            },
            Request::Await { .. } => match event {
                Event::Ready => true,
                _ => false,
            },
            Request::Accept { .. } => match event {
                Event::Accepted(_) => true,
                _ => false,
            },
            Request::TakeError { .. } => match event {
                Event::ErrorTaken(_) => true,
                _ => false,
            },
            Request::Read { .. } | Request::Write { .. } => match event {
                Event::Transferred(_) => true,
                _ => false,
            },
        }
    }
}

/// How far an event has moved a pending operation.
#[derive(Debug, PartialEq, Eq)]
pub enum Step<T> {
    /// The operation goes on; it now waits for this request.
    Perform(Request),
    /// The operation has come to this result.
    Done(Result<T, Error>),
}

/// A connected TCP stream, registered with an event loop.
///
/// Its two directions are independent: one read and one write may be under
/// way at the same time, each waiting on its own signal. Two reads, or two
/// writes, at the same time are not supported; the order of their bytes is
/// undefined.
#[derive(Debug, PartialEq, Eq)]
pub struct TcpStream {
    pub source: Socket,
    pub ready_read: ReadinessStream,
    pub ready_write: ReadinessStream,
}

/// A TCP listener, registered with an event loop.
#[derive(Debug, PartialEq, Eq)]
pub struct TcpListener {
    pub loop_handle: LoopHandle,
    pub inner: ReadinessPair,
}

/// A stream that is being connected.
///
/// The socket is set to connect and registered. Then the operation waits for
/// the socket to become writable, which is how the operating system signals
/// that the connect is over, and asks the socket for its pending error. No
/// error means connected. "Would block" means that the outcome is not in yet:
/// the operation waits for the next write signal and asks again, as often as
/// it takes. Any other error is the outcome of the connect.
#[derive(Debug, PartialEq, Eq)]
pub enum Connecting {
    /// Waits for the socket to be set to connect: a new one, or `stream`.
    Opening { handle: LoopHandle, stream: Option<Socket>, addr: SocketAddr },
    /// Waits for the event loop to register the socket.
    Registering { handle: LoopHandle, source: Socket },
    /// Waits for the write signal.
    AwaitingWritable { source: Socket },
    /// Waits for the pending error of the socket.
    Checking { source: Socket },
    /// Over. The result has been handed out.
    Finished,
}

impl TcpStream {
    /// The stream over the registered socket `source`.
    pub open spec fn of(source: Socket) -> TcpStream {
        TcpStream {
            source,
            ready_read: ReadinessPair::of(source).ready_read,
            ready_write: ReadinessPair::of(source).ready_write,
        }
    }

    /// Starts to make a stream of `connected_stream`, a socket that has been
    /// set to connect.
    pub fn new(connected_stream: Socket, handle: LoopHandle) -> (c: Connecting)
        ensures
            c == (Connecting::Registering { handle, source: connected_stream }),
    {
        Connecting::Registering { handle, source: connected_stream }
    }

    /// Starts to connect `stream`, a socket that the caller has set up, to
    /// `addr`.
    pub fn connect_stream(stream: Socket, addr: &SocketAddr, handle: LoopHandle) -> (c: Connecting)
        ensures
            c == (Connecting::Opening { handle, stream: Some(stream), addr: *addr }),
    {
        Connecting::Opening { handle, stream: Some(stream), addr: *addr }
    }

    /// Starts a read of up to `len` bytes.
    pub fn read(&self, len: usize) -> (t: Transfer)
        ensures
            t == (Transfer::AwaitingReady { signal: self.ready_read, len }),
    {
        Transfer::AwaitingReady { signal: self.ready_read, len }
    }

    /// Starts a write of up to `len` bytes.
    pub fn write(&self, len: usize) -> (t: Transfer)
        ensures
            t == (Transfer::AwaitingReady { signal: self.ready_write, len }),
    {
        Transfer::AwaitingReady { signal: self.ready_write, len }
    }
}

impl Connecting {
    /// The socket that is in the hands of this operation: the one to close
    /// if the operation fails or is given up.
    pub open spec fn held(self) -> Option<Socket> {
        match self {
            Connecting::Opening { stream, .. } => stream,
            Connecting::Registering { source, .. } => Some(source),
            Connecting::AwaitingWritable { source } => Some(source),
            Connecting::Checking { source } => Some(source),
            Connecting::Finished => None,
        }
    }

    /// The socket that is in the hands of this operation, if there is one.
    pub fn socket(&self) -> (s: Option<Socket>)
        ensures
            s == self.held(),
    {
        match self {
            Connecting::Opening { stream, .. } => *stream,
            Connecting::Registering { source, .. } => Some(*source),
            Connecting::AwaitingWritable { source } => Some(*source),
            Connecting::Checking { source } => Some(*source),
            Connecting::Finished => None,
        }
    }

    /// The request that the operation waits for, if it is not over.
    pub open spec fn pending(self) -> Option<Request> {
        match self {
            Connecting::Opening { stream: None, addr, .. } => Some(Request::Connect { addr }),
            Connecting::Opening { stream: Some(stream), addr, .. } => Some(
                Request::ConnectStream { stream, addr },
            ),
            Connecting::Registering { handle, source } => Some(Request::Register { handle, source }),
            Connecting::AwaitingWritable { source } => Some(
                Request::Await { signal: ReadinessPair::of(source).ready_write },
            ),
            Connecting::Checking { source } => Some(Request::TakeError { source }),
            Connecting::Finished => None,
        }
    }

    /// Where `event` takes the operation, and what comes of it; `None` where
    /// `event` is no answer to what the operation waits for.
    pub open spec fn next(self, event: Event) -> Option<(Connecting, Step<TcpStream>)> {
        match (self, event) {
            (Connecting::Opening { handle, .. }, Event::Opened(Ok(source))) => Some(
                (
                    Connecting::Registering { handle, source },
                    Step::Perform(Request::Register { handle, source }),
                ),
            ),
            (Connecting::Opening { .. }, Event::Opened(Err(e))) => Some(
                (Connecting::Finished, Step::Done(Err(e))),
            ),
            (Connecting::Registering { source, .. }, Event::Registered(Ok(_))) => Some(
                (
                    Connecting::AwaitingWritable { source },
                    Step::Perform(Request::Await { signal: ReadinessPair::of(source).ready_write }),
                ),
            ),
            (Connecting::Registering { .. }, Event::Registered(Err(e))) => Some(
                (Connecting::Finished, Step::Done(Err(e))),
            ),
            (Connecting::AwaitingWritable { source }, Event::Ready) => Some(
                (Connecting::Checking { source }, Step::Perform(Request::TakeError { source })),
            ),
            (Connecting::Checking { source }, Event::ErrorTaken(Ok(_))) => Some(
                (Connecting::Finished, Step::Done(Ok(TcpStream::of(source)))),
            ),
            (Connecting::Checking { source }, Event::ErrorTaken(Err(e))) => if e.would_block() {
                Some(
                    (
                        Connecting::AwaitingWritable { source },
                        Step::Perform(
                            Request::Await { signal: ReadinessPair::of(source).ready_write },
                        ),
                    ),
                )
            } else {
                Some((Connecting::Finished, Step::Done(Err(e))))
            },
            _ => None,
        }
    }

    /// The request that the operation waits for, if it is not over.
    pub fn request(&self) -> (r: Option<Request>)
        ensures
            r == self.pending(),
    {
        match self {
            Connecting::Opening { stream: None, addr, .. } => Some(Request::Connect { addr: *addr }),
            Connecting::Opening { stream: Some(stream), addr, .. } => Some(
                Request::ConnectStream { stream: *stream, addr: *addr },
            ),
            Connecting::Registering { handle, source } => Some(
                Request::Register { handle: *handle, source: *source },
            ),
            Connecting::AwaitingWritable { source } => Some(
                Request::Await { signal: ReadinessPair::new(*source).ready_write },
            ),
            Connecting::Checking { source } => Some(Request::TakeError { source: *source }),
            Connecting::Finished => None,
        }
    }

    /// Moves the operation on with the answer to its request. To hand in
    /// anything else, or anything at all once the operation is over, is a
    /// fault of the caller.
    pub fn advance(&mut self, event: Event) -> (step: Step<TcpStream>)
        requires
            old(self).pending() matches Some(request) && request.answered_by(event),
        ensures
            old(self).next(event) == Some((*final(self), step)),
            step matches Step::Perform(request) ==> final(self).pending() == Some(request),
            step is Done ==> final(self).pending() is None,
    {
        let (next, step) = match (&*self, event) {
            (Connecting::Opening { handle, .. }, Event::Opened(Ok(source))) => (
                Connecting::Registering { handle: *handle, source },
                Step::Perform(Request::Register { handle: *handle, source }),
            ),
            (Connecting::Registering { source, .. }, Event::Registered(Ok(_))) => (
                Connecting::AwaitingWritable { source: *source },
                Step::Perform(Request::Await { signal: ReadinessPair::new(*source).ready_write }),
            ),
            (Connecting::AwaitingWritable { source }, Event::Ready) => (
                Connecting::Checking { source: *source },
                Step::Perform(Request::TakeError { source: *source }),
            ),
            (Connecting::Checking { source }, Event::ErrorTaken(Ok(_))) => {
                let pair = ReadinessPair::new(*source);
                (
                    Connecting::Finished,
                    Step::Done(
                        Ok(
                            TcpStream {
                                source: pair.source,
                                ready_read: pair.ready_read,
                                ready_write: pair.ready_write,
                            },
                        ),
                    ),
                )
            },
            (Connecting::Checking { source }, Event::ErrorTaken(Err(e))) => if e.is_would_block() {
                (
                    Connecting::AwaitingWritable { source: *source },
                    Step::Perform(
                        Request::Await { signal: ReadinessPair::new(*source).ready_write },
                    ),
                )
            } else {
                (Connecting::Finished, Step::Done(Err(e)))
            },
            (_, Event::Opened(Err(e))) => (Connecting::Finished, Step::Done(Err(e))),
            (_, Event::Registered(Err(e))) => (Connecting::Finished, Step::Done(Err(e))),
            _ => {
                assert(false);
                (Connecting::Finished, Step::Done(Err(Error::new(crate::error::ErrorKind::Other))))
            },
        };
        *self = next;
        step
    }
}

/// A read or a write on a stream that is under way.
///
/// The operation waits for the signal of its direction, then has the
/// operating system try once. "Would block" sends it back to waiting on the
/// signal. A byte count or any other error is its result.
#[derive(Debug, PartialEq, Eq)]
pub enum Transfer {
    /// Waits for the signal of its direction.
    AwaitingReady { signal: ReadinessStream, len: usize },
    /// Waits for the outcome of the one call.
    Calling { signal: ReadinessStream, len: usize },
    /// Over. The result has been handed out.
    Finished,
}

impl Transfer {
    /// The one call of a transfer on `signal`: a read on the read signal, a
    /// write on the write signal.
    pub open spec fn call(signal: ReadinessStream, len: usize) -> Request {
        match signal.direction {
            Direction::Read => Request::Read { source: signal.source, len },
            Direction::Write => Request::Write { source: signal.source, len },
        }
    }

    /// The request that the operation waits for, if it is not over.
    pub open spec fn pending(self) -> Option<Request> {
        match self {
            Transfer::AwaitingReady { signal, .. } => Some(Request::Await { signal }),
            Transfer::Calling { signal, len } => Some(Transfer::call(signal, len)),
            Transfer::Finished => None,
        }
    }

    /// Where `event` takes the operation, and what comes of it; `None` where
    /// `event` is no answer to what the operation waits for.
    pub open spec fn next(self, event: Event) -> Option<(Transfer, Step<usize>)> {
        match (self, event) {
            (Transfer::AwaitingReady { signal, len }, Event::Ready) => Some(
                (Transfer::Calling { signal, len }, Step::Perform(Transfer::call(signal, len))),
            ),
            (Transfer::Calling { .. }, Event::Transferred(Ok(n))) => Some(
                (Transfer::Finished, Step::Done(Ok(n))),
            ),
            (Transfer::Calling { signal, len }, Event::Transferred(Err(e))) => if e.would_block() {
                Some(
                    (Transfer::AwaitingReady { signal, len }, Step::Perform(Request::Await { signal })),
                )
            } else {
                Some((Transfer::Finished, Step::Done(Err(e))))
            },
            _ => None,
        }
    }

    /// The request that the operation waits for, if it is not over.
    pub fn request(&self) -> (r: Option<Request>)
        ensures
            r == self.pending(),
    {
        match self {
            Transfer::AwaitingReady { signal, .. } => Some(Request::Await { signal: *signal }),
            Transfer::Calling { signal, len } => Some(transfer_call(*signal, *len)),
            Transfer::Finished => None,
        }
    }

    /// Moves the operation on with the answer to its request. To hand in
    /// anything else, or anything at all once the operation is over, is a
    /// fault of the caller.
    pub fn advance(&mut self, event: Event) -> (step: Step<usize>)
        requires
            old(self).pending() matches Some(request) && request.answered_by(event),
        ensures
            old(self).next(event) == Some((*final(self), step)),
            step matches Step::Perform(request) ==> final(self).pending() == Some(request),
            step is Done ==> final(self).pending() is None,
    {
        let (next, step) = match (&*self, event) {
            (Transfer::AwaitingReady { signal, len }, Event::Ready) => (
                Transfer::Calling { signal: *signal, len: *len },
                Step::Perform(transfer_call(*signal, *len)),
            ),
            (Transfer::Calling { .. }, Event::Transferred(Ok(n))) => (
                Transfer::Finished,
                Step::Done(Ok(n)),
            ),
            (Transfer::Calling { signal, len }, Event::Transferred(Err(e))) => if e.is_would_block() {
                (
                    Transfer::AwaitingReady { signal: *signal, len: *len },
                    Step::Perform(Request::Await { signal: *signal }),
                )
            } else {
                (Transfer::Finished, Step::Done(Err(e)))
            },
            _ => {
                assert(false);
                (Transfer::Finished, Step::Done(Ok(0)))
            },
        };
        *self = next;
        step
    }
}

/// The one call of a transfer on `signal`.
fn transfer_call(signal: ReadinessStream, len: usize) -> (r: Request)
    ensures
        r == Transfer::call(signal, len),
{
    match signal.direction {
        Direction::Read => Request::Read { source: signal.source, len },
        Direction::Write => Request::Write { source: signal.source, len },
    }
}

/// A listener that is being set up.
///
/// The socket, bound by the caller or taken over from the caller, is
/// registered with the event loop. A socket that cannot be taken over is the
/// end of it: nothing is registered and nothing is waited for.
#[derive(Debug, PartialEq, Eq)]
pub enum Listening {
    /// Waits for `listener`, which is bound to `addr`, to be taken over.
    Adopting { handle: LoopHandle, listener: Socket, addr: SocketAddr },
    /// Waits for the event loop to register the socket.
    Registering { handle: LoopHandle, source: Socket },
    /// Over. The result has been handed out.
    Finished,
}

impl Listening {
    /// The socket that is in the hands of this operation: the one to close
    /// if the operation fails or is given up.
    pub open spec fn held(self) -> Option<Socket> {
        match self {
            Listening::Adopting { listener, .. } => Some(listener),
            Listening::Registering { source, .. } => Some(source),
            Listening::Finished => None,
        }
    }

    /// The socket that is in the hands of this operation, if there is one.
    pub fn socket(&self) -> (s: Option<Socket>)
        ensures
            s == self.held(),
    {
        match self {
            Listening::Adopting { listener, .. } => Some(*listener),
            Listening::Registering { source, .. } => Some(*source),
            Listening::Finished => None,
        }
    }

    /// The request that the operation waits for, if it is not over.
    pub open spec fn pending(self) -> Option<Request> {
        match self {
            Listening::Adopting { listener, addr, .. } => Some(
                Request::AdoptListener { listener, addr },
            ),
            Listening::Registering { handle, source } => Some(Request::Register { handle, source }),
            Listening::Finished => None,
        }
    }

    /// Where `event` takes the operation, and what comes of it; `None` where
    /// `event` is no answer to what the operation waits for.
    pub open spec fn next(self, event: Event) -> Option<(Listening, Step<TcpListener>)> {
        match (self, event) {
            (Listening::Adopting { handle, .. }, Event::Opened(Ok(source))) => Some(
                (
                    Listening::Registering { handle, source },
                    Step::Perform(Request::Register { handle, source }),
                ),
            ),
            (Listening::Adopting { .. }, Event::Opened(Err(e))) => Some(
                (Listening::Finished, Step::Done(Err(e))),
            ),
            (Listening::Registering { handle, source }, Event::Registered(Ok(_))) => Some(
                (
                    Listening::Finished,
                    Step::Done(
                        Ok(TcpListener { loop_handle: handle, inner: ReadinessPair::of(source) }),
                    ),
                ),
            ),
            (Listening::Registering { .. }, Event::Registered(Err(e))) => Some(
                (Listening::Finished, Step::Done(Err(e))),
            ),
            _ => None,
        }
    }

    /// The request that the operation waits for, if it is not over.
    pub fn request(&self) -> (r: Option<Request>)
        ensures
            r == self.pending(),
    {
        match self {
            Listening::Adopting { listener, addr, .. } => Some(
                Request::AdoptListener { listener: *listener, addr: *addr },
            ),
            Listening::Registering { handle, source } => Some(
                Request::Register { handle: *handle, source: *source },
            ),
            Listening::Finished => None,
        }
    }

    /// Moves the operation on with the answer to its request. To hand in
    /// anything else, or anything at all once the operation is over, is a
    /// fault of the caller.
    pub fn advance(&mut self, event: Event) -> (step: Step<TcpListener>)
        requires
            old(self).pending() matches Some(request) && request.answered_by(event),
        ensures
            old(self).next(event) == Some((*final(self), step)),
            step matches Step::Perform(request) ==> final(self).pending() == Some(request),
            step is Done ==> final(self).pending() is None,
    {
        let (next, step) = match (&*self, event) {
            (Listening::Adopting { handle, .. }, Event::Opened(Ok(source))) => (
                Listening::Registering { handle: *handle, source },
                Step::Perform(Request::Register { handle: *handle, source }),
            ),
            (Listening::Registering { handle, source }, Event::Registered(Ok(_))) => (
                Listening::Finished,
                Step::Done(
                    Ok(TcpListener { loop_handle: *handle, inner: ReadinessPair::new(*source) }),
                ),
            ),
            (_, Event::Opened(Err(e))) => (Listening::Finished, Step::Done(Err(e))),
            (_, Event::Registered(Err(e))) => (Listening::Finished, Step::Done(Err(e))),
            _ => {
                assert(false);
                (Listening::Finished, Step::Done(Err(Error::new(crate::error::ErrorKind::Other))))
            },
        };
        *self = next;
        step
    }
}

/// The connections that arrive at a listener, one after the other, without
/// end.
///
/// For each one the sequence waits for the read signal of the listener and
/// has the operating system try once to accept. If that would block, the
/// signal came before the connection: the sequence waits for the signal
/// again. An accepted socket is registered and handed out as a stream with
/// the address of its peer. Any other failure is handed out in place of the
/// connection it cost; the listener stays open and the sequence goes on.
#[derive(Debug, PartialEq, Eq)]
pub struct Incoming {
    pub loop_handle: LoopHandle,
    pub source: Socket,
    pub state: AcceptState,
}

/// Where the sequence of connections stands.
#[derive(Clone, Copy, Debug, PartialEq, Eq, Hash)]
pub enum AcceptState {
    /// Waits for the read signal of the listener.
    AwaitingReadable,
    /// Waits for the outcome of the one accept.
    Accepting,
    /// Waits for the event loop to register the accepted socket.
    Registering { stream: Socket, peer: SocketAddr },
}

impl Incoming {
    /// The accepted socket that is in the hands of the sequence, not yet
    /// handed out as a stream: the one to close if its registration fails or
    /// the sequence is given up. The socket of the listener is `source`
    /// throughout.
    pub open spec fn held(self) -> Option<Socket> {
        match self.state {
            AcceptState::Registering { stream, .. } => Some(stream),
            _ => None,
        }
    }

    /// The accepted socket that is in the hands of the sequence, if there is
    /// one.
    pub fn socket(&self) -> (s: Option<Socket>)
        ensures
            s == self.held(),
    {
        match self.state {
            AcceptState::Registering { stream, .. } => Some(stream),
            _ => None,
        }
    }

    /// The request that the sequence waits for. There always is one.
    pub open spec fn pending(self) -> Request {
        match self.state {
            AcceptState::AwaitingReadable => Request::Await {
                signal: ReadinessPair::of(self.source).ready_read,
            },
            AcceptState::Accepting => Request::Accept { source: self.source },
            AcceptState::Registering { stream, .. } => Request::Register {
                handle: self.loop_handle,
                source: stream,
            },
        }
    }

    /// Where `event` takes the sequence, and what comes of it; `None` where
    /// `event` is no answer to what the sequence waits for. `Done` carries
    /// the next element.
    pub open spec fn next(self, event: Event) -> Option<
        (Incoming, Step<(TcpStream, SocketAddr)>),
    > {
        match (self.state, event) {
            (AcceptState::AwaitingReadable, Event::Ready) => Some(
                (
                    Incoming { state: AcceptState::Accepting, ..self },
                    Step::Perform(Request::Accept { source: self.source }),
                ),
            ),
            (AcceptState::Accepting, Event::Accepted(Ok((stream, peer)))) => Some(
                (
                    Incoming { state: AcceptState::Registering { stream, peer }, ..self },
                    Step::Perform(Request::Register { handle: self.loop_handle, source: stream }),
                ),
            ),
            (AcceptState::Accepting, Event::Accepted(Err(e))) => if e.would_block() {
                Some(
                    (
                        Incoming { state: AcceptState::AwaitingReadable, ..self },
                        Step::Perform(
                            Request::Await { signal: ReadinessPair::of(self.source).ready_read },
                        ),
                    ),
                )
            } else {
                Some((Incoming { state: AcceptState::AwaitingReadable, ..self }, Step::Done(Err(e))))
            },
            (AcceptState::Registering { stream, peer }, Event::Registered(Ok(_))) => Some(
                (
                    Incoming { state: AcceptState::AwaitingReadable, ..self },
                    Step::Done(Ok((TcpStream::of(stream), peer))),
                ),
            ),
            (AcceptState::Registering { .. }, Event::Registered(Err(e))) => Some(
                (Incoming { state: AcceptState::AwaitingReadable, ..self }, Step::Done(Err(e))),
            ),
            _ => None,
        }
    }

    /// The request that the sequence waits for.
    pub fn request(&self) -> (r: Request)
        ensures
            r == self.pending(),
    {
        match self.state {
            AcceptState::AwaitingReadable => Request::Await {
                signal: ReadinessPair::new(self.source).ready_read,
            },
            AcceptState::Accepting => Request::Accept { source: self.source },
            AcceptState::Registering { stream, .. } => Request::Register {
                handle: self.loop_handle,
                source: stream,
            },
        }
    }

    /// Moves the sequence on with the answer to its request. To hand in
    /// anything else is a fault of the caller. After an element, failed or
    /// not, the sequence waits for the read signal again.
    pub fn advance(&mut self, event: Event) -> (step: Step<(TcpStream, SocketAddr)>)
        requires
            old(self).pending().answered_by(event),
        ensures
            old(self).next(event) == Some((*final(self), step)),
            final(self).loop_handle == old(self).loop_handle,
            final(self).source == old(self).source,
            step matches Step::Perform(request) ==> final(self).pending() == request,
            step is Done ==> final(self).state is AwaitingReadable,
    {
        let (state, step) = match (self.state, event) {
            (AcceptState::AwaitingReadable, Event::Ready) => (
                AcceptState::Accepting,
                Step::Perform(Request::Accept { source: self.source }),
            ),
            (AcceptState::Accepting, Event::Accepted(Ok((stream, peer)))) => (
                AcceptState::Registering { stream, peer },
                Step::Perform(Request::Register { handle: self.loop_handle, source: stream }),
            ),
            (AcceptState::Accepting, Event::Accepted(Err(e))) => if e.is_would_block() {
                (
                    AcceptState::AwaitingReadable,
                    Step::Perform(
                        Request::Await { signal: ReadinessPair::new(self.source).ready_read },
                    ),
                )
            } else {
                (AcceptState::AwaitingReadable, Step::Done(Err(e)))
            },
            (AcceptState::Registering { stream, peer }, Event::Registered(Ok(_))) => {
                let pair = ReadinessPair::new(stream);
                (
                    AcceptState::AwaitingReadable,
                    Step::Done(
                        Ok(
                            (
                                TcpStream {
                                    source: pair.source,
                                    ready_read: pair.ready_read,
                                    ready_write: pair.ready_write,
                                },
                                peer,
                            ),
                        ),
                    ),
                )
            },
            (AcceptState::Registering { .. }, Event::Registered(Err(e))) => (
                AcceptState::AwaitingReadable,
                Step::Done(Err(e)),
            ),
            _ => {
                assert(false);
                (AcceptState::AwaitingReadable, Step::Done(Err(Error::new(crate::error::ErrorKind::Other))))
            },
        };
        self.state = state;
        step
    }
}

impl TcpListener {
    /// Starts to make a listener of `listener`, a socket that is bound and
    /// listens.
    pub fn new(listener: Socket, handle: LoopHandle) -> (l: Listening)
        ensures
            l == (Listening::Registering { handle, source: listener }),
    {
        Listening::Registering { handle, source: listener }
    }

    /// Starts to make a listener of `listener`, a listening socket that the
    /// caller has set up and bound to `addr`.
    pub fn from_listener(listener: Socket, addr: &SocketAddr, handle: LoopHandle) -> (l: Listening)
        ensures
            l == (Listening::Adopting { handle, listener, addr: *addr }),
    {
        Listening::Adopting { handle, listener, addr: *addr }
    }

    /// The connections that arrive at this listener. The listener is used up:
    /// the sequence cannot be started a second time.
    pub fn incoming(self) -> (i: Incoming)
        ensures
            i == (Incoming {
                loop_handle: self.loop_handle,
                source: self.inner.source,
                state: AcceptState::AwaitingReadable,
            }),
    {
        Incoming {
            loop_handle: self.loop_handle,
            source: self.inner.source,
            state: AcceptState::AwaitingReadable,
        }
    }
}

impl LoopHandle {
    /// Sets up a listener with this event loop, given what came of binding
    /// its socket.
    ///
    /// The bind is the caller's, made before the call, and `bound` is its
    /// outcome. A bind that failed fails the call, at once and with the
    /// failure of the bind: nothing is registered and nothing is waited for.
    /// A bound socket is left to be registered.
    pub fn tcp_listen(self, bound: Result<Socket, Error>) -> (r: Result<Listening, Error>)
        ensures
            r == match bound {
                Ok(source) => Ok::<Listening, Error>(
                    Listening::Registering { handle: self, source },
                ),
                Err(e) => Err(e),
            },
    {
        match bound {
            Ok(source) => Ok(TcpListener::new(source, self)),
            Err(e) => Err(e),
        }
    }

    /// Starts to connect a new stream to `addr` with this event loop.
    pub fn tcp_connect(self, addr: &SocketAddr) -> (c: Connecting)
        ensures
            c == (Connecting::Opening { handle: self, stream: None, addr: *addr }),
    {
        Connecting::Opening { handle: self, stream: None, addr: *addr }
    }
}

/// "Would block" is never a result. Where the one accept, the query for the
/// pending error of a connect, or the one read or write would block, the
/// operation does not end and does not call again: it subscribes to its
/// readiness signal once more and waits.
pub proof fn lemma_would_block_waits_again(e: Error, source: Socket, signal: ReadinessStream, len: usize, incoming: Incoming)
    requires
        e.would_block(),
        incoming.state is Accepting,
    ensures
        (Connecting::Checking { source }).next(Event::ErrorTaken(Err(e))) == Some(
            (
                Connecting::AwaitingWritable { source },
                Step::<TcpStream>::Perform(
                    Request::Await { signal: ReadinessPair::of(source).ready_write },
                ),
            ),
        ),
        (Transfer::Calling { signal, len }).next(Event::Transferred(Err(e))) == Some(
            (Transfer::AwaitingReady { signal, len }, Step::<usize>::Perform(Request::Await { signal })),
        ),
        incoming.next(Event::Accepted(Err(e))) == Some(
            (
                Incoming { state: AcceptState::AwaitingReadable, ..incoming },
                Step::<(TcpStream, SocketAddr)>::Perform(
                    Request::Await { signal: ReadinessPair::of(incoming.source).ready_read },
                ),
            ),
        ),
{
}

/// A failure is the result of the operation that met it, unchanged, and
/// "would block" is the only failure that is not: whenever an operation ends
/// in a failure, the event that ended it carried that failure, and the
/// failure is a real one unless it came of opening or registering the
/// socket.
pub proof fn lemma_failures_are_handed_on(connecting: Connecting, transfer: Transfer, incoming: Incoming, event: Event, e: Error)
    ensures
        connecting.next(event) matches Some((_, Step::Done(Err(err)))) && err == e ==> {
            ||| event == Event::Opened(Err(e))
            ||| event == Event::Registered(Err(e))
            ||| event == Event::ErrorTaken(Err(e)) && !e.would_block()
        },
        transfer.next(event) matches Some((_, Step::Done(Err(err)))) && err == e ==> event
            == Event::Transferred(Err(e)) && !e.would_block(),
        incoming.next(event) matches Some((_, Step::Done(Err(err)))) && err == e ==> {
            ||| event == Event::Accepted(Err(e)) && !e.would_block()
            ||| event == Event::Registered(Err(e))
        },
{
}

/// A connect whose socket reports a real failure ends in that failure in the
/// very notification cycle that brought it: from waiting for the write
/// signal, the signal and the answer to the one query are all it takes. It
/// does not wait again.
pub proof fn lemma_refused_connect_ends_at_once(source: Socket, e: Error)
    requires
        !e.would_block(),
    ensures
        (Connecting::AwaitingWritable { source }).next(Event::Ready) == Some(
            (
                Connecting::Checking { source },
                Step::<TcpStream>::Perform(Request::TakeError { source }),
            ),
        ),
        (Connecting::Checking { source }).next(Event::ErrorTaken(Err(e))) == Some(
            (Connecting::Finished, Step::<TcpStream>::Done(Err(e))),
        ),
{
}

/// Nothing closes a listener. Whatever the event, the sequence of its
/// connections goes on for the same listener on the same event loop, and
/// after every element, failed or not, it waits for the read signal again.
pub proof fn lemma_listener_outlives_failures(incoming: Incoming, event: Event)
    ensures
        incoming.next(event) matches Some((after, step)) ==> {
            &&& after.source == incoming.source
            &&& after.loop_handle == incoming.loop_handle
            &&& step is Done ==> after.pending() == (Request::Await {
                signal: ReadinessPair::of(incoming.source).ready_read,
            })
        },
{
}

/// An event moves an operation exactly if it answers the request that the
/// operation waits for.
pub proof fn lemma_answers_move(connecting: Connecting, transfer: Transfer, listening: Listening, incoming: Incoming, event: Event)
    ensures
        connecting.next(event) is Some <==> (connecting.pending() matches Some(request)
            && request.answered_by(event)),
        transfer.next(event) is Some <==> (transfer.pending() matches Some(request)
            && request.answered_by(event)),
        listening.next(event) is Some <==> (listening.pending() matches Some(request)
            && request.answered_by(event)),
        incoming.next(event) is Some <==> incoming.pending().answered_by(event),
{
}

/// A socket is in one pair of hands at a time. The stream or listener that
/// an operation ends in is the socket that the operation held: a connect
/// keeps the socket it opened, a sequence of connections hands out the
/// socket it accepted. An operation that has ended, well or in a failure,
/// holds nothing: after a failure the socket it held before is the caller's
/// to close.
pub proof fn lemma_sockets_change_hands(
    connecting: Connecting,
    listening: Listening,
    incoming: Incoming,
    event: Event,
)
    ensures
        connecting.next(event) matches Some((after, Step::Done(end))) ==> {
            &&& after.held() is None
            &&& end matches Ok(stream) ==> connecting.held() == Some(stream.source)
        },
        connecting.next(event) matches Some((after, Step::Perform(_))) ==> {
            &&& after.held() is Some
            &&& connecting !is Opening ==> after.held() == connecting.held()
        },
        listening.next(event) matches Some((after, Step::Done(end))) ==> {
            &&& after.held() is None
            &&& end matches Ok(listener) ==> listening.held() == Some(listener.inner.source)
        },
        listening.next(event) matches Some((after, Step::Perform(_))) ==> after.held() is Some,
        incoming.next(event) matches Some((after, Step::Done(end))) ==> {
            &&& after.held() is None
            &&& end matches Ok((stream, _)) ==> incoming.held() == Some(stream.source)
        },
{
}

} // verus!
