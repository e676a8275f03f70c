use poll_bridge::error::{Error, ErrorKind};
use poll_bridge::tcp::{
    AcceptState, Connecting, Direction, Event, Incoming, IpAddr, Listening, LoopHandle,
    ReadinessPair, ReadinessStream, Request, Socket, SocketAddr, Step, TcpListener, TcpStream,
    Transfer,
};

fn local(port: u16) -> SocketAddr {
    SocketAddr { ip: IpAddr::V4(0x7f00_0001), port }
}

fn would_block() -> Error {
    Error::from_raw_os_error(ErrorKind::WouldBlock, 11)
}

fn listener(fd: u64) -> TcpListener {
    TcpListener { loop_handle: LoopHandle { id: 1 }, inner: ReadinessPair::new(Socket { fd }) }
}

fn read_signal(fd: u64) -> ReadinessStream {
    ReadinessStream { source: Socket { fd }, direction: Direction::Read }
}

fn write_signal(fd: u64) -> ReadinessStream {
    ReadinessStream { source: Socket { fd }, direction: Direction::Write }
}

#[test]
fn a_registration_names_the_signals_of_both_directions() {
    let pair = ReadinessPair::new(Socket { fd: 4 });
    assert_eq!(pair.source, Socket { fd: 4 });
    assert_eq!(pair.ready_read, read_signal(4));
    assert_eq!(pair.ready_write, write_signal(4));
}

#[test]
fn connect_to_a_port_nobody_listens_on_is_refused_within_one_cycle() {
    let handle = LoopHandle { id: 7 };
    let refused = Error::from_raw_os_error(ErrorKind::ConnectionRefused, 111);
    let mut connect = handle.tcp_connect(&local(9));
    assert_eq!(connect.request(), Some(Request::Connect { addr: local(9) }));
    let source = Socket { fd: 5 };
    assert_eq!(
        connect.advance(Event::Opened(Ok(source))),
        Step::Perform(Request::Register { handle, source })
    );
    assert_eq!(
        connect.advance(Event::Registered(Ok(()))),
        Step::Perform(Request::Await { signal: write_signal(5) })
    );
    // one notification, one query, done
    assert_eq!(connect.advance(Event::Ready), Step::Perform(Request::TakeError { source }));
    assert_eq!(connect.advance(Event::ErrorTaken(Err(refused))), Step::Done(Err(refused)));
    assert_eq!(connect, Connecting::Finished);
    assert_eq!(connect.request(), None);
}

#[test]
fn connect_succeeds_when_the_socket_has_no_pending_error() {
    let handle = LoopHandle { id: 7 };
    let source = Socket { fd: 5 };
    let mut connect = handle.tcp_connect(&local(80));
    connect.advance(Event::Opened(Ok(source)));
    connect.advance(Event::Registered(Ok(())));
    connect.advance(Event::Ready);
    let stream = TcpStream { source, ready_read: read_signal(5), ready_write: write_signal(5) };
    assert_eq!(connect.advance(Event::ErrorTaken(Ok(()))), Step::Done(Ok(stream)));
    assert_eq!(connect.request(), None);
}

#[test]
fn connect_waits_again_while_the_error_query_would_block() {
    let source = Socket { fd: 5 };
    let mut connect = TcpStream::new(source, LoopHandle { id: 7 });
    assert_eq!(
        connect.request(),
        Some(Request::Register { handle: LoopHandle { id: 7 }, source })
    );
    connect.advance(Event::Registered(Ok(())));
    for _ in 0..100 {
        assert_eq!(connect.request(), Some(Request::Await { signal: write_signal(5) }));
        assert_eq!(connect.advance(Event::Ready), Step::Perform(Request::TakeError { source }));
        // never a result, and never a second query without a new signal
        assert_eq!(
            connect.advance(Event::ErrorTaken(Err(would_block()))),
            Step::Perform(Request::Await { signal: write_signal(5) })
        );
        assert_eq!(connect, Connecting::AwaitingWritable { source });
    }
    connect.advance(Event::Ready);
    assert!(matches!(connect.advance(Event::ErrorTaken(Ok(()))), Step::Done(Ok(_))));
}

#[test]
fn a_connect_that_cannot_start_fails_at_once() {
    let unreachable = Error::new(ErrorKind::AddrNotAvailable);
    let mut connect = LoopHandle { id: 7 }.tcp_connect(&local(80));
    assert_eq!(connect.advance(Event::Opened(Err(unreachable))), Step::Done(Err(unreachable)));
    assert_eq!(connect.request(), None);
}

#[test]
fn connect_stream_connects_the_socket_it_was_given() {
    let handle = LoopHandle { id: 2 };
    let stream = Socket { fd: 12 };
    let mut connect = TcpStream::connect_stream(stream, &local(443), handle);
    assert_eq!(connect.request(), Some(Request::ConnectStream { stream, addr: local(443) }));
    assert_eq!(
        connect.advance(Event::Opened(Ok(stream))),
        Step::Perform(Request::Register { handle, source: stream })
    );
    let denied = Error::new(ErrorKind::PermissionDenied);
    assert_eq!(connect.advance(Event::Registered(Err(denied))), Step::Done(Err(denied)));
}

#[test]
fn a_bind_failure_fails_the_call() {
    let in_use = Error::from_raw_os_error(ErrorKind::AddrInUse, 98);
    // no operation comes of it: nothing to register, nothing to poll
    assert_eq!(LoopHandle { id: 1 }.tcp_listen(Err(in_use)), Err(in_use));
    // not even "would block" is waited for
    assert_eq!(LoopHandle { id: 1 }.tcp_listen(Err(would_block())), Err(would_block()));
}

#[test]
fn a_listener_is_bound_and_registered() {
    let handle = LoopHandle { id: 1 };
    let source = Socket { fd: 3 };
    let mut listen = handle.tcp_listen(Ok(source)).unwrap();
    assert_eq!(listen, Listening::Registering { handle, source });
    assert_eq!(listen.request(), Some(Request::Register { handle, source }));
    assert_eq!(listen.socket(), Some(source));
    assert_eq!(listen.advance(Event::Registered(Ok(()))), Step::Done(Ok(listener(3))));
    assert_eq!(listen, Listening::Finished);
    assert_eq!(listen.request(), None);
    assert_eq!(listen.socket(), None);
}

#[test]
fn a_listener_that_cannot_be_registered_leaves_its_socket_to_the_caller() {
    let handle = LoopHandle { id: 1 };
    let source = Socket { fd: 3 };
    let mut listen = handle.tcp_listen(Ok(source)).unwrap();
    let held = listen.socket();
    let failed = Error::new(ErrorKind::PermissionDenied);
    assert_eq!(listen.advance(Event::Registered(Err(failed))), Step::Done(Err(failed)));
    assert_eq!(held, Some(source));
    assert_eq!(listen.socket(), None);
}

#[test]
fn from_listener_takes_over_a_socket() {
    let handle = LoopHandle { id: 1 };
    let socket = Socket { fd: 3 };
    let mut listen = TcpListener::from_listener(socket, &local(8080), handle);
    assert_eq!(
        listen.request(),
        Some(Request::AdoptListener { listener: socket, addr: local(8080) })
    );
    assert_eq!(listen.socket(), Some(socket));
    listen.advance(Event::Opened(Ok(socket)));
    let failed = Error::new(ErrorKind::Other);
    assert_eq!(listen.advance(Event::Registered(Err(failed))), Step::Done(Err(failed)));

    // a socket that cannot be taken over ends the operation at once
    let mut listen = TcpListener::from_listener(socket, &local(8080), handle);
    assert_eq!(listen.advance(Event::Opened(Err(failed))), Step::Done(Err(failed)));
    assert_eq!(listen.request(), None);

    let mut listen = TcpListener::new(socket, handle);
    assert_eq!(listen.request(), Some(Request::Register { handle, source: socket }));
    assert_eq!(listen.advance(Event::Registered(Ok(()))), Step::Done(Ok(listener(3))));
}

#[test]
fn incoming_yields_each_accepted_connection_with_its_peer() {
    let mut incoming = listener(3).incoming();
    for n in 0..5u64 {
        let accepted = Socket { fd: 10 + n };
        let peer = SocketAddr { ip: IpAddr::V6(n as u128), port: 4000 + n as u16 };
        assert_eq!(incoming.request(), Request::Await { signal: read_signal(3) });
        assert_eq!(
            incoming.advance(Event::Ready),
            Step::Perform(Request::Accept { source: Socket { fd: 3 } })
        );
        assert_eq!(
            incoming.advance(Event::Accepted(Ok((accepted, peer)))),
            Step::Perform(Request::Register { handle: LoopHandle { id: 1 }, source: accepted })
        );
        let stream = TcpStream {
            source: accepted,
            ready_read: read_signal(10 + n),
            ready_write: write_signal(10 + n),
        };
        assert_eq!(incoming.advance(Event::Registered(Ok(()))), Step::Done(Ok((stream, peer))));
    }
}

#[test]
fn an_accept_that_would_block_waits_for_the_signal_again() {
    let mut incoming = listener(3).incoming();
    for _ in 0..3 {
        incoming.advance(Event::Ready);
        assert_eq!(
            incoming.advance(Event::Accepted(Err(would_block()))),
            Step::Perform(Request::Await { signal: read_signal(3) })
        );
        assert_eq!(incoming.state, AcceptState::AwaitingReadable);
    }
}

#[test]
fn a_failed_accept_costs_one_element_and_leaves_the_listener_open() {
    let mut incoming = listener(3).incoming();
    let aborted = Error::from_raw_os_error(ErrorKind::ConnectionAborted, 103);
    incoming.advance(Event::Ready);
    assert_eq!(incoming.advance(Event::Accepted(Err(aborted))), Step::Done(Err(aborted)));
    assert_eq!(
        incoming,
        Incoming {
            loop_handle: LoopHandle { id: 1 },
            source: Socket { fd: 3 },
            state: AcceptState::AwaitingReadable,
        }
    );
    // the next connection comes through as if nothing had happened
    incoming.advance(Event::Ready);
    let peer = local(5000);
    incoming.advance(Event::Accepted(Ok((Socket { fd: 9 }, peer))));
    assert!(matches!(incoming.advance(Event::Registered(Ok(()))), Step::Done(Ok((_, p))) if p == peer));
    // and so does a failure to register an accepted socket
    incoming.advance(Event::Ready);
    incoming.advance(Event::Accepted(Ok((Socket { fd: 10 }, peer))));
    assert_eq!(incoming.advance(Event::Registered(Err(aborted))), Step::Done(Err(aborted)));
    assert_eq!(incoming.request(), Request::Await { signal: read_signal(3) });
}

#[test]
fn a_read_waits_for_its_signal_and_calls_once() {
    let stream = TcpStream { source: Socket { fd: 5 }, ready_read: read_signal(5), ready_write: write_signal(5) };
    let mut read = stream.read(512);
    assert_eq!(read.request(), Some(Request::Await { signal: read_signal(5) }));
    assert_eq!(
        read.advance(Event::Ready),
        Step::Perform(Request::Read { source: Socket { fd: 5 }, len: 512 })
    );
    assert_eq!(read.advance(Event::Transferred(Ok(100))), Step::Done(Ok(100)));
    assert_eq!(read, Transfer::Finished);
    assert_eq!(read.request(), None);
}

#[test]
fn a_write_that_would_block_subscribes_again() {
    let stream = TcpStream { source: Socket { fd: 5 }, ready_read: read_signal(5), ready_write: write_signal(5) };
    let mut write = stream.write(64);
    assert_eq!(write.request(), Some(Request::Await { signal: write_signal(5) }));
    assert_eq!(
        write.advance(Event::Ready),
        Step::Perform(Request::Write { source: Socket { fd: 5 }, len: 64 })
    );
    assert_eq!(
        write.advance(Event::Transferred(Err(would_block()))),
        Step::Perform(Request::Await { signal: write_signal(5) })
    );
    assert_eq!(write, Transfer::AwaitingReady { signal: write_signal(5), len: 64 });
    write.advance(Event::Ready);
    assert_eq!(write.advance(Event::Transferred(Ok(0))), Step::Done(Ok(0)));
}

#[test]
fn a_read_and_a_write_go_on_side_by_side() {
    let stream = TcpStream { source: Socket { fd: 5 }, ready_read: read_signal(5), ready_write: write_signal(5) };
    let mut read = stream.read(8);
    let mut write = stream.write(8);
    write.advance(Event::Ready);
    read.advance(Event::Ready);
    let reset = Error::new(ErrorKind::ConnectionReset);
    // the failure of the one is not the failure of the other
    assert_eq!(write.advance(Event::Transferred(Err(reset))), Step::Done(Err(reset)));
    assert_eq!(read.request(), Some(Request::Read { source: Socket { fd: 5 }, len: 8 }));
    assert_eq!(read.advance(Event::Transferred(Ok(8))), Step::Done(Ok(8)));
}

#[test]
fn every_real_failure_is_handed_on_as_it_is() {
    let kinds = [
        ErrorKind::AddrInUse,
        ErrorKind::AddrNotAvailable,
        ErrorKind::ConnectionRefused,
        ErrorKind::ConnectionReset,
        ErrorKind::ConnectionAborted,
        ErrorKind::NotConnected,
        ErrorKind::BrokenPipe,
        ErrorKind::TimedOut,
        ErrorKind::Interrupted,
        ErrorKind::InvalidData,
        ErrorKind::UnexpectedEof,
        ErrorKind::PermissionDenied,
        ErrorKind::Other,
    ];
    for (code, kind) in kinds.iter().enumerate() {
        let e = Error::from_raw_os_error(*kind, code as i32);
        assert!(!e.is_would_block());
        assert_eq!(e.kind(), *kind);
        assert_eq!(e.raw_os_error(), Some(code as i32));
        let mut read = Transfer::Calling { signal: read_signal(1), len: 1 };
        assert_eq!(read.advance(Event::Transferred(Err(e))), Step::Done(Err(e)));
    }
    assert!(would_block().is_would_block());
    assert_eq!(Error::new(ErrorKind::WouldBlock).raw_os_error(), None);
}

#[test]
fn requests_know_their_answers() {
    let source = Socket { fd: 1 };
    let events = [
        Event::Opened(Ok(source)),
        Event::Registered(Ok(())),
        Event::Ready,
        Event::Accepted(Err(would_block())),
        Event::ErrorTaken(Ok(())),
        Event::Transferred(Ok(1)),
    ];
    let requests = [
        (Request::AdoptListener { listener: source, addr: local(1) }, 0),
        (Request::Connect { addr: local(1) }, 0),
        (Request::ConnectStream { stream: source, addr: local(1) }, 0),
        (Request::Register { handle: LoopHandle { id: 0 }, source }, 1),
        (Request::Await { signal: read_signal(1) }, 2),
        (Request::Accept { source }, 3),
        (Request::TakeError { source }, 4),
        (Request::Read { source, len: 1 }, 5),
        (Request::Write { source, len: 1 }, 5),
    ];
    for (request, answer) in requests.iter() {
        for (i, event) in events.iter().enumerate() {
            assert_eq!(request.is_answered_by(event), i == *answer);
        }
    }
}

#[test]
fn an_operation_knows_the_socket_in_its_hands() {
    let handle = LoopHandle { id: 7 };
    let source = Socket { fd: 5 };
    let refused = Error::new(ErrorKind::ConnectionRefused);

    let mut connect = handle.tcp_connect(&local(9));
    assert_eq!(connect.socket(), None);
    connect.advance(Event::Opened(Ok(source)));
    assert_eq!(connect.socket(), Some(source));
    connect.advance(Event::Registered(Ok(())));
    assert_eq!(connect.socket(), Some(source));
    connect.advance(Event::Ready);
    assert_eq!(connect.socket(), Some(source));
    // after the failure the socket is the caller's to close
    connect.advance(Event::ErrorTaken(Err(refused)));
    assert_eq!(connect.socket(), None);

    let given = Socket { fd: 6 };
    let connect = TcpStream::connect_stream(given, &local(9), handle);
    assert_eq!(connect.socket(), Some(given));

    let mut incoming = listener(3).incoming();
    assert_eq!(incoming.socket(), None);
    incoming.advance(Event::Ready);
    assert_eq!(incoming.socket(), None);
    incoming.advance(Event::Accepted(Ok((Socket { fd: 9 }, local(5000)))));
    assert_eq!(incoming.socket(), Some(Socket { fd: 9 }));
    incoming.advance(Event::Registered(Err(refused)));
    assert_eq!(incoming.socket(), None);
    assert_eq!(incoming.source, Socket { fd: 3 });
}
