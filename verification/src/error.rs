//! Failures of an I/O operation, as plain values.
use vstd::prelude::*;

verus! {

/// What went wrong, in the broad classes the bridges tell apart.
#[derive(Clone, Copy, Debug, PartialEq, Eq, Hash)]
pub enum ErrorKind {
    /// The operation cannot complete right now; it is to be tried again once
    /// the socket signals readiness. Never a real failure.
    WouldBlock,
    /// The address is already bound.
    AddrInUse,
    /// The address cannot be bound on this machine.
    AddrNotAvailable,
    /// Nobody listens at the remote address.
    ConnectionRefused,
    /// The peer reset the connection.
    ConnectionReset,
    /// The connection was torn down.
    ConnectionAborted,
    /// The socket is not connected.
    NotConnected,
    /// The peer stopped reading.
    BrokenPipe,
    /// The operation took too long.
    TimedOut,
    /// The operation was interrupted.
    Interrupted,
    /// The data is malformed.
    InvalidData,
    /// The source ended in the middle of an item.
    UnexpectedEof,
    /// The caller may not do this.
    PermissionDenied,
    /// Anything else.
    Other,
}

/// A failed I/O operation: its class and, where the operating system gave
/// one, its raw error number.
#[derive(Clone, Copy, Debug, PartialEq, Eq, Hash)]
pub struct Error {
    pub kind: ErrorKind,
    pub code: Option<i32>,
}

impl Error {
    /// An error of class `kind` without an error number.
    pub fn new(kind: ErrorKind) -> (e: Error)
        ensures
            e == (Error { kind, code: None }),
    {
        Error { kind, code: None }
    }

    /// An error of class `kind` that carries the error number `code`.
    pub fn from_raw_os_error(kind: ErrorKind, code: i32) -> (e: Error)
        ensures
            e == (Error { kind, code: Some(code) }),
    {
        Error { kind, code: Some(code) }
    }

    /// The class of this error.
    pub fn kind(&self) -> (k: ErrorKind)
        ensures
            k == self.kind,
    {
        self.kind
    }

    /// The raw error number, if there is one.
    pub fn raw_os_error(&self) -> (c: Option<i32>)
        ensures
            c == self.code,
    {
        self.code
    }

    /// True for the transient "not ready right now" answer of a non-blocking
    /// call, false for every real failure.
    pub open spec fn would_block(&self) -> bool {
        self.kind is WouldBlock
    }

    /// Tells the transient answer from a real failure.
    pub fn is_would_block(&self) -> (b: bool)
        ensures
            b == self.would_block(),
    {
        match self.kind {
            ErrorKind::WouldBlock => true,
            _ => false,
        }
    }
}

} // verus!
