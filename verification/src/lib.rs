//! Bridges between cooperative-polling protocols.
//!
//! Everything here advances only inside explicit poll calls. A handle that is
//! not ready hands control back and leaves word of who is to be notified; it
//! never blocks and never spins.
//!
//! * [`into_async_read`] turns a sequence of byte chunks into a byte reader
//!   with buffered peek and consume.
//! * [`interleave_pending`] and [`limited`] wrap a reader and inject
//!   not-ready answers or short reads, for testing readers under hostile
//!   scheduling; [`read_ext`] offers both as methods on every reader.
//! * [`executor`] lets a legacy submission sink stand in for a current
//!   spawner, and the other way round.
//! * [`tcp`] drives non-blocking sockets from readiness notifications.
//!
//! [`task`], [`future`], [`stream`] and [`io`] hold what the bridges bridge:
//! the answer of a poll and the capability to ask for another, and the
//! contracts of tasks, chunk sequences and readers. [`error`] holds the
//! failures of I/O operations.
//!
//! Each contract is a relation on plain data: what one operation may make of
//! a state, what it may answer, and what it may do to the context it was
//! handed. Wrappers state theirs in terms of the relations of what they
//! wrap, so the behaviour of a stack of wrappers is known as exactly as that
//! of its innermost part, and a wake-up asked for at the bottom of the stack
//! is known to reach the caller at the top.
pub mod error;
pub mod task;
pub mod future;
pub mod stream;
pub mod io;
pub mod into_async_read;
pub mod limited;
pub mod interleave_pending;
pub mod read_ext;
pub mod executor;
pub mod tcp;
