//! A verified core for pool-backed, non-blocking file I/O.
//!
//! Blocking file system calls are offloaded to a worker thread pool; the
//! cooperative consumer side observes their results through pollable
//! abstractions. This crate holds the verified decision logic of that
//! bridge: the one-shot completion handle, the read-stream and write-sink
//! state machines (one task in flight at a time, chunks in order,
//! backpressure on writes), and the error taxonomy. The unverified shell
//! that owns files, channels and the thread pool drives these machines.

pub mod chunks;
pub mod completion;
pub mod errors;
pub mod pipe;
pub mod read;
pub mod write;
