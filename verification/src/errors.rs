use vstd::prelude::*;

verus! {

/// Why an operation in this crate failed.
///
/// The taxonomy keeps three sources of failure apart, so that a consumer can
/// tell a failed system call from failed infrastructure:
/// - `Io`: a blocking system call (open/read/write/remove/sync) failed; the
///   operating system's error code is carried verbatim.
/// - `BrokenChannel`: the producer side of a completion handle went away
///   without ever sending a result (the worker task panicked or the pool was
///   torn down mid-operation).
/// - `DispatchRefused`: the pool refused to take new work at all (it is
///   shutting down); fatal for every operation built on that pool.
#[derive(Clone, Copy, Debug, PartialEq, Eq, Structural)]
pub enum FsError {
    /// A system call failed with this operating-system error code.
    Io(i32),
    /// The worker side of a completion handle was dropped without sending.
    BrokenChannel,
    /// The pool refused to accept the task.
    DispatchRefused,
}

} // verus!
