use crate::errors::FsError;
use vstd::prelude::*;

verus! {

/// What one poll of the underlying one-shot channel shows the consumer.
///
/// The unverified shell polls the real channel on the scheduler thread and
/// reports the observation here; the verified logic decides what it means.
pub enum OneshotPoll<T> {
    /// The worker has not sent a result yet; the channel registered the
    /// consumer's wake-up, so polling again later is safe and not busy.
    Waiting,
    /// The worker sent its single result.
    Delivered(Result<T, FsError>),
    /// The worker side was destroyed without ever sending.
    SenderDropped,
}

/// What a completion handle reports to its poller.
#[derive(Debug, PartialEq, Eq)]
pub enum CompletionPoll<T> {
    /// No result yet; the consumer suspends until woken.
    NotReady,
    /// The operation finished and this is its value; the handle is spent.
    Done(T),
    /// The operation failed; the handle is spent.
    Failed(FsError),
}

/// The consumer side of a one-shot handoff from a worker thread.
///
/// Exactly one result ever crosses the channel. The handle may be polled
/// repeatedly while the worker is still running, but once a result (or the
/// loss of the producer) has been observed, the handle is spent and must not
/// be polled again.
pub struct CompletionHandle {
    /// Whether the single result has already been consumed.
    pub resolved: bool,
}

impl CompletionHandle {
    /// A fresh handle whose result is still outstanding.
    pub fn new() -> (h: Self)
        ensures
            !h.resolved,
    {
        CompletionHandle { resolved: false }
    }

    /// Whether the single result has already been consumed.
    pub fn is_resolved(&self) -> (b: bool)
        ensures
            b == self.resolved,
    {
        self.resolved
    }

    /// Interpret one observation of the channel.
    ///
    /// A delivered `Ok` becomes `Done`, a delivered `Err` surfaces the
    /// system error verbatim, and a producer that vanished without sending
    /// becomes the deterministic `BrokenChannel` error, so the consumer can
    /// tell failed I/O from failed infrastructure. While the channel is
    /// still waiting the handle stays live; any other observation spends it.
    pub fn poll<T>(&mut self, seen: OneshotPoll<T>) -> (out: CompletionPoll<T>)
        requires
            !old(self).resolved,
        ensures
            (match seen {
                OneshotPoll::Waiting => out is NotReady && !final(self).resolved,
                OneshotPoll::Delivered(r) => match r {
                    Ok(v) => out == CompletionPoll::Done(v) && final(self).resolved,
                    Err(e) => out == CompletionPoll::<T>::Failed(e) && final(self).resolved,
                },
                OneshotPoll::SenderDropped => {
                    &&& out == CompletionPoll::<T>::Failed(FsError::BrokenChannel)
                    &&& final(self).resolved
                },
            }),
    {
        match seen {
            OneshotPoll::Waiting => CompletionPoll::NotReady,
            OneshotPoll::Delivered(Ok(v)) => {
                self.resolved = true;
                CompletionPoll::Done(v)
            },
            OneshotPoll::Delivered(Err(e)) => {
                self.resolved = true;
                CompletionPoll::Failed(e)
            },
            OneshotPoll::SenderDropped => {
                self.resolved = true;
                CompletionPoll::Failed(FsError::BrokenChannel)
            },
        }
    }
}

} // verus!
