use crate::chunks::concat_bytes;
use crate::chunks::copy_bytes;
use crate::chunks::lemma_concat_bytes_push;
use crate::chunks::views_of;
use crate::completion::OneshotPoll;
use crate::errors::FsError;
use vstd::prelude::*;

verus! {

/// Immutable configuration of a write sink: how the file is opened.
///
/// The unverified shell translates these into the platform's open call
/// before the first write task runs.
pub struct WriteOptions {
    /// Create the file if it does not exist.
    pub create: bool,
    /// Discard the file's previous contents on open.
    pub truncate: bool,
    /// Write at the end of the existing contents instead.
    pub append: bool,
    /// Permission bits to create the file with, where the platform has them.
    pub permissions: Option<u32>,
}

impl Default for WriteOptions {
    /// The default configuration creates the file and starts it empty.
    fn default() -> (r: Self)
        ensures
            r.create,
            r.truncate,
            !r.append,
            r.permissions is None,
    {
        WriteOptions { create: true, truncate: true, append: false, permissions: None }
    }
}

/// Where a write sink stands between polls.
#[derive(Clone, Copy, Debug, PartialEq, Eq, Structural)]
pub enum WriteState {
    /// No write task outstanding; the sink can accept bytes.
    Idle,
    /// One write task outstanding; nothing more is accepted until it resolves.
    Pending,
    /// Terminal: the sink was closed, or an error was surfaced.
    Closed,
}

/// What the sink answers when offered a chunk.
#[derive(Debug, PartialEq, Eq)]
pub enum AcceptPoll {
    /// The chunk was taken; one write task must now be submitted for it.
    Accepted,
    /// Backpressure: the previous write has not completed, so the chunk is
    /// handed back untouched and the caller must wait and offer it again.
    Busy(Vec<u8>),
    /// The sink is closed; the chunk is handed back and will never be written.
    Refused(Vec<u8>),
}

/// What one poll of the outstanding write reports.
#[derive(Debug, PartialEq, Eq)]
pub enum WritePoll {
    /// The outstanding write has not finished; the consumer suspends.
    NotReady,
    /// The chunk is on disk; the sink accepts bytes again.
    Ready,
    /// The sink ended in this error and is closed.
    Failed(FsError),
}

/// The decision core of a pool-backed file write sink.
///
/// It accepts byte chunks from its consumer and has each written by one
/// blocking task on the pool, strictly one task in flight at a time, so the
/// chunks reach the file in exactly the order they were accepted. The
/// unverified shell owns the file and the pool: when `accept` takes a chunk
/// the shell submits a task writing those bytes at the file cursor, and
/// reports the completion handle's observation back through
/// `complete_write`.
pub struct FsWriteSink {
    /// Where the sink stands between polls.
    pub state: WriteState,
    /// All bytes whose writes completed, in acceptance order.
    pub written: Ghost<Seq<u8>>,
    /// The bytes of the chunk currently being written, if one is pending.
    pub in_flight: Ghost<Seq<u8>>,
    /// How many write tasks were submitted to the pool.
    pub submitted: Ghost<nat>,
    /// How many submitted tasks had their outcome observed.
    pub resolved: Ghost<nat>,
}

impl FsWriteSink {
    /// A sink is well formed when its task bookkeeping matches its state:
    /// a task is unaccounted for, and bytes are in flight, exactly while a
    /// write is pending.
    pub open spec fn wf(self) -> bool {
        &&& self.submitted@ == self.resolved@ + (if self.state is Pending {
            1nat
        } else {
            0nat
        })
        &&& !(self.state is Pending) ==> self.in_flight@ == Seq::<u8>::empty()
    }

    /// A fresh sink: nothing written, nothing in flight.
    pub fn new() -> (s: Self)
        ensures
            s.wf(),
            s.state is Idle,
            s.written@ == Seq::<u8>::empty(),
            s.in_flight@ == Seq::<u8>::empty(),
            s.submitted@ == 0,
            s.resolved@ == 0,
    {
        FsWriteSink {
            state: WriteState::Idle,
            written: Ghost(Seq::empty()),
            in_flight: Ghost(Seq::empty()),
            submitted: Ghost(0nat),
            resolved: Ghost(0nat),
        }
    }

    /// Offer a chunk to the sink.
    ///
    /// An idle sink takes the chunk and the caller must submit one blocking
    /// write task for exactly these bytes. A pending sink changes nothing
    /// and hands the chunk back: acceptance is suspended until the
    /// outstanding write completes. A closed sink refuses it for good.
    pub fn accept(&mut self, chunk: Vec<u8>) -> (out: AcceptPoll)
        requires
            old(self).wf(),
        ensures
            final(self).wf(),
            final(self).written@ == old(self).written@,
            (match old(self).state {
                WriteState::Idle => {
                    &&& out is Accepted
                    &&& final(self).state is Pending
                    &&& final(self).in_flight@ == chunk@
                    &&& final(self).submitted@ == old(self).submitted@ + 1
                    &&& final(self).resolved@ == old(self).resolved@
                },
                WriteState::Pending => out == AcceptPoll::Busy(chunk) && *final(self) == *old(
                    self,
                ),
                WriteState::Closed => out == AcceptPoll::Refused(chunk) && *final(self) == *old(
                    self,
                ),
            }),
    {
        match self.state {
            WriteState::Idle => {
                self.state = WriteState::Pending;
                self.in_flight = Ghost(chunk@);
                self.submitted = Ghost(self.submitted@ + 1);
                AcceptPoll::Accepted
            },
            WriteState::Pending => AcceptPoll::Busy(chunk),
            WriteState::Closed => AcceptPoll::Refused(chunk),
        }
    }

    /// Interpret the outstanding write's completion handle.
    ///
    /// Success commits the in-flight bytes — they now follow everything
    /// written before — and reopens the sink for input. A delivered error or
    /// a vanished worker closes the sink with that failure; the in-flight
    /// bytes are not counted as written, whatever partial state the failed
    /// system call left on disk. While the handle is still waiting, nothing
    /// changes and the consumer suspends.
    pub fn complete_write(&mut self, event: OneshotPoll<()>) -> (out: WritePoll)
        requires
            old(self).wf(),
            old(self).state is Pending,
        ensures
            final(self).wf(),
            final(self).submitted@ == old(self).submitted@,
            (match event {
                OneshotPoll::Waiting => out is NotReady && *final(self) == *old(self),
                OneshotPoll::Delivered(r) => match r {
                    Ok(_) => {
                        &&& out is Ready
                        &&& final(self).state is Idle
                        &&& final(self).written@ == old(self).written@ + old(self).in_flight@
                        &&& final(self).resolved@ == old(self).resolved@ + 1
                    },
                    Err(e) => {
                        &&& out == WritePoll::Failed(e)
                        &&& final(self).state is Closed
                        &&& final(self).written@ == old(self).written@
                        &&& final(self).resolved@ == old(self).resolved@ + 1
                    },
                },
                OneshotPoll::SenderDropped => {
                    &&& out == WritePoll::Failed(FsError::BrokenChannel)
                    &&& final(self).state is Closed
                    &&& final(self).written@ == old(self).written@
                    &&& final(self).resolved@ == old(self).resolved@ + 1
                },
            }),
    {
        match event {
            OneshotPoll::Waiting => WritePoll::NotReady,
            OneshotPoll::Delivered(Ok(_)) => {
                self.written = Ghost(self.written@ + self.in_flight@);
                self.in_flight = Ghost(Seq::empty());
                self.resolved = Ghost(self.resolved@ + 1);
                self.state = WriteState::Idle;
                WritePoll::Ready
            },
            OneshotPoll::Delivered(Err(e)) => {
                self.in_flight = Ghost(Seq::empty());
                self.resolved = Ghost(self.resolved@ + 1);
                self.state = WriteState::Closed;
                WritePoll::Failed(e)
            },
            OneshotPoll::SenderDropped => {
                self.in_flight = Ghost(Seq::empty());
                self.resolved = Ghost(self.resolved@ + 1);
                self.state = WriteState::Closed;
                WritePoll::Failed(FsError::BrokenChannel)
            },
        }
    }

    /// Close the sink.
    ///
    /// Only a sink with no write outstanding may be closed — a pending sink
    /// must have its last write's outcome observed first — so everything
    /// accepted is on disk (or the sink already failed) when this returns.
    pub fn close(&mut self)
        requires
            old(self).wf(),
            !(old(self).state is Pending),
        ensures
            final(self).wf(),
            final(self).state is Closed,
            final(self).written@ == old(self).written@,
            final(self).submitted@ == old(self).submitted@,
            final(self).resolved@ == old(self).resolved@,
    {
        self.state = WriteState::Closed;
    }
}

/// Writes are strictly serialized: however a well-formed sink has been
/// driven, the pool never saw a new write task before the previous one's
/// outcome was observed — at most one task is unaccounted for, and exactly
/// one precisely while the sink is pending.
pub proof fn lemma_write_tasks_serialized(s: FsWriteSink)
    requires
        s.wf(),
    ensures
        s.submitted@ <= s.resolved@ + 1,
        s.state is Pending <==> s.submitted@ == s.resolved@ + 1,
{
}

/// Write order, end to end: pushing a run of chunks through a write sink,
/// waiting out each write in turn and closing, leaves on the file exactly
/// the chunks' bytes concatenated in acceptance order. The returned buffer
/// is the modelled file contents.
pub fn write_all(chunks: &Vec<Vec<u8>>) -> (data: Vec<u8>)
    ensures
        data@ == concat_bytes(views_of(chunks@)),
{
    let mut sink = FsWriteSink::new();
    let mut data: Vec<u8> = Vec::new();
    let mut i: usize = 0;
    while i < chunks.len()
        invariant
            i <= chunks.len(),
            sink.wf(),
            sink.state is Idle,
            data@ == sink.written@,
            sink.written@ == concat_bytes(views_of(chunks@.subrange(0, i as int))),
        decreases chunks.len() - i,
    {
        let chunk = copy_bytes(&chunks[i]);
        let mut mirror = copy_bytes(&chunks[i]);
        match sink.accept(chunk) {
            AcceptPoll::Accepted => {},
            AcceptPoll::Busy(_) => {
                proof {
                    assert(false);
                }
            },
            AcceptPoll::Refused(_) => {
                proof {
                    assert(false);
                }
            },
        }
        // The worker task performs the blocking write of the accepted bytes.
        data.append(&mut mirror);
        match sink.complete_write(OneshotPoll::Delivered(Ok(()))) {
            WritePoll::Ready => {},
            WritePoll::NotReady => {
                proof {
                    assert(false);
                }
            },
            WritePoll::Failed(_) => {
                proof {
                    assert(false);
                }
            },
        }
        proof {
            lemma_concat_bytes_push(views_of(chunks@.subrange(0, i as int)), chunks@[i as int]@);
            assert(views_of(chunks@.subrange(0, i + 1)) =~= views_of(
                chunks@.subrange(0, i as int),
            ).push(chunks@[i as int]@));
        }
        i = i + 1;
    }
    sink.close();
    proof {
        assert(chunks@.subrange(0, chunks@.len() as int) =~= chunks@);
    }
    data
}

} // verus!
