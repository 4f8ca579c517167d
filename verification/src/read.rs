use crate::completion::OneshotPoll;
use crate::errors::FsError;
use vstd::prelude::*;

verus! {

/// How many bytes one read task asks for when nothing else was configured.
pub const DEFAULT_CHUNK_SIZE: usize = 8192;

/// Immutable configuration of a read stream.
pub struct ReadOptions {
    /// Upper bound on the bytes requested by one blocking read.
    pub chunk_size: usize,
}

impl ReadOptions {
    /// A usable configuration asks for at least one byte per read; a zero
    /// request would be answered with zero bytes and mistaken for end of file.
    pub open spec fn wf(self) -> bool {
        self.chunk_size >= 1
    }

    /// Configuration with the given chunk size.
    pub fn with_chunk_size(chunk_size: usize) -> (r: Self)
        requires
            chunk_size >= 1,
        ensures
            r.wf(),
            r.chunk_size == chunk_size,
    {
        ReadOptions { chunk_size }
    }
}

impl Default for ReadOptions {
    /// The default configuration reads in chunks of `DEFAULT_CHUNK_SIZE` bytes.
    fn default() -> (r: Self)
        ensures
            r.wf(),
            r.chunk_size == DEFAULT_CHUNK_SIZE,
    {
        ReadOptions { chunk_size: DEFAULT_CHUNK_SIZE }
    }
}

/// Where a read stream stands between polls.
#[derive(Clone, Copy, Debug, PartialEq, Eq, Structural)]
pub enum ReadState {
    /// No read task outstanding; the next poll submits one.
    Idle,
    /// One read task outstanding; its completion handle decides the next step.
    Pending,
    /// Terminal: end of file was reached or an error was surfaced.
    Closed,
}

/// What one poll of a read stream reports to the consumer.
#[derive(Debug, PartialEq, Eq)]
pub enum ReadPoll {
    /// The outstanding read has not finished; the consumer suspends.
    NotReady,
    /// The next run of bytes, in file order.
    Chunk(Vec<u8>),
    /// End of file: the sequence ended cleanly; the stream is closed.
    Finished,
    /// The sequence ended in this error; the stream is closed.
    Failed(FsError),
}

/// The decision core of a pool-backed file read stream.
///
/// It produces the file's bytes as an ordered, finite run of chunks, one
/// blocking read task in flight at a time. The unverified shell owns the
/// file and the pool: when the stream asks for a read (`begin_read`) the
/// shell submits a task that opens the file if it is not yet open and reads
/// up to the returned number of bytes at the file cursor; the shell then
/// reports the completion handle's observation back (`complete_read`).
///
/// Ghost bookkeeping records every byte emitted and every task submitted and
/// resolved, so the ordering and serialization guarantees are stated over
/// the stream itself.
pub struct FsReadStream {
    /// Where the stream stands between polls.
    pub state: ReadState,
    /// Upper bound on the bytes requested by one read task.
    pub chunk_size: usize,
    /// All bytes emitted so far, in emission order.
    pub emitted: Ghost<Seq<u8>>,
    /// How many read tasks were submitted to the pool.
    pub submitted: Ghost<nat>,
    /// How many submitted tasks had their outcome observed.
    pub resolved: Ghost<nat>,
}

impl FsReadStream {
    /// A stream is well formed when its chunk size is usable and its task
    /// bookkeeping matches its state: a task is unaccounted for exactly
    /// while one is pending.
    pub open spec fn wf(self) -> bool {
        &&& self.chunk_size >= 1
        &&& self.submitted@ == self.resolved@ + (if self.state is Pending {
            1nat
        } else {
            0nat
        })
    }

    /// A fresh stream: nothing emitted, nothing in flight.
    pub fn new(opts: &ReadOptions) -> (s: Self)
        requires
            opts.wf(),
        ensures
            s.wf(),
            s.state is Idle,
            s.chunk_size == opts.chunk_size,
            s.emitted@ == Seq::<u8>::empty(),
            s.submitted@ == 0,
            s.resolved@ == 0,
    {
        FsReadStream {
            state: ReadState::Idle,
            chunk_size: opts.chunk_size,
            emitted: Ghost(Seq::empty()),
            submitted: Ghost(0nat),
            resolved: Ghost(0nat),
        }
    }

    /// Idle step: ask for the next chunk.
    ///
    /// The caller must now submit one blocking read of up to `n` bytes at
    /// the file cursor; until its outcome is reported through
    /// `complete_read`, no further task may be asked for.
    pub fn begin_read(&mut self) -> (n: usize)
        requires
            old(self).wf(),
            old(self).state is Idle,
        ensures
            final(self).wf(),
            final(self).state is Pending,
            n == old(self).chunk_size,
            final(self).chunk_size == old(self).chunk_size,
            final(self).emitted@ == old(self).emitted@,
            final(self).submitted@ == old(self).submitted@ + 1,
            final(self).resolved@ == old(self).resolved@,
    {
        self.state = ReadState::Pending;
        self.submitted = Ghost(self.submitted@ + 1);
        self.chunk_size
    }

    /// Pending step: interpret the outstanding read's completion handle.
    ///
    /// A non-empty chunk is emitted and the stream returns to idle; an empty
    /// chunk means end of file and closes the stream cleanly; a delivered
    /// error or a vanished worker closes the stream with that failure. While
    /// the handle is still waiting, nothing changes and the consumer
    /// suspends.
    pub fn complete_read(&mut self, event: OneshotPoll<Vec<u8>>) -> (out: ReadPoll)
        requires
            old(self).wf(),
            old(self).state is Pending,
        ensures
            final(self).wf(),
            final(self).chunk_size == old(self).chunk_size,
            final(self).submitted@ == old(self).submitted@,
            (match event {
                OneshotPoll::Waiting => {
                    &&& out is NotReady
                    &&& final(self).state is Pending
                    &&& final(self).emitted@ == old(self).emitted@
                    &&& final(self).resolved@ == old(self).resolved@
                },
                OneshotPoll::Delivered(r) => match r {
                    Ok(b) => {
                        &&& final(self).resolved@ == old(self).resolved@ + 1
                        &&& if b@.len() > 0 {
                            &&& out == ReadPoll::Chunk(b)
                            &&& final(self).state is Idle
                            &&& final(self).emitted@ == old(self).emitted@ + b@
                        } else {
                            &&& out is Finished
                            &&& final(self).state is Closed
                            &&& final(self).emitted@ == old(self).emitted@
                        }
                    },
                    Err(e) => {
                        &&& out == ReadPoll::Failed(e)
                        &&& final(self).state is Closed
                        &&& final(self).emitted@ == old(self).emitted@
                        &&& final(self).resolved@ == old(self).resolved@ + 1
                    },
                },
                OneshotPoll::SenderDropped => {
                    &&& out == ReadPoll::Failed(FsError::BrokenChannel)
                    &&& final(self).state is Closed
                    &&& final(self).emitted@ == old(self).emitted@
                    &&& final(self).resolved@ == old(self).resolved@ + 1
                },
            }),
    {
        match event {
            OneshotPoll::Waiting => ReadPoll::NotReady,
            OneshotPoll::Delivered(Ok(b)) => {
                self.resolved = Ghost(self.resolved@ + 1);
                if b.len() > 0 {
                    self.emitted = Ghost(self.emitted@ + b@);
                    self.state = ReadState::Idle;
                    ReadPoll::Chunk(b)
                } else {
                    self.state = ReadState::Closed;
                    ReadPoll::Finished
                }
            },
            OneshotPoll::Delivered(Err(e)) => {
                self.resolved = Ghost(self.resolved@ + 1);
                self.state = ReadState::Closed;
                ReadPoll::Failed(e)
            },
            OneshotPoll::SenderDropped => {
                self.resolved = Ghost(self.resolved@ + 1);
                self.state = ReadState::Closed;
                ReadPoll::Failed(FsError::BrokenChannel)
            },
        }
    }

    /// Closed step: the sequence is exhausted; polling again is a no-op.
    pub fn poll_closed(&self) -> (out: ReadPoll)
        requires
            self.state is Closed,
        ensures
            out is Finished,
    {
        ReadPoll::Finished
    }
}

/// One blocking read, modelled on an in-memory file: the bytes of `file`
/// from `offset` on, at most `count` of them. A shorter run comes back only
/// where the file ends; an empty run therefore means end of file whenever
/// `count >= 1`.
pub fn read_at(file: &Vec<u8>, offset: usize, count: usize) -> (chunk: Vec<u8>)
    requires
        offset <= file.len(),
    ensures
        chunk@ == file@.subrange(
            offset as int,
            if offset + count <= file@.len() {
                offset + count
            } else {
                file@.len() as int
            },
        ),
{
    let end: usize = if count <= file.len() - offset {
        offset + count
    } else {
        file.len()
    };
    let mut chunk: Vec<u8> = Vec::new();
    let mut i: usize = offset;
    while i < end
        invariant
            offset <= i <= end <= file.len(),
            chunk@ == file@.subrange(offset as int, i as int),
        decreases end - i,
    {
        chunk.push(file[i]);
        proof {
            assert(chunk@ =~= file@.subrange(offset as int, i + 1 as int));
        }
        i = i + 1;
    }
    chunk
}

/// Order preservation, end to end: driving a read stream over an in-memory
/// file until it finishes yields chunks whose bytes, concatenated in
/// emission order, are exactly the file's bytes — for every file length and
/// every chunk size of at least one. An empty file yields no bytes and the
/// stream still finishes cleanly.
pub fn read_all(file: &Vec<u8>, opts: &ReadOptions) -> (out: Vec<u8>)
    requires
        opts.wf(),
    ensures
        out@ == file@,
{
    let mut stream = FsReadStream::new(opts);
    let mut out: Vec<u8> = Vec::new();
    let mut offset: usize = 0;
    loop
        invariant
            stream.wf(),
            stream.state is Idle,
            stream.chunk_size == opts.chunk_size,
            opts.wf(),
            offset <= file.len(),
            out@ == file@.subrange(0, offset as int),
        decreases file.len() - offset,
    {
        let n = stream.begin_read();
        let chunk = read_at(file, offset, n);
        match stream.complete_read(OneshotPoll::Delivered(Ok(chunk))) {
            ReadPoll::Chunk(mut c) => {
                proof {
                    assert(out@ + c@ =~= file@.subrange(0, offset + c@.len()));
                }
                offset = offset + c.len();
                out.append(&mut c);
            },
            ReadPoll::Finished => {
                // The read came back empty, so the cursor stood at the end.
                proof {
                    assert(out@ =~= file@);
                }
                return out;
            },
            ReadPoll::NotReady => {
                proof {
                    assert(false);
                }
                return out;
            },
            ReadPoll::Failed(_) => {
                proof {
                    assert(false);
                }
                return out;
            },
        }
    }
}

/// Reads are strictly serialized: however a well-formed stream has been
/// driven, the pool never saw a new read task before the previous one's
/// outcome was observed — at most one task is unaccounted for, and exactly
/// one precisely while the stream is pending.
pub proof fn lemma_read_tasks_serialized(s: FsReadStream)
    requires
        s.wf(),
    ensures
        s.submitted@ <= s.resolved@ + 1,
        s.state is Pending <==> s.submitted@ == s.resolved@ + 1,
{
}

} // verus!
