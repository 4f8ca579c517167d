use futures_fs::completion::OneshotPoll;
use futures_fs::errors::FsError;
use futures_fs::read::{
    read_all, read_at, FsReadStream, ReadOptions, ReadPoll, ReadState, DEFAULT_CHUNK_SIZE,
};

#[test]
fn chunks_concatenate_to_the_file() {
    let file: Vec<u8> = b"abcdefghij".to_vec();
    for chunk_size in 1..=12usize {
        let opts = ReadOptions::with_chunk_size(chunk_size);
        let out = read_all(&file, &opts);
        assert_eq!(out, file, "chunk size {}", chunk_size);
    }
}

#[test]
fn empty_file_finishes_cleanly_with_no_bytes() {
    let file: Vec<u8> = Vec::new();
    let out = read_all(&file, &ReadOptions::with_chunk_size(4));
    assert!(out.is_empty());
}

#[test]
fn default_options_read_in_large_chunks() {
    let opts = ReadOptions::default();
    assert_eq!(opts.chunk_size, DEFAULT_CHUNK_SIZE);
    assert_eq!(DEFAULT_CHUNK_SIZE, 8192);
}

#[test]
fn read_at_returns_the_exact_slice() {
    let file: Vec<u8> = b"0123456789".to_vec();
    assert_eq!(read_at(&file, 0, 4), b"0123".to_vec());
    assert_eq!(read_at(&file, 4, 4), b"4567".to_vec());
    // A short read at the end of the file is a valid, smaller chunk.
    assert_eq!(read_at(&file, 8, 4), b"89".to_vec());
    // At the end of the file the read comes back empty.
    assert_eq!(read_at(&file, 10, 4), Vec::<u8>::new());
}

#[test]
fn poll_transitions_follow_the_state_machine() {
    let opts = ReadOptions::with_chunk_size(2);
    let mut s = FsReadStream::new(&opts);
    assert_eq!(s.state, ReadState::Idle);

    let n = s.begin_read();
    assert_eq!(n, 2);
    assert_eq!(s.state, ReadState::Pending);

    // Not resolved yet: the consumer suspends, the task stays in flight.
    let out = s.complete_read(OneshotPoll::Waiting);
    assert_eq!(out, ReadPoll::NotReady);
    assert_eq!(s.state, ReadState::Pending);

    // The task delivers a chunk: emitted, back to idle.
    let out = s.complete_read(OneshotPoll::Delivered(Ok(b"hi".to_vec())));
    assert_eq!(out, ReadPoll::Chunk(b"hi".to_vec()));
    assert_eq!(s.state, ReadState::Idle);

    // The next read comes back empty: clean end of file.
    s.begin_read();
    let out = s.complete_read(OneshotPoll::Delivered(Ok(Vec::new())));
    assert_eq!(out, ReadPoll::Finished);
    assert_eq!(s.state, ReadState::Closed);

    // Further polls of a closed stream are a no-op reporting "finished".
    assert_eq!(s.poll_closed(), ReadPoll::Finished);
}

#[test]
fn at_most_one_read_in_flight() {
    // A counting drive over the whole file: a new task is submitted only
    // after the previous one's outcome was observed.
    let file: Vec<u8> = b"abcdef".to_vec();
    let opts = ReadOptions::with_chunk_size(2);
    let mut s = FsReadStream::new(&opts);
    let mut submitted: usize = 0;
    let mut resolved: usize = 0;
    let mut offset: usize = 0;
    loop {
        assert_eq!(s.state, ReadState::Idle);
        let n = s.begin_read();
        submitted += 1;
        assert!(submitted <= resolved + 1);
        let chunk = read_at(&file, offset, n);
        match s.complete_read(OneshotPoll::Delivered(Ok(chunk))) {
            ReadPoll::Chunk(c) => {
                resolved += 1;
                offset += c.len();
            }
            ReadPoll::Finished => {
                resolved += 1;
                break;
            }
            other => panic!("unexpected poll outcome {:?}", other),
        }
        assert_eq!(submitted, resolved);
    }
    assert_eq!(offset, file.len());
    assert_eq!(submitted, 4); // three chunks of two bytes, then end of file
    assert_eq!(submitted, resolved);
}

#[test]
fn a_failed_read_closes_the_stream_with_the_error() {
    let opts = ReadOptions::with_chunk_size(8);
    let mut s = FsReadStream::new(&opts);
    s.begin_read();
    let out = s.complete_read(OneshotPoll::Delivered(Err(FsError::Io(5))));
    assert_eq!(out, ReadPoll::Failed(FsError::Io(5)));
    assert_eq!(s.state, ReadState::Closed);
}

#[test]
fn a_vanished_worker_closes_the_stream_with_broken_channel() {
    let opts = ReadOptions::with_chunk_size(8);
    let mut s = FsReadStream::new(&opts);
    s.begin_read();
    let out = s.complete_read(OneshotPoll::SenderDropped);
    assert_eq!(out, ReadPoll::Failed(FsError::BrokenChannel));
    assert_eq!(s.state, ReadState::Closed);
}
