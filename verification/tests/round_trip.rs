use futures_fs::pipe::round_trip;
use futures_fs::read::ReadOptions;

#[test]
fn written_bytes_read_back_exactly() {
    let chunks: Vec<Vec<u8>> = vec![
        b"The quick brown fox ".to_vec(),
        b"jumps over ".to_vec(),
        b"the lazy dog".to_vec(),
    ];
    let expected = b"The quick brown fox jumps over the lazy dog".to_vec();
    for chunk_size in [1usize, 2, 3, 7, 64, 8192] {
        let out = round_trip(&chunks, &ReadOptions::with_chunk_size(chunk_size));
        assert_eq!(out, expected, "read chunk size {}", chunk_size);
    }
}

#[test]
fn empty_write_reads_back_empty() {
    let out = round_trip(&Vec::new(), &ReadOptions::default());
    assert!(out.is_empty());
}

#[test]
fn single_byte_chunks_survive_the_trip() {
    let chunks: Vec<Vec<u8>> = (0u8..=255).map(|b| vec![b]).collect();
    let expected: Vec<u8> = (0u8..=255).collect();
    let out = round_trip(&chunks, &ReadOptions::with_chunk_size(3));
    assert_eq!(out, expected);
}

#[test]
fn hello_world_written_then_read_back() {
    // Write the bytes "hello world" with the default options, close, and
    // collect the whole file back with a default-configured read.
    let chunks: Vec<Vec<u8>> = vec![b"hello world".to_vec()];
    let out = round_trip(&chunks, &ReadOptions::default());
    assert_eq!(out, b"hello world".to_vec());
}
