use filegate::stream::ByteStream;

fn pattern(n: usize) -> Vec<u8> {
    (0..n).map(|i| (i % 251) as u8).collect()
}

#[test]
fn empty_stream_yields_nothing() {
    let mut s = ByteStream::new(Vec::new());
    assert!(s.is_done());
    assert_eq!(s.len_remaining(), 0);
    assert_eq!(s.read_all(), Vec::<u8>::new());
}

#[test]
fn read_all_returns_exactly_the_contents() {
    for n in [1usize, 2, 4095, 4096, 4097, 10_000] {
        let data = pattern(n);
        let mut s = ByteStream::new(data.clone());
        assert_eq!(s.len_remaining(), n);
        let out = s.read_all();
        assert_eq!(out, data);
        assert!(s.is_done());
    }
}

#[test]
fn chunks_concatenate_to_the_contents() {
    let data = pattern(10_000);
    let mut s = ByteStream::new(data.clone());
    let mut out = Vec::new();
    loop {
        let chunk = s.next_chunk(777);
        if chunk.is_empty() {
            break;
        }
        assert!(chunk.len() <= 777);
        out.extend_from_slice(&chunk);
    }
    assert!(s.is_done());
    assert_eq!(out, data);
}

#[test]
fn chunk_size_never_exceeds_request_or_remainder() {
    let data = pattern(100);
    let mut s = ByteStream::new(data.clone());
    let first = s.next_chunk(64);
    assert_eq!(first.len(), 64);
    assert_eq!(s.len_remaining(), 36);
    let second = s.next_chunk(64);
    assert_eq!(second.len(), 36);
    assert!(s.is_done());
    let mut joined = first.clone();
    joined.extend_from_slice(&second);
    assert_eq!(joined, data);
}

#[test]
fn multi_megabyte_stream_is_byte_for_byte() {
    let data = pattern(3 * 1024 * 1024);
    let mut s = ByteStream::new(data.clone());
    let out = s.read_all();
    assert_eq!(out.len(), data.len());
    assert_eq!(out, data);
}

#[test]
fn stream_is_forward_only() {
    let data = pattern(16);
    let mut s = ByteStream::new(data.clone());
    let first = s.next_chunk(8);
    let second = s.next_chunk(8);
    assert_eq!(first, data[..8].to_vec());
    assert_eq!(second, data[8..].to_vec());
    // Exhausted: further chunks are empty, the cursor never rewinds.
    assert_eq!(s.next_chunk(8), Vec::<u8>::new());
}
