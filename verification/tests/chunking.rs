use fimfarchive_edge::bytes::append_bytes;
use fimfarchive_edge::bytes::bytes_equal;
use fimfarchive_edge::bytes::has_prefix;
use fimfarchive_edge::bytes::suffix_from;
use fimfarchive_edge::chunk::split_chunks;
use fimfarchive_edge::route::build_location;

fn concat(chunks: &[Vec<u8>]) -> Vec<u8> {
    let mut out = Vec::new();
    for c in chunks {
        out.extend_from_slice(c);
    }
    out
}

#[test]
fn file_smaller_than_one_chunk_round_trips() {
    let data = b"hello".to_vec();
    let chunks = split_chunks(&data, 16);
    assert_eq!(chunks.len(), 1);
    assert_eq!(concat(&chunks), data);
}

#[test]
fn file_spanning_chunks_round_trips() {
    let data: Vec<u8> = (0u8..10).collect();
    let chunks = split_chunks(&data, 4);
    assert_eq!(chunks.len(), 3);
    assert_eq!(chunks[0], vec![0, 1, 2, 3]);
    assert_eq!(chunks[1], vec![4, 5, 6, 7]);
    assert_eq!(chunks[2], vec![8, 9]);
    assert_eq!(concat(&chunks), data);
}

#[test]
fn exact_multiple_fills_every_chunk() {
    let data: Vec<u8> = (0u8..8).collect();
    let chunks = split_chunks(&data, 4);
    assert_eq!(chunks.len(), 2);
    assert!(chunks.iter().all(|c| c.len() == 4));
    assert_eq!(concat(&chunks), data);
}

#[test]
fn empty_file_has_no_chunks() {
    let data = Vec::new();
    let chunks = split_chunks(&data, 16);
    assert!(chunks.is_empty());
}

#[test]
fn chunk_size_one_still_round_trips() {
    let data = b"abc".to_vec();
    let chunks = split_chunks(&data, 1);
    assert_eq!(chunks.len(), 3);
    assert_eq!(concat(&chunks), data);
}

#[test]
fn byte_helpers_behave() {
    assert!(bytes_equal(&b"abc".to_vec(), &b"abc".to_vec()));
    assert!(!bytes_equal(&b"abc".to_vec(), &b"abd".to_vec()));
    assert!(!bytes_equal(&b"abc".to_vec(), &b"ab".to_vec()));
    assert!(has_prefix(&b"/releases/x".to_vec(), &b"/releases".to_vec()));
    assert!(!has_prefix(&b"/rel".to_vec(), &b"/releases".to_vec()));
    assert_eq!(suffix_from(&b"/releases/x".to_vec(), 10), b"x".to_vec());
    let mut v = b"ab".to_vec();
    append_bytes(&mut v, &b"cd".to_vec());
    assert_eq!(v, b"abcd".to_vec());
}

#[test]
fn location_is_built_verbatim() {
    let loc = build_location(
        &b"www.fimfarchive.net".to_vec(),
        &b"/releases/v1/a.tar".to_vec(),
        &Some(b"x=1".to_vec()),
    );
    assert_eq!(loc, b"https://www.fimfarchive.net/releases/v1/a.tar?x=1".to_vec());
    let loc2 = build_location(&b"h".to_vec(), &b"/p".to_vec(), &None);
    assert_eq!(loc2, b"https://h/p".to_vec());
}
