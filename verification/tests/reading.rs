//! Reading a file chunk by chunk.
use rustic_core::{ErrorKind, RusticError};
use rustic_vfs::error::VfsError;
use rustic_vfs::reader::{ReadRequest, VfsReader, BUFFER_SIZE};

/// What a fetch of `request` gives on a file with the given content.
fn fetch(content: &[u8], request: ReadRequest) -> Vec<u8> {
    let start = request.offset.min(content.len());
    let end = request.offset.saturating_add(request.size).min(content.len());
    content[start..end].to_vec()
}

/// One read of a file with the given content.
fn read_once(reader: &mut VfsReader, content: &[u8]) -> Vec<u8> {
    match reader.next_request() {
        Some(request) => reader.read(Ok(fetch(content, request))).expect("fetch succeeded"),
        None => Vec::new(),
    }
}

/// All that reading gives, and the number of reads that gave something.
fn read_all(mut reader: VfsReader, content: &[u8]) -> (Vec<u8>, usize) {
    let mut all = Vec::new();
    let mut reads = 0;
    loop {
        let chunk = read_once(&mut reader, content);
        if chunk.is_empty() {
            return (all, reads);
        }
        all.extend(chunk);
        reads += 1;
    }
}

fn bytes(len: usize) -> Vec<u8> {
    (0..len).map(|i| (i % 251) as u8).collect()
}

#[test]
fn full_read_asks_for_a_whole_chunk() {
    let reader = VfsReader::of_range(0, None);
    assert_eq!(reader.next_request(), Some(ReadRequest { offset: 0, size: 4_194_304 }));
    assert_eq!(BUFFER_SIZE, 4_194_304);
}

#[test]
fn range_within_a_chunk_asks_for_the_range() {
    let reader = VfsReader::of_range(7, Some(10));
    assert_eq!(reader.next_request(), Some(ReadRequest { offset: 7, size: 10 }));
}

#[test]
fn range_over_a_chunk_asks_for_a_chunk() {
    let reader = VfsReader::new(3, Some(4_194_305));
    assert_eq!(reader.next_request(), Some(ReadRequest { offset: 3, size: 4_194_304 }));
}

#[test]
fn empty_range_fetches_nothing() {
    let reader = VfsReader::of_range(5, Some(0));
    assert_eq!(reader.next_request(), None);
}

#[test]
fn reads_advance_through_the_range() {
    let mut reader = VfsReader::new(2, Some(4_194_309));
    let content = bytes(9_000_000);
    assert_eq!(read_once(&mut reader, &content).len(), 4_194_304);
    assert_eq!(reader.next_request(), Some(ReadRequest { offset: 4_194_306, size: 5 }));
    assert_eq!(read_once(&mut reader, &content), content[4_194_306..4_194_311].to_vec());
    assert_eq!(reader.next_request(), None);
}

#[test]
fn short_reply_leaves_the_rest_for_later() {
    let mut reader = VfsReader::new(0, Some(10));
    assert_eq!(reader.read(Ok(vec![1, 2, 3])).expect("read"), vec![1, 2, 3]);
    assert_eq!(reader.next_request(), Some(ReadRequest { offset: 3, size: 7 }));
}

#[test]
fn long_reply_exhausts_the_range() {
    let mut reader = VfsReader::new(0, Some(2));
    assert_eq!(reader.read(Ok(vec![1, 2, 3])).expect("read"), vec![1, 2, 3]);
    assert_eq!(reader.next_request(), None);
}

#[test]
fn failed_fetch_leaves_the_reader_where_it_is() {
    let mut reader = VfsReader::new(4, Some(10));
    let error = reader
        .read(Err(RusticError::new(ErrorKind::Backend, "pack is gone")))
        .expect_err("the fetch failed");
    assert!(matches!(error, VfsError::ReadFile { .. }));
    assert_eq!(reader.next_request(), Some(ReadRequest { offset: 4, size: 10 }));
}

#[test]
fn reads_add_up_to_the_range() {
    let content = bytes(100);
    assert_eq!(read_all(VfsReader::new(10, Some(20)), &content).0, content[10..30].to_vec());
    assert_eq!(read_all(VfsReader::new(90, Some(20)), &content).0, content[90..].to_vec());
    assert_eq!(read_all(VfsReader::new(100, Some(20)), &content).0, Vec::<u8>::new());
    assert_eq!(read_all(VfsReader::new(500, None), &content).0, Vec::<u8>::new());
    assert_eq!(read_all(VfsReader::of_range(40, None), &content).0, content[40..].to_vec());
}

#[test]
fn full_read_gives_back_the_file() {
    for len in [0, 1, 4_194_303, 4_194_304, 4_194_305, 8_388_609] {
        let content = bytes(len);
        let (all, reads) = read_all(VfsReader::of_range(0, None), &content);
        assert!(all == content);
        assert_eq!(reads, len.div_ceil(4_194_304));
    }
}

#[test]
fn fetches_are_bounded() {
    for len in [None, Some(1), Some(4_194_304), Some(usize::MAX)] {
        let request = VfsReader::new(0, len).next_request().expect("something to read");
        assert!(request.size > 0);
        assert!(request.size <= BUFFER_SIZE);
        assert!(len.is_none() || Some(request.size) <= len);
    }
}
