use framebuf::Frame;
use framebuf::ReadStep;

#[test]
fn test_bytes() {
    let mut bytes = Frame::new(8, 2);
    let ptr = bytes.as_slice().as_ptr() as usize;
    assert_eq!(bytes.extend_from_slice(b"Hello"), 5);
    assert_eq!(bytes.as_slice(), b"Hello");
    assert_eq!(&bytes.consume()[..], b"Hel");
    bytes.extend_from_slice(b"west");
    let ptr2 = bytes.as_slice().as_ptr() as usize;
    assert_eq!(bytes.as_slice(), b"lowest");
    // check that no reallocation caused
    assert_eq!(ptr, ptr2);
    assert_eq!(bytes.finish().as_ref(), b"west");
}

#[test]
fn extend_truncates_to_spare() {
    let mut f = Frame::new(8, 2);
    assert_eq!(f.extend_from_slice(b"0123456789"), 8);
    assert_eq!(f.as_slice(), b"01234567");
    assert_eq!(f.spare(), 0);
    assert_eq!(f.extend_from_slice(b"x"), 0);
    assert_eq!(f.as_slice(), b"01234567");
    assert_eq!(f.written(), 8);
}

#[test]
fn extend_accepts_whole_slice_when_it_fits() {
    let mut f = Frame::new(12, 3);
    assert_eq!(f.extend_from_slice(b"abc"), 3);
    assert_eq!(f.extend_from_slice(b"defgh"), 5);
    assert_eq!(f.as_slice(), b"abcdefgh");
    assert_eq!(f.spare(), 4);
}

#[test]
fn consume_retains_trailing_window() {
    let mut f = Frame::new(12, 3);
    f.extend_from_slice(b"abcdefgh");
    let out = f.consume();
    assert_eq!(&out[..], b"abcde");
    assert_eq!(f.as_slice(), b"fgh");
    assert_eq!(f.written(), 8);
}

#[test]
fn finish_without_consume_returns_everything() {
    let mut f = Frame::new(8, 2);
    f.extend_from_slice(b"Hi");
    assert_eq!(f.finish().as_ref(), b"Hi");
}

#[test]
fn finish_after_empty_consume_returns_everything() {
    // A consume that had nothing to deliver leaves the written count equal
    // to the resident length, so finish still returns the full content.
    let mut f = Frame::new(8, 2);
    f.extend_from_slice(b"ab");
    assert_eq!(&f.consume()[..], b"");
    assert_eq!(f.finish().as_ref(), b"ab");
}

#[test]
fn finish_after_consume_strips_retained_prefix() {
    let mut f = Frame::new(8, 2);
    f.extend_from_slice(b"abcd");
    assert_eq!(&f.consume()[..], b"ab");
    f.extend_from_slice(b"efgh");
    assert_eq!(f.as_slice(), b"cdefgh");
    assert_eq!(f.finish().as_ref(), b"efgh");
}

#[test]
fn small_chunks_keep_the_loop_reading() {
    let mut f = Frame::new(16, 4);
    // every chunk under 2 * preserved = 8 bytes asks for another read
    assert_eq!(f.accept_chunk(b"a"), ReadStep::Again);
    assert_eq!(f.accept_chunk(b"bcd"), ReadStep::Again);
    assert_eq!(f.accept_chunk(b"efg"), ReadStep::Again);
    assert_eq!(f.as_slice(), b"abcdefg");
    assert_eq!(&f.consume()[..], b"abc");
    // a chunk of at least 8 bytes stops the loop with data available
    assert_eq!(f.accept_chunk(b"hijklmno"), ReadStep::Ready);
    assert_eq!(f.as_slice(), b"defghijklmno");
    // an empty chunk is end-of-stream
    assert_eq!(f.accept_chunk(b""), ReadStep::Eof);
    assert_eq!(f.as_slice(), b"defghijklmno");
    assert_eq!(f.written(), 15);
}

#[test]
fn boundary_chunk_stops_the_loop() {
    let mut f = Frame::new(8, 2);
    // exactly 2 * preserved bytes is already enough progress
    assert_eq!(f.accept_chunk(b"wxyz"), ReadStep::Ready);
    // one byte less is not
    let mut g = Frame::new(8, 2);
    assert_eq!(g.accept_chunk(b"wxy"), ReadStep::Again);
}

#[test]
fn file_source_scenario() {
    // A file holding "/target\n/Cargo.lock\n" read through the loop
    // protocol: offer the source the spare room, read at the written
    // offset, and hand the chunk to the frame.
    let data: &[u8] = b"/target\n/Cargo.lock\n";
    let mut f = Frame::new(8, 2);
    let ptr = f.as_slice().as_ptr() as usize;

    let spare = f.spare();
    assert_eq!(spare, 8);
    let mut pos = f.written() as usize;
    let mut take = spare.min(data.len() - pos);
    assert_eq!(f.accept_chunk(&data[pos..pos + take]), ReadStep::Ready);
    assert_eq!(f.as_slice(), b"/target\n");

    f.consume();
    let spare = f.spare();
    assert_eq!(spare, 6);
    pos = f.written() as usize;
    take = spare.min(data.len() - pos);
    assert_eq!(f.accept_chunk(&data[pos..pos + take]), ReadStep::Ready);
    assert_eq!(f.as_slice(), b"t\n/Cargo");

    let ptr2 = f.as_slice().as_ptr() as usize;
    // check that no reallocation caused
    assert_eq!(ptr, ptr2);
}

#[test]
fn no_reallocation_across_cycles() {
    let mut f = Frame::new(8, 2);
    let ptr = f.as_slice().as_ptr() as usize;
    assert_eq!(f.extend_from_slice(b"AAAAAAAA"), 8);
    assert_eq!(&f.consume()[..], b"AAAAAA");
    assert_eq!(f.as_slice(), b"AA");
    assert_eq!(f.extend_from_slice(b"BBBBBBBB"), 6);
    assert_eq!(f.as_slice(), b"AABBBBBB");
    assert_eq!(&f.consume()[..], b"AABBBB");
    assert_eq!(f.as_slice(), b"BB");
    assert_eq!(f.extend_from_slice(b"CCCCCCCC"), 6);
    assert_eq!(f.as_slice(), b"BBCCCCCC");
    let ptr2 = f.as_slice().as_ptr() as usize;
    assert_eq!(ptr, ptr2);
    assert_eq!(&f.consume()[..], b"BBCCCC");
    assert_eq!(f.as_slice(), b"CC");
}
