use runtime::socket::{readable, ReadExact, Transfer, WriteAll};

#[test]
fn read_of_nothing_is_complete_at_once() {
    let mut read = ReadExact::new(0);
    assert_eq!(read.feed(b"abc", true), (0, Transfer::Complete));
    assert_eq!(read.finish(), Some(Vec::<u8>::new()));
}

#[test]
fn read_takes_only_what_it_wants() {
    let mut read = ReadExact::new(14);
    assert_eq!(read.feed(b"ARTIQ coredev\n\x01", true), (14, Transfer::Complete));
    assert_eq!(read.finish(), Some(b"ARTIQ coredev\n".to_vec()));
}

#[test]
fn read_is_filled_piece_by_piece() {
    let mut read = ReadExact::new(5);
    assert_eq!(read.feed(b"", true), (0, Transfer::Suspend));
    assert_eq!(read.feed(b"ab", true), (2, Transfer::Suspend));
    assert_eq!(read.feed(b"c", true), (1, Transfer::Suspend));
    assert_eq!(read.feed(b"defg", true), (2, Transfer::Complete));
    assert_eq!(read.feed(b"x", true), (0, Transfer::Complete));
    assert_eq!(read.finish(), Some(b"abcde".to_vec()));
}

#[test]
fn closed_peer_with_bytes_missing_is_unexpected_eof() {
    let mut read = ReadExact::new(4);
    assert_eq!(read.feed(b"ab", false), (2, Transfer::UnexpectedEof));
    assert_eq!(read.feed(b"", false), (0, Transfer::UnexpectedEof));
    assert_eq!(read.finish(), None);
}

#[test]
fn closed_peer_after_the_last_byte_is_no_error() {
    let mut read = ReadExact::new(4);
    assert_eq!(read.feed(b"abcd", false), (4, Transfer::Complete));
}

#[test]
fn write_is_flushed_piece_by_piece() {
    let mut write = WriteAll::new(b"hello world".to_vec());
    assert_eq!(write.offer(0), (vec![], Transfer::Suspend));
    assert_eq!(write.offer(5), (b"hello".to_vec(), Transfer::Suspend));
    assert_eq!(write.offer(1), (b" ".to_vec(), Transfer::Suspend));
    assert_eq!(write.offer(100), (b"world".to_vec(), Transfer::Complete));
    assert_eq!(write.offer(100), (vec![], Transfer::Complete));
}

#[test]
fn empty_write_is_complete() {
    let mut write = WriteAll::new(vec![]);
    assert_eq!(write.offer(0), (vec![], Transfer::Complete));
}

#[test]
fn readable_means_at_least_one_byte() {
    assert!(!readable(0));
    assert!(readable(1));
    assert!(readable(usize::MAX));
}
