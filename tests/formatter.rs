use llfree_rs::RawFormatter;

#[test]
fn writes_within_capacity_are_stored_in_order() {
    let mut buf = vec![0u8; 8];
    let mut w = RawFormatter::from_ptrs(0x1000, 0x1008);
    w.write_str(&mut buf, "abc");
    w.write_str(&mut buf, "de");
    assert_eq!(w.bytes_written(), 5);
    assert_eq!(w.pos(), 0x1005);
    assert_eq!(&buf[..5], b"abcde");
    assert_eq!(&buf[5..], &[0u8, 0, 0]);
}

#[test]
fn writes_past_capacity_are_truncated_and_counted() {
    let mut buf = vec![0u8; 4];
    let mut w = RawFormatter::from_ptrs(0x2000, 0x2004);
    w.write_str(&mut buf, "hello");
    w.write_str(&mut buf, " world");
    assert_eq!(w.bytes_written(), 11);
    assert_eq!(&buf[..], b"hell");
    assert!(w.bytes_written() > buf.len());
}

#[test]
fn write_that_exactly_fills_the_buffer() {
    let mut buf = vec![0u8; 3];
    let mut w = RawFormatter::from_ptrs(10, 13);
    w.write_bytes(&mut buf, b"xyz");
    assert_eq!(w.bytes_written(), 3);
    assert_eq!(&buf[..], b"xyz");
    w.write_bytes(&mut buf, b"!");
    assert_eq!(w.bytes_written(), 4);
    assert_eq!(&buf[..], b"xyz");
}

#[test]
fn zero_capacity_dry_run_counts_everything() {
    let mut buf: Vec<u8> = Vec::new();
    let mut w = RawFormatter::from_ptrs(0x3000, 0x3000);
    w.write_str(&mut buf, "sizing ");
    w.write_str(&mut buf, "run");
    assert_eq!(w.bytes_written(), 10);
    assert_eq!(w.pos(), 0x300a);
    assert!(buf.is_empty());
}

#[test]
fn end_before_begin_stores_nothing() {
    let mut buf: Vec<u8> = Vec::new();
    let mut w = RawFormatter::from_ptrs(0x500, 0x100);
    w.write_str(&mut buf, "abc");
    assert_eq!(w.bytes_written(), 3);
    assert_eq!(w.pos(), 0x503);
}

#[test]
fn cursor_saturates_at_the_top_of_the_address_space() {
    let mut buf = vec![0u8; 2];
    let mut w = RawFormatter::from_ptrs(usize::MAX - 2, usize::MAX);
    w.write_str(&mut buf, "abcd");
    assert_eq!(w.pos(), usize::MAX);
    assert_eq!(w.bytes_written(), 2);
    assert_eq!(&buf[..], b"ab");
    w.write_str(&mut buf, "ef");
    assert_eq!(w.pos(), usize::MAX);
    assert_eq!(&buf[..], b"ab");
}

#[test]
fn empty_write_changes_nothing() {
    let mut buf = vec![7u8; 2];
    let mut w = RawFormatter::from_ptrs(4, 6);
    w.write_str(&mut buf, "");
    assert_eq!(w.bytes_written(), 0);
    assert_eq!(&buf[..], &[7u8, 7]);
}

#[test]
fn non_ascii_text_is_written_as_utf8() {
    let mut buf = vec![0u8; 8];
    let mut w = RawFormatter::from_ptrs(0, 8);
    w.write_str(&mut buf, "é");
    assert_eq!(w.bytes_written(), 2);
    assert_eq!(&buf[..2], "é".as_bytes());
}
