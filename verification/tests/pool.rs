use nuccbin::bytes::{push_be, push_le, read_be, read_le};
use nuccbin::pool::{resolve, StringPool};

#[test]
fn empty_string_takes_no_place() {
    let mut pool = StringPool::new(100);
    assert_eq!(pool.place(b"", 40), Some(0));
    assert_eq!(pool.cursor(), 0);
    assert_eq!(pool.place(b"abc", 40), Some(60));
    assert_eq!(pool.cursor(), 8);
    let before = pool.as_bytes().to_vec();
    assert_eq!(pool.place(b"", 48), Some(0));
    assert_eq!(pool.as_bytes(), &before[..]);
    assert_eq!(pool.cursor(), 8);
}

#[test]
fn cursor_is_a_multiple_of_eight_after_each_string() {
    let mut pool = StringPool::new(0x30);
    let mut expected = 0;
    for len in 1..40usize {
        let s = vec![0x61u8; len];
        let offset = pool.place(&s, 0x10).unwrap();
        assert_eq!(offset as usize, 0x30 + expected - 0x10);
        expected += (len + 1 + 7) / 8 * 8;
        assert_eq!(pool.cursor(), expected);
        assert_eq!(pool.cursor() % 8, 0);
        assert_eq!(pool.as_bytes().len(), expected);
    }
}

#[test]
fn place_appends_text_terminator_and_padding() {
    let mut pool = StringPool::new(8);
    assert_eq!(pool.place(b"hi", 0), Some(8));
    assert_eq!(pool.as_bytes(), b"hi\0\0\0\0\0\0");
    assert_eq!(pool.place(b"1234567", 4), Some(12));
    assert_eq!(pool.as_bytes(), b"hi\0\0\0\0\0\x001234567\0");
    assert_eq!(pool.start(), 8);
}

#[test]
fn place_refuses_field_behind_the_entry() {
    let mut pool = StringPool::new(8);
    assert_eq!(pool.place(b"hi", 9), None);
    assert_eq!(pool.cursor(), 0);
    assert_eq!(pool.place(b"hi", 8), Some(0));
}

#[test]
fn resolve_reads_up_to_the_terminator() {
    let bytes = b"....abc\0def\0";
    assert_eq!(resolve(bytes, 0, 4, 8), Some(b"abc".to_vec()));
    assert_eq!(resolve(bytes, 2, 6, 4), Some(b"def".to_vec()));
    assert_eq!(resolve(bytes, 2, 0, 8), Some(Vec::new()));
    assert_eq!(resolve(bytes, 0, 7, 8), Some(Vec::new()));
    assert_eq!(resolve(bytes, 0, 12, 8), None);
    assert_eq!(resolve(b"abc", 0, 1, 8), None);
    // eight bytes are signed, four are not
    assert_eq!(resolve(bytes, 10, u64::MAX - 1, 8), Some(b"def".to_vec()));
    assert_eq!(resolve(bytes, 10, 0xFFFF_FFFE, 4), None);
}

#[test]
fn numbers_little_and_big_endian() {
    let mut buf: Vec<u8> = vec![0xAA];
    push_le(&mut buf, 0x1234_5678, 4);
    push_be(&mut buf, 0x1234_5678, 4);
    push_le(&mut buf, 0x0102, 2);
    push_le(&mut buf, 0x0102_0304_0506_0708, 8);
    assert_eq!(
        buf,
        vec![0xAA, 0x78, 0x56, 0x34, 0x12, 0x12, 0x34, 0x56, 0x78, 0x02, 0x01, 8, 7, 6, 5, 4, 3, 2, 1]
    );
    assert_eq!(read_le(&buf, 1, 4), 0x1234_5678);
    assert_eq!(read_be(&buf, 5, 4), 0x1234_5678);
    assert_eq!(read_le(&buf, 9, 2), 0x0102);
    assert_eq!(read_le(&buf, 11, 8), 0x0102_0304_0506_0708);
    assert_eq!(read_be(&buf, 1, 2), 0x7856);
    assert_eq!(read_le(&buf, 0, 0), 0);
}
