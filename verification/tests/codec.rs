use nuccbin::codec::{decode, encode};
use nuccbin::document::{Document, Value};
use nuccbin::error::CodecError;
use nuccbin::layout::{field, padded, FieldKind, FormatDescriptor};

fn sample_descriptor() -> FormatDescriptor {
    FormatDescriptor {
        header: vec![
            field("version", FieldKind::Constant32(1001)),
            field("entry_count", FieldKind::Count32),
            field("entry_ptr", FieldKind::Constant64(8)),
        ],
        record: vec![field("id", FieldKind::U32), field("name", FieldKind::Pointer64)],
    }
}

fn sized_descriptor() -> FormatDescriptor {
    FormatDescriptor {
        header: vec![
            field("size", FieldKind::Size),
            field("version", FieldKind::Constant32(1001)),
            field("entry_count", FieldKind::Count16),
            field("unk0", FieldKind::U16),
            field("entry_ptr", FieldKind::Constant64(8)),
        ],
        record: vec![
            field("name", FieldKind::Pointer64),
            field("index", FieldKind::Index),
            padded("flags", FieldKind::U16, 0, 2),
        ],
    }
}

fn text(s: &str) -> Value {
    Value::Bytes(s.as_bytes().to_vec())
}

fn sample_bytes() -> Vec<u8> {
    let mut b: Vec<u8> = Vec::new();
    b.extend_from_slice(&[0xE9, 0x03, 0, 0]);
    b.extend_from_slice(&[2, 0, 0, 0]);
    b.extend_from_slice(&[8, 0, 0, 0, 0, 0, 0, 0]);
    b.extend_from_slice(&[7, 0, 0, 0]);
    b.extend_from_slice(&[20, 0, 0, 0, 0, 0, 0, 0]);
    b.extend_from_slice(&[9, 0, 0, 0]);
    b.extend_from_slice(&[0, 0, 0, 0, 0, 0, 0, 0]);
    b.extend_from_slice(&[0x61, 0x62, 0, 0, 0, 0, 0, 0]);
    b
}

fn sample_document() -> Document {
    Document {
        header: vec![Value::Int(1001), Value::Int(2), Value::Int(8)],
        records: vec![vec![Value::Int(7), text("ab")], vec![Value::Int(9), text("")]],
    }
}

#[test]
fn encode_writes_header_records_and_pool() {
    assert_eq!(encode(&sample_descriptor(), &sample_document()), Ok(sample_bytes()));
}

#[test]
fn decode_reads_what_encode_wrote() {
    assert_eq!(decode(&sample_bytes(), &sample_descriptor()), Ok(sample_document()));
}

#[test]
fn pointer_is_pool_position_less_field_address() {
    // header 16 bytes, stride 12, two records: the pool starts at 40; the pointer
    // field of record 0 lies at 16 + 0 * 12 + 4 = 20, so it holds 40 - 20.
    let bytes = encode(&sample_descriptor(), &sample_document()).unwrap();
    assert_eq!(&bytes[20..28], &[20, 0, 0, 0, 0, 0, 0, 0]);
    // record 1 with a string: its field lies at 16 + 12 + 4 = 32.
    let mut doc = sample_document();
    doc.records[1][1] = text("c");
    let bytes = encode(&sample_descriptor(), &doc).unwrap();
    assert_eq!(&bytes[32..40], &[16, 0, 0, 0, 0, 0, 0, 0]);
    assert_eq!(&bytes[48..56], &[0x63, 0, 0, 0, 0, 0, 0, 0]);
    assert_eq!(bytes.len(), 56);
}

#[test]
fn decode_rejects_truncated_records() {
    let bytes = sample_bytes();
    assert_eq!(decode(&bytes[..30], &sample_descriptor()), Err(CodecError::MalformedInput));
}

#[test]
fn decode_rejects_truncated_header() {
    let bytes = sample_bytes();
    assert_eq!(decode(&bytes[..15], &sample_descriptor()), Err(CodecError::MalformedInput));
    assert_eq!(decode(&[], &sample_descriptor()), Err(CodecError::MalformedInput));
}

#[test]
fn decode_accepts_exactly_header_and_records() {
    let mut bytes = sample_bytes();
    bytes[20] = 0;
    bytes.truncate(40);
    let mut doc = sample_document();
    doc.records[0][1] = text("");
    assert_eq!(decode(&bytes, &sample_descriptor()), Ok(doc));
}

#[test]
fn decode_rejects_pointer_past_the_end() {
    let mut bytes = sample_bytes();
    bytes[20] = 28; // 20 + 28 = 48 = length of the buffer
    assert_eq!(decode(&bytes, &sample_descriptor()), Err(CodecError::OutOfBounds));
    bytes[20] = 27; // the last byte, a NUL: the empty string
    let mut doc = sample_document();
    doc.records[0][1] = text("");
    assert_eq!(decode(&bytes, &sample_descriptor()), Ok(doc));
}

#[test]
fn decode_rejects_string_without_terminator() {
    let mut bytes = sample_bytes();
    for b in bytes[42..48].iter_mut() {
        *b = 0x7a;
    }
    assert_eq!(decode(&bytes, &sample_descriptor()), Err(CodecError::OutOfBounds));
}

#[test]
fn decode_follows_negative_pointer() {
    // the pointer of record 1 (at 32) leads back to the bytes "\x07\0" of record 0 at 16
    let mut bytes = sample_bytes();
    let back: i64 = -16;
    bytes[32..40].copy_from_slice(&back.to_le_bytes());
    let mut doc = sample_document();
    doc.records[1][1] = Value::Bytes(vec![7]);
    assert_eq!(decode(&bytes, &sample_descriptor()), Ok(doc));
    // one that leads in front of the buffer
    let far: i64 = -33;
    bytes[32..40].copy_from_slice(&far.to_le_bytes());
    assert_eq!(decode(&bytes, &sample_descriptor()), Err(CodecError::OutOfBounds));
}

#[test]
fn zero_entries_give_the_header_alone() {
    let d = sized_descriptor();
    // size 0x10 big-endian, version 1001, count 0, unk0 5, entries at 8
    let bytes: Vec<u8> = vec![
        0, 0, 0, 0x10, 0xE9, 0x03, 0, 0, 0, 0, 5, 0, 8, 0, 0, 0, 0, 0, 0, 0,
    ];
    let doc = decode(&bytes, &d).unwrap();
    assert_eq!(doc.records, Vec::<Vec<Value>>::new());
    assert_eq!(
        doc.header,
        vec![Value::Int(0x10), Value::Int(1001), Value::Int(0), Value::Int(5), Value::Int(8)]
    );
    assert_eq!(encode(&d, &doc), Ok(bytes));
}

#[test]
fn size_field_is_recomputed_from_what_the_header_holds() {
    let d = sized_descriptor();
    let doc = Document {
        header: vec![Value::Int(999), Value::Int(0), Value::Int(77), Value::Int(0), Value::Int(0)],
        records: vec![],
    };
    let bytes = encode(&d, &doc).unwrap();
    assert_eq!(bytes.len(), 20);
    assert_eq!(&bytes[0..4], &[0, 0, 0, 16]);
    assert_eq!(&bytes[4..8], &[0xE9, 0x03, 0, 0]);
    assert_eq!(&bytes[8..10], &[0, 0]);
    assert_eq!(&bytes[12..20], &[8, 0, 0, 0, 0, 0, 0, 0]);
}

#[test]
fn zero_pointer_is_the_empty_string_and_stays_zero() {
    let d = sized_descriptor();
    let bytes: Vec<u8> = vec![
        0, 0, 0, 0x20, 0xE9, 0x03, 0, 0, 1, 0, 0, 0, 8, 0, 0, 0, 0, 0, 0, 0, // header
        0, 0, 0, 0, 0, 0, 0, 0, // pointer 0
        0, 0, 0, 0, // index
        0x34, 0x12, 0, 0, // flags and padding
    ];
    let doc = decode(&bytes, &d).unwrap();
    assert_eq!(doc.records, vec![vec![text(""), Value::Int(0), Value::Int(0x1234)]]);
    let again = encode(&d, &doc).unwrap();
    assert_eq!(again.len(), bytes.len());
    assert_eq!(again, bytes);
}

#[test]
fn equal_strings_get_entries_of_their_own() {
    let d = sample_descriptor();
    let doc = Document {
        header: vec![Value::Int(0), Value::Int(0), Value::Int(0)],
        records: vec![vec![Value::Int(1), text("same")], vec![Value::Int(2), text("same")]],
    };
    let bytes = encode(&d, &doc).unwrap();
    // pool at 40: two entries of 8 bytes
    assert_eq!(bytes.len(), 56);
    assert_eq!(&bytes[40..48], b"same\0\0\0\0");
    assert_eq!(&bytes[48..56], b"same\0\0\0\0");
    assert_eq!(&bytes[20..28], &[20, 0, 0, 0, 0, 0, 0, 0]);
    assert_eq!(&bytes[32..40], &[16, 0, 0, 0, 0, 0, 0, 0]);
    let back = decode(&bytes, &d).unwrap();
    assert_eq!(back.records, doc.records);
}

#[test]
fn index_and_count_are_recomputed() {
    let d = sized_descriptor();
    let doc = Document {
        header: vec![Value::Int(0), Value::Int(0), Value::Int(40), Value::Int(3), Value::Int(0)],
        records: vec![
            vec![text(""), Value::Int(9), Value::Int(1)],
            vec![text(""), Value::Int(9), Value::Int(2)],
            vec![text("x"), Value::Int(9), Value::Int(3)],
        ],
    };
    let bytes = encode(&d, &doc).unwrap();
    assert_eq!(&bytes[8..10], &[3, 0]);
    assert_eq!(&bytes[10..12], &[3, 0]);
    let back = decode(&bytes, &d).unwrap();
    assert_eq!(back.header[2], Value::Int(3));
    assert_eq!(back.records[0][1], Value::Int(0));
    assert_eq!(back.records[1][1], Value::Int(1));
    assert_eq!(back.records[2][1], Value::Int(2));
    assert_eq!(back.records[2][0], text("x"));
    // total: 20 + 3 * 16 + 8 = 76, so the size field holds 72
    assert_eq!(bytes.len(), 76);
    assert_eq!(&bytes[0..4], &[0, 0, 0, 72]);
    // writing what was read gives the same bytes
    assert_eq!(encode(&d, &back), Ok(bytes));
}

#[test]
fn strings_are_padded_to_multiples_of_eight() {
    let d = sample_descriptor();
    for (len, entry) in [(1usize, 8usize), (6, 8), (7, 8), (8, 16), (15, 16), (16, 24)] {
        let s: Vec<u8> = vec![0x41; len];
        let doc = Document {
            header: vec![Value::Int(0), Value::Int(0), Value::Int(0)],
            records: vec![vec![Value::Int(1), Value::Bytes(s.clone())]],
        };
        let bytes = encode(&d, &doc).unwrap();
        assert_eq!(bytes.len(), 28 + entry);
        assert_eq!(&bytes[28..28 + len], &s[..]);
        assert!(bytes[28 + len..].iter().all(|b| *b == 0));
        assert_eq!(decode(&bytes, &d).unwrap().records, doc.records);
    }
}

#[test]
fn encode_rejects_document_of_another_shape() {
    let d = sample_descriptor();
    let mut doc = sample_document();
    doc.records[0].pop();
    assert_eq!(encode(&d, &doc), Err(CodecError::TextParseError));
    let mut doc = sample_document();
    doc.records[0][0] = Value::Int(0x1_0000_0000);
    assert_eq!(encode(&d, &doc), Err(CodecError::TextParseError));
    let mut doc = sample_document();
    doc.records[0][0] = text("7");
    assert_eq!(encode(&d, &doc), Err(CodecError::TextParseError));
    let mut doc = sample_document();
    doc.records[0][1] = Value::Bytes(vec![0x61, 0, 0x62]);
    assert_eq!(encode(&d, &doc), Err(CodecError::TextParseError));
    let mut doc = sample_document();
    doc.header.push(Value::Int(0));
    assert_eq!(encode(&d, &doc), Err(CodecError::TextParseError));
}

#[test]
fn encode_rejects_more_records_than_the_count_can_say() {
    let d = sized_descriptor();
    let record = vec![text(""), Value::Int(0), Value::Int(0)];
    let mut doc = Document {
        header: vec![Value::Int(0), Value::Int(0), Value::Int(0), Value::Int(0), Value::Int(0)],
        records: vec![record; 0xFFFF],
    };
    assert!(encode(&d, &doc).is_ok());
    doc.records.push(vec![text(""), Value::Int(0), Value::Int(0)]);
    assert_eq!(encode(&d, &doc), Err(CodecError::TextParseError));
}

#[test]
fn four_byte_pointers() {
    let d = FormatDescriptor {
        header: vec![field("entry_count", FieldKind::Count16)],
        record: vec![field("a", FieldKind::Pointer32), field("b", FieldKind::Pointer32)],
    };
    let doc = Document {
        header: vec![Value::Int(0)],
        records: vec![vec![text("hello"), text("worldwide")]],
    };
    let bytes = encode(&d, &doc).unwrap();
    // header 2, record 8, pool at 10: "hello" at 10, "worldwide" at 18
    let mut expected: Vec<u8> = vec![1, 0, 8, 0, 0, 0, 12, 0, 0, 0];
    expected.extend_from_slice(b"hello\0\0\0");
    expected.extend_from_slice(b"worldwide\0\0\0\0\0\0\0");
    assert_eq!(bytes, expected);
    assert_eq!(decode(&bytes, &d).unwrap().records, doc.records);
}

#[test]
fn text_slots_are_filled_with_nul_and_trimmed() {
    let d = FormatDescriptor {
        header: vec![field("entry_count", FieldKind::Count32)],
        record: vec![field("code", FieldKind::Text(8)), padded("n", FieldKind::I16, 2, 0)],
    };
    let doc = Document {
        header: vec![Value::Int(0)],
        records: vec![vec![text("1nrt"), Value::Int(0xFFFE)], vec![text("12345678"), Value::Int(1)]],
    };
    let bytes = encode(&d, &doc).unwrap();
    let mut expected: Vec<u8> = vec![2, 0, 0, 0];
    expected.extend_from_slice(b"1nrt\0\0\0\0");
    expected.extend_from_slice(&[0, 0, 0xFE, 0xFF]);
    expected.extend_from_slice(b"12345678");
    expected.extend_from_slice(&[0, 0, 1, 0]);
    assert_eq!(bytes, expected);
    assert_eq!(decode(&bytes, &d).unwrap().records, doc.records);
    let long = Document { header: vec![Value::Int(0)], records: vec![vec![text("123456789"), Value::Int(0)]] };
    assert_eq!(encode(&d, &long), Err(CodecError::TextParseError));
    let ends_in_nul = Document {
        header: vec![Value::Int(0)],
        records: vec![vec![Value::Bytes(vec![0x31, 0]), Value::Int(0)]],
    };
    assert_eq!(encode(&d, &ends_in_nul), Err(CodecError::TextParseError));
}

#[test]
fn count_from_the_length_where_the_header_has_none() {
    let d = FormatDescriptor {
        header: vec![field("size", FieldKind::Size)],
        record: vec![field("a", FieldKind::U16), field("raw", FieldKind::Bytes(3))],
    };
    let bytes: Vec<u8> = vec![0, 0, 0, 10, 1, 0, 9, 8, 7, 2, 0, 6, 5, 4];
    let doc = decode(&bytes, &d).unwrap();
    assert_eq!(
        doc.records,
        vec![
            vec![Value::Int(1), Value::Bytes(vec![9, 8, 7])],
            vec![Value::Int(2), Value::Bytes(vec![6, 5, 4])],
        ]
    );
    assert_eq!(encode(&d, &doc), Ok(bytes.clone()));
    // a record that is cut off is not counted
    let doc = decode(&bytes[..13], &d).unwrap();
    assert_eq!(doc.records.len(), 1);
}

#[test]
fn document_fits_its_descriptor_or_not() {
    let d = sample_descriptor();
    assert!(sample_document().fits(&d));
    let mut doc = sample_document();
    doc.header[1] = text("");
    assert!(!doc.fits(&d));
}
