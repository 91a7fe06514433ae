use nuccbin::codec::{decode, encode};
use nuccbin::document::{Document, Value};
use nuccbin::error::CodecError;
use nuccbin::hex::{from_hex, to_hex};
use nuccbin::layout::{field, FieldKind, FormatDescriptor};
use nuccbin::text::{from_text, to_text, TextDocument, TextValue};

fn every_kind() -> FormatDescriptor {
    FormatDescriptor {
        header: vec![
            field("size", FieldKind::Size),
            field("version", FieldKind::Constant32(1000)),
            field("entry_count", FieldKind::Count16),
            field("unk0", FieldKind::U16),
            field("entry_ptr", FieldKind::Constant64(8)),
        ],
        record: vec![
            field("a", FieldKind::U8),
            field("b", FieldKind::U16),
            field("c", FieldKind::I16),
            field("d", FieldKind::U32),
            field("e", FieldKind::I32),
            field("f", FieldKind::U64),
            field("g", FieldKind::F32),
            field("h", FieldKind::Bytes(2)),
            field("i", FieldKind::Text(4)),
            field("j", FieldKind::Pointer32),
            field("k", FieldKind::Pointer64),
            field("index", FieldKind::Index),
        ],
    }
}

fn document() -> Document {
    Document {
        header: vec![Value::Int(1), Value::Int(2), Value::Int(3), Value::Int(4), Value::Int(5)],
        records: vec![vec![
            Value::Int(0xFF),
            Value::Int(0x8000),
            Value::Int(0x8000),
            Value::Int(0xFFFF_FFFF),
            Value::Int(0xFFFF_FFFF),
            Value::Int(u64::MAX),
            Value::Int(0x3F80_0000),
            Value::Bytes(vec![0x0A, 0xF5]),
            Value::Bytes(b"ab".to_vec()),
            Value::Bytes(b"p32".to_vec()),
            Value::Bytes(Vec::new()),
            Value::Int(17),
        ]],
    }
}

fn shown() -> TextDocument {
    TextDocument {
        header: vec![
            TextValue::Hidden,
            TextValue::Hidden,
            TextValue::Unsigned(3),
            TextValue::Unsigned(4),
            TextValue::Hidden,
        ],
        entries: vec![vec![
            TextValue::Unsigned(0xFF),
            TextValue::Unsigned(0x8000),
            TextValue::Signed(-0x8000),
            TextValue::Unsigned(0xFFFF_FFFF),
            TextValue::Signed(-1),
            TextValue::Unsigned(u64::MAX),
            TextValue::Float(0x3F80_0000),
            TextValue::Text(b"0af5".to_vec()),
            TextValue::Text(b"ab".to_vec()),
            TextValue::Text(b"p32".to_vec()),
            TextValue::Text(Vec::new()),
            TextValue::Unsigned(17),
        ]],
    }
}

#[test]
fn to_text_shows_each_kind() {
    assert_eq!(to_text(&every_kind(), &document()), Ok(shown()));
}

#[test]
fn from_text_reads_each_kind() {
    let mut doc = document();
    doc.header = vec![Value::Int(0), Value::Int(0), Value::Int(3), Value::Int(4), Value::Int(0)];
    assert_eq!(from_text(&every_kind(), &shown()), Ok(doc));
}

#[test]
fn text_and_document_are_written_alike() {
    let d = every_kind();
    let doc = document();
    let via_text = from_text(&d, &to_text(&d, &doc).unwrap()).unwrap();
    let bytes = encode(&d, &doc).unwrap();
    assert_eq!(encode(&d, &via_text), Ok(bytes.clone()));
    // and what is read back from the bytes shows the same text, but for the number of
    // records and the index, which are what was written
    let back = decode(&bytes, &d).unwrap();
    let mut expected = shown();
    expected.header[2] = TextValue::Unsigned(1);
    expected.entries[0][11] = TextValue::Unsigned(0);
    assert_eq!(to_text(&d, &back), Ok(expected));
}

#[test]
fn to_text_rejects_document_of_another_shape() {
    let mut doc = document();
    doc.records[0][0] = Value::Int(0x100);
    assert_eq!(to_text(&every_kind(), &doc), Err(CodecError::TextParseError));
}

#[test]
fn from_text_rejects_what_a_field_cannot_take() {
    let d = every_kind();
    let reject = |at: usize, item: TextValue| {
        let mut t = shown();
        t.entries[0][at] = item;
        assert_eq!(from_text(&d, &t), Err(CodecError::TextParseError));
    };
    let accept = |at: usize, item: TextValue| {
        let mut t = shown();
        t.entries[0][at] = item;
        assert!(from_text(&d, &t).is_ok());
    };
    reject(0, TextValue::Unsigned(0x100));
    reject(0, TextValue::Signed(1));
    reject(1, TextValue::Unsigned(0x1_0000));
    reject(2, TextValue::Signed(0x8000));
    reject(2, TextValue::Signed(-0x8001));
    accept(2, TextValue::Signed(0x7FFF));
    reject(2, TextValue::Unsigned(1));
    reject(3, TextValue::Unsigned(0x1_0000_0000));
    reject(4, TextValue::Signed(0x8000_0000));
    reject(4, TextValue::Signed(-0x8000_0001));
    accept(4, TextValue::Signed(-0x8000_0000));
    reject(5, TextValue::Float(0));
    reject(6, TextValue::Unsigned(0));
    reject(7, TextValue::Text(b"0af".to_vec()));
    reject(7, TextValue::Text(b"0af5aa".to_vec()));
    reject(7, TextValue::Text(b"0ag5".to_vec()));
    accept(7, TextValue::Text(b"0AF5".to_vec()));
    reject(8, TextValue::Text(b"abcde".to_vec()));
    reject(8, TextValue::Text(vec![0x61, 0]));
    accept(8, TextValue::Text(vec![0x61, 0, 0x62]));
    reject(9, TextValue::Text(vec![0x61, 0, 0x62]));
    reject(10, TextValue::Hidden);
    reject(11, TextValue::Hidden);
    let mut t = shown();
    t.header[0] = TextValue::Unsigned(0);
    assert_eq!(from_text(&d, &t), Err(CodecError::TextParseError));
    // the number of records must be there, whatever it says
    let mut t = shown();
    t.header[2] = TextValue::Hidden;
    assert_eq!(from_text(&d, &t), Err(CodecError::TextParseError));
    let mut t = shown();
    t.header[2] = TextValue::Signed(1);
    assert_eq!(from_text(&d, &t), Err(CodecError::TextParseError));
    let mut t = shown();
    t.header[2] = TextValue::Unsigned(0x1_0000);
    assert!(from_text(&d, &t).is_ok());
    let mut t = shown();
    t.entries[0].push(TextValue::Hidden);
    assert_eq!(from_text(&d, &t), Err(CodecError::TextParseError));
    let mut t = shown();
    t.header.pop();
    assert_eq!(from_text(&d, &t), Err(CodecError::TextParseError));
}

#[test]
fn signed_numbers_are_their_bit_patterns() {
    let d = every_kind();
    let mut t = shown();
    t.entries[0][2] = TextValue::Signed(-2);
    t.entries[0][4] = TextValue::Signed(-0x8000_0000);
    let doc = from_text(&d, &t).unwrap();
    assert_eq!(doc.records[0][2], Value::Int(0xFFFE));
    assert_eq!(doc.records[0][4], Value::Int(0x8000_0000));
    assert_eq!(to_text(&d, &doc), Ok(t));
}

#[test]
fn hexadecimal_digits() {
    assert_eq!(to_hex(&[0x00, 0x9A, 0xFF, 0x10]), b"009aff10".to_vec());
    assert_eq!(to_hex(&[]), Vec::<u8>::new());
    assert_eq!(from_hex(b"009aff10"), Some(vec![0x00, 0x9A, 0xFF, 0x10]));
    assert_eq!(from_hex(b"009AFf10"), Some(vec![0x00, 0x9A, 0xFF, 0x10]));
    assert_eq!(from_hex(b""), Some(vec![]));
    assert_eq!(from_hex(b"0"), None);
    assert_eq!(from_hex(b"0g"), None);
    assert_eq!(from_hex(b"/0"), None);
    assert_eq!(from_hex(b":0"), None);
    assert_eq!(from_hex(b"@0"), None);
    assert_eq!(from_hex(b"G0"), None);
    assert_eq!(from_hex(b"`0"), None);
    for b in 0..=255u8 {
        assert_eq!(from_hex(&to_hex(&[b])), Some(vec![b]));
    }
}

#[test]
fn the_number_of_records_is_shown_and_written_anew() {
    let d = every_kind();
    let mut doc = document();
    doc.records.push(doc.records[0].clone());
    doc.records.push(doc.records[0].clone());
    let bytes = encode(&d, &doc).unwrap();
    let read = decode(&bytes, &d).unwrap();
    let text = to_text(&d, &read).unwrap();
    assert_eq!(text.header[2], TextValue::Unsigned(3));
    assert_eq!(text.entries.len(), 3);
    // an entry is taken out, the number is left as it was
    let mut edited = text.clone();
    edited.entries.pop();
    let written = encode(&d, &from_text(&d, &edited).unwrap()).unwrap();
    assert_eq!(&written[8..10], &[2, 0]);
    let again = to_text(&d, &decode(&written, &d).unwrap()).unwrap();
    assert_eq!(again.header[2], TextValue::Unsigned(2));
    assert_eq!(again.entries.len(), 2);
}

#[test]
fn what_a_header_number_reads_as_when_it_is_not_named() {
    assert_eq!(FieldKind::U16.unnamed_item(), Some(TextValue::Unsigned(0)));
    assert_eq!(FieldKind::Count32.unnamed_item(), Some(TextValue::Unsigned(0)));
    assert_eq!(FieldKind::Index.unnamed_item(), Some(TextValue::Unsigned(0)));
    assert_eq!(FieldKind::I32.unnamed_item(), Some(TextValue::Signed(0)));
    assert_eq!(FieldKind::F32.unnamed_item(), Some(TextValue::Float(0)));
    assert_eq!(FieldKind::Size.unnamed_item(), Some(TextValue::Hidden));
    assert_eq!(FieldKind::Constant32(7).unnamed_item(), Some(TextValue::Hidden));
    assert_eq!(FieldKind::Text(8).unnamed_item(), None);
    assert_eq!(FieldKind::Bytes(4).unnamed_item(), None);
    assert_eq!(FieldKind::Pointer64.unnamed_item(), None);
    // a header made of such items is one that the layout can take
    let d = every_kind();
    let header: Vec<TextValue> = d.header.iter().map(|f| f.kind.unnamed_item().unwrap()).collect();
    let text = TextDocument { header, entries: vec![] };
    assert!(from_text(&d, &text).is_ok());
}
