use nuccbin::chunk::{repack_chunk, unpack_chunk, unpacked_file_name};
use nuccbin::document::{Document, Value};
use nuccbin::error::CodecError;
use nuccbin::nucc_binary::{
    BodAcc, Characode, Content, Dds, EvSpl, Lua, MessageInfo, NuccBinaryParsed,
    NuccBinaryParsedDeserializer, NuccBinaryParsedReader, NuccBinaryParsedSerializer,
    NuccBinaryParsedWriter, Png, Serialized, Xml,
};
use nuccbin::text::{TextDocument, TextValue};
use nuccbin::NuccBinaryType;

fn text(s: &str) -> Value {
    Value::Bytes(s.as_bytes().to_vec())
}

fn text_value(s: &str) -> Value {
    text(s)
}

/// A message table with one entry: two captions, the third absent.
fn message_info_bytes() -> Vec<u8> {
    let mut b: Vec<u8> = Vec::new();
    b.extend_from_slice(&1001u32.to_le_bytes());
    b.extend_from_slice(&1u32.to_le_bytes());
    b.extend_from_slice(&8u64.to_le_bytes());
    // the record, at 0x10
    b.extend_from_slice(&[0xDE, 0xAD, 0xBE, 0xEF]); // crc32
    b.extend_from_slice(&0u32.to_le_bytes()); // disable
    b.extend_from_slice(&(0x40u64 - 0x18).to_le_bytes()); // text1, field at 0x18
    b.extend_from_slice(&(0x48u64 - 0x20).to_le_bytes()); // text2, field at 0x20
    b.extend_from_slice(&0u64.to_le_bytes()); // text3
    b.extend_from_slice(&7u32.to_le_bytes()); // unk2
    b.extend_from_slice(&(-1i16).to_le_bytes()); // unk3
    b.extend_from_slice(&3i16.to_le_bytes()); // acb_file_id
    b.extend_from_slice(&(-2i16).to_le_bytes()); // acb_cue_id
    b.extend_from_slice(&0i16.to_le_bytes()); // unk4
    b.extend_from_slice(&9u32.to_le_bytes()); // unk5
    assert_eq!(b.len(), 0x40);
    b.extend_from_slice(b"Hello\0\0\0");
    b.extend_from_slice(b"12345678\0\0\0\0\0\0\0\0");
    b
}

fn message_info_document() -> Document {
    Document {
        header: vec![Value::Int(1001), Value::Int(1), Value::Int(8)],
        records: vec![vec![
            Value::Bytes(vec![0xDE, 0xAD, 0xBE, 0xEF]),
            Value::Int(0),
            text("Hello"),
            text("12345678"),
            text(""),
            Value::Int(7),
            Value::Int(0xFFFF),
            Value::Int(3),
            Value::Int(0xFFFE),
            Value::Int(0),
            Value::Int(9),
        ]],
    }
}

fn message_info_text() -> TextDocument {
    TextDocument {
        header: vec![TextValue::Hidden, TextValue::Unsigned(1), TextValue::Hidden],
        entries: vec![vec![
            TextValue::Text(b"deadbeef".to_vec()),
            TextValue::Unsigned(0),
            TextValue::Text(b"Hello".to_vec()),
            TextValue::Text(b"12345678".to_vec()),
            TextValue::Text(Vec::new()),
            TextValue::Unsigned(7),
            TextValue::Signed(-1),
            TextValue::Signed(3),
            TextValue::Signed(-2),
            TextValue::Signed(0),
            TextValue::Unsigned(9),
        ]],
    }
}

#[test]
fn reader_decodes_a_table() {
    let bytes = message_info_bytes();
    let parsed = NuccBinaryParsedReader(NuccBinaryType::MessageInfo, &bytes).parse();
    assert_eq!(
        parsed,
        Ok(NuccBinaryParsed::MessageInfo(MessageInfo { document: message_info_document() }))
    );
}

#[test]
fn writer_encodes_a_table() {
    let parsed = NuccBinaryParsed::MessageInfo(MessageInfo { document: message_info_document() });
    assert_eq!(NuccBinaryParsedWriter(parsed).write(), Ok(message_info_bytes()));
}

#[test]
fn reader_reports_errors_of_the_chunk() {
    let bytes = message_info_bytes();
    assert_eq!(
        NuccBinaryParsedReader(NuccBinaryType::MessageInfo, &bytes[..0x30]).parse(),
        Err(CodecError::MalformedInput)
    );
    let mut bad = bytes.clone();
    bad[0x18] = 0xFF;
    assert_eq!(
        NuccBinaryParsedReader(NuccBinaryType::MessageInfo, &bad).parse(),
        Err(CodecError::OutOfBounds)
    );
}

#[test]
fn reader_keeps_bytes_of_other_chunks() {
    let data = vec![1u8, 2, 3];
    assert_eq!(
        NuccBinaryParsedReader(NuccBinaryType::Dds, &data).parse(),
        Ok(NuccBinaryParsed::Dds(Dds { file: data.clone() }))
    );
    assert_eq!(
        NuccBinaryParsedReader(NuccBinaryType::Lua, &data).parse(),
        Ok(NuccBinaryParsed::Lua(Lua { file: data.clone() }))
    );
    assert_eq!(
        NuccBinaryParsedReader(NuccBinaryType::Png, &data).parse(),
        Ok(NuccBinaryParsed::Png(Png { file: data.clone() }))
    );
    assert_eq!(
        NuccBinaryParsedReader(NuccBinaryType::Xml, &data).parse(),
        Ok(NuccBinaryParsed::Xml(Xml { file: data.clone() }))
    );
    assert_eq!(
        NuccBinaryParsedReader(NuccBinaryType::BodAcc, &data).parse(),
        Ok(NuccBinaryParsed::BodAcc(BodAcc { file: data.clone() }))
    );
    assert_eq!(
        NuccBinaryParsedReader(NuccBinaryType::EvSpl, &data).parse(),
        Ok(NuccBinaryParsed::EvSpl(EvSpl { file: data.clone() }))
    );
}

#[test]
fn writer_gives_bytes_back() {
    let data = vec![9u8, 8, 7];
    assert_eq!(NuccBinaryParsedWriter(NuccBinaryParsed::Png(Png { file: data.clone() })).write(), Ok(data.clone()));
    assert_eq!(
        NuccBinaryParsedWriter(NuccBinaryParsed::EvSpl(EvSpl { file: data.clone() })).write(),
        Ok(data.clone())
    );
    // a table that has the shape of another format cannot be written
    let odd = NuccBinaryParsed::Characode(Characode { document: message_info_document() });
    assert_eq!(NuccBinaryParsedWriter(odd).write(), Err(CodecError::TextParseError));
}

#[test]
fn content_with_and_without_the_type_of_its_format() {
    let doc = message_info_document();
    let parsed = NuccBinaryParsed::MessageInfo(MessageInfo { document: doc.clone() });
    let content = parsed.clone().into_content();
    assert_eq!(content, Content::Table(NuccBinaryType::MessageInfo, doc.clone()));
    assert_eq!(NuccBinaryParsed::from_content(content), Some(parsed));
    let png = NuccBinaryParsed::Png(Png { file: vec![1] });
    assert_eq!(png.clone().into_content(), Content::Blob(NuccBinaryType::Png, vec![1]));
    assert_eq!(NuccBinaryParsed::from_content(Content::Blob(NuccBinaryType::Png, vec![1])), Some(png));
    // a table under a format without a layout, bytes under one with a layout
    assert_eq!(NuccBinaryParsed::from_content(Content::Table(NuccBinaryType::Png, doc)), None);
    assert_eq!(NuccBinaryParsed::from_content(Content::Blob(NuccBinaryType::Snd, vec![])), None);
    // every format has its variant
    for tag in NuccBinaryType::iter() {
        let data: Vec<u8> = Vec::new();
        match NuccBinaryParsedReader(tag, &data).parse() {
            Ok(parsed) => assert_eq!(parsed.binary_type(), tag),
            Err(e) => assert_eq!(e, CodecError::MalformedInput),
        }
    }
}

#[test]
fn a_format_reads_and_writes_its_own_tables() {
    let table = MessageInfo::from(&message_info_bytes()).unwrap();
    assert_eq!(table.document, message_info_document());
    assert_eq!(table.binary_type(), NuccBinaryType::MessageInfo);
    assert_eq!(table.extension(), ".json");
    assert_eq!(table.to_bytes(), Ok(message_info_bytes()));
    assert_eq!(table.serialize(), Ok(message_info_text()));
    let edited = MessageInfo::deserialize(&message_info_text()).unwrap();
    assert_eq!(edited.to_bytes(), Ok(message_info_bytes()));
    assert_eq!(MessageInfo::from(&[1, 2, 3]), Err(CodecError::MalformedInput));
    let mut text = message_info_text();
    text.header.pop();
    assert_eq!(MessageInfo::deserialize(&text), Err(CodecError::TextParseError));
    // eight bytes of text for each code
    let codes = Characode::from(&[0, 0, 0, 20, 2, 0, 0, 0, 0x31, 0x6e, 0x72, 0x74, 0, 0, 0, 0, 0x32, 0x73, 0x73, 0x6b, 0x30, 0x31, 0, 0]);
    let codes = codes.unwrap();
    assert_eq!(codes.document.records, vec![vec![text_value("1nrt")], vec![text_value("2ssk01")]]);
    let mut longer = codes.clone();
    longer.document.records.push(vec![text_value("3xyz")]);
    let bytes = longer.to_bytes().unwrap();
    assert_eq!(&bytes[..8], &[0, 0, 0, 28, 3, 0, 0, 0]);
    assert_eq!(&bytes[24..], b"3xyz\0\0\0\0");
}

#[test]
fn types_and_extensions() {
    let table = NuccBinaryParsed::MessageInfo(MessageInfo { document: message_info_document() });
    assert_eq!(table.binary_type(), NuccBinaryType::MessageInfo);
    assert_eq!(table.extension(), ".json");
    let dds = NuccBinaryParsed::Dds(Dds { file: vec![] });
    assert_eq!(dds.binary_type(), NuccBinaryType::Dds);
    assert_eq!(dds.extension(), ".dds");
    assert_eq!(NuccBinaryParsed::Lua(Lua { file: vec![] }).extension(), ".lua");
    assert_eq!(NuccBinaryParsed::Png(Png { file: vec![] }).extension(), ".png");
    assert_eq!(NuccBinaryParsed::Xml(Xml { file: vec![] }).extension(), ".xml");
    let opaque = NuccBinaryParsed::BodAcc(BodAcc { file: vec![] });
    assert_eq!(opaque.binary_type(), NuccBinaryType::BodAcc);
    assert_eq!(opaque.extension(), ".bin");
    assert_eq!(NuccBinaryParsed::EvSpl(EvSpl { file: vec![] }).extension(), ".bin");
}

#[test]
fn passthrough_chunks() {
    let data = vec![0x89u8, 0x50, 0x4E, 0x47];
    let png = Png::from(&data[..]);
    assert_eq!(png.file, data);
    assert_eq!(png.binary_type(), NuccBinaryType::Png);
    assert_eq!(png.extension(), ".png");
    assert_eq!(png.serialize(), data);
    assert_eq!(Png::deserialize(&data), png);
    let bytes: Vec<u8> = png.into();
    assert_eq!(bytes, data);

    let dds = Dds::from(&data[..]);
    assert_eq!(dds.binary_type(), NuccBinaryType::Dds);
    assert_eq!(dds.extension(), ".dds");
    assert_eq!(dds.serialize(), data);
    assert_eq!(Dds::deserialize(&data), dds);
    assert_eq!(Vec::<u8>::from(dds), data);

    let lua = Lua::from(&data[..]);
    assert_eq!(lua.binary_type(), NuccBinaryType::Lua);
    assert_eq!(lua.extension(), ".lua");
    assert_eq!(lua.serialize(), data);
    assert_eq!(Lua::deserialize(&data), lua);
    assert_eq!(Vec::<u8>::from(lua), data);

    let xml = Xml::from(&data[..]);
    assert_eq!(xml.binary_type(), NuccBinaryType::Xml);
    assert_eq!(xml.extension(), ".xml");
    assert_eq!(xml.serialize(), data);
    assert_eq!(Xml::deserialize(&data), xml);
    assert_eq!(Vec::<u8>::from(xml), data);
}

#[test]
fn serializer_shows_what_can_be_edited() {
    let parsed = NuccBinaryParsed::MessageInfo(MessageInfo { document: message_info_document() });
    assert_eq!(
        NuccBinaryParsedSerializer(parsed).serialize(),
        Ok(Serialized::Table(message_info_text()))
    );
    let png = NuccBinaryParsed::Png(Png { file: vec![1, 2] });
    assert_eq!(NuccBinaryParsedSerializer(png).serialize(), Ok(Serialized::Raw(vec![1, 2])));
    let mut doc = message_info_document();
    doc.records[0].pop();
    let broken = NuccBinaryParsed::MessageInfo(MessageInfo { document: doc });
    assert_eq!(NuccBinaryParsedSerializer(broken).serialize(), Err(CodecError::TextParseError));
}

#[test]
fn deserializer_makes_the_chunk_of_its_text() {
    let mut doc = message_info_document();
    // what the codec works out itself is not in the text
    doc.header = vec![Value::Int(0), Value::Int(1), Value::Int(0)];
    let d = NuccBinaryParsedDeserializer(NuccBinaryType::MessageInfo, Serialized::Table(message_info_text()));
    let parsed = d.deserialize().unwrap();
    assert_eq!(parsed, NuccBinaryParsed::MessageInfo(MessageInfo { document: doc }));
    assert_eq!(NuccBinaryParsedWriter(parsed).write(), Ok(message_info_bytes()));
    assert_eq!(
        NuccBinaryParsedDeserializer(NuccBinaryType::Xml, Serialized::Raw(vec![60, 62])).deserialize(),
        Ok(NuccBinaryParsed::Xml(Xml { file: vec![60, 62] }))
    );
    assert_eq!(
        NuccBinaryParsedDeserializer(NuccBinaryType::BodAcc, Serialized::Raw(vec![1])).deserialize(),
        Ok(NuccBinaryParsed::BodAcc(BodAcc { file: vec![1] }))
    );
}

#[test]
fn deserializer_rejects_text_of_another_shape() {
    let mut t = message_info_text();
    t.entries[0][1] = TextValue::Signed(0);
    assert_eq!(
        NuccBinaryParsedDeserializer(NuccBinaryType::MessageInfo, Serialized::Table(t)).deserialize(),
        Err(CodecError::TextParseError)
    );
    assert_eq!(
        NuccBinaryParsedDeserializer(NuccBinaryType::MessageInfo, Serialized::Raw(vec![])).deserialize(),
        Err(CodecError::TextParseError)
    );
    assert_eq!(
        NuccBinaryParsedDeserializer(NuccBinaryType::Png, Serialized::Table(message_info_text())).deserialize(),
        Err(CodecError::TextParseError)
    );
}

#[test]
fn unpack_and_repack_one_chunk() {
    let bytes = message_info_bytes();
    let (ext, edited) = unpack_chunk("data/message/messageInfo.bin", &bytes).unwrap();
    assert_eq!(ext, ".json");
    assert_eq!(edited, Serialized::Table(message_info_text()));
    assert_eq!(repack_chunk("data/message/messageInfo.bin", edited), Ok(bytes));

    let (ext, edited) = unpack_chunk("ui/logo.png", &[1, 2, 3]).unwrap();
    assert_eq!(ext, ".png");
    assert_eq!(edited, Serialized::Raw(vec![1, 2, 3]));
    assert_eq!(repack_chunk("ui/logo.png", edited), Ok(vec![1, 2, 3]));
}

#[test]
fn unpack_and_repack_report_errors() {
    assert_eq!(unpack_chunk("model.nud", &[1, 2, 3]), Err(CodecError::UnrecognizedFormat));
    assert_eq!(repack_chunk("model.nud", Serialized::Raw(vec![])), Err(CodecError::UnrecognizedFormat));
    assert_eq!(unpack_chunk("messageInfo.bin", &[1, 2, 3]), Err(CodecError::MalformedInput));
    let mut bad = message_info_bytes();
    bad[0x20] = 0x80;
    assert_eq!(unpack_chunk("messageInfo.bin", &bad), Err(CodecError::OutOfBounds));
    assert_eq!(repack_chunk("messageInfo.bin", Serialized::Raw(vec![])), Err(CodecError::TextParseError));
    // an edit that puts in more than a 16-bit count can say
    let entry = vec![TextValue::Text(b"x".to_vec())];
    let many = TextDocument {
        header: vec![
            TextValue::Hidden,
            TextValue::Hidden,
            TextValue::Unsigned(0),
            TextValue::Unsigned(0),
            TextValue::Hidden,
        ],
        entries: vec![entry; 0x1_0000],
    };
    assert_eq!(
        repack_chunk("prohibitedSubstringParam.bin", Serialized::Table(many)),
        Err(CodecError::TextParseError)
    );
}

#[test]
fn edited_table_is_written_with_what_was_edited() {
    let mut t = message_info_text();
    t.entries[0][4] = TextValue::Text(b"new".to_vec());
    t.entries.push(t.entries[0].clone());
    let bytes = repack_chunk("messageInfo.bin", Serialized::Table(t.clone())).unwrap();
    // header 0x10, two records of 0x30, six strings of 8, 16, 8, 8, 16 and 8 bytes
    assert_eq!(bytes.len(), 0x10 + 0x60 + 64);
    assert_eq!(&bytes[4..8], &[2, 0, 0, 0]);
    // the text still said one entry; what is written says two
    let (_, again) = unpack_chunk("messageInfo.bin", &bytes).unwrap();
    t.header[1] = TextValue::Unsigned(2);
    assert_eq!(again, Serialized::Table(t));
}

#[test]
fn unpacked_files_are_named_after_their_chunks() {
    assert_eq!(unpacked_file_name("messageInfo", ".json"), "messageInfo.json");
    assert_eq!(unpacked_file_name("logo", ".png"), "logo.png");
    assert_eq!(unpacked_file_name("", ""), "");
}

#[test]
fn error_messages() {
    assert_eq!(CodecError::MalformedInput.message(), "malformed input");
    assert_eq!(CodecError::OutOfBounds.message(), "pointer out of bounds");
    assert_eq!(CodecError::UnrecognizedFormat.message(), "unrecognized format");
    assert_eq!(CodecError::TextParseError.message(), "document does not match its format");
}
