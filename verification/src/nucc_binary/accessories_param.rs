//! Accessories: what each is called, where it is worn and what it costs.

use crate::binary_type::NuccBinaryType;
use crate::codec::{
    decode, decode_spec, encode, encode_spec, first_count, header_size, representable,
    stride, tells_count,
};
use crate::document::{document_fits, Document};
use crate::error::CodecError;
use crate::layout::{field, padded, size_upto, DescriptorView, FieldKind, FormatDescriptor};
use crate::text::{
    from_text, from_text_spec, text_fits, to_text, to_text_spec, TextDocument,
};
use vstd::prelude::*;

verus! {

/// The accessories table, decoded.
#[derive(Debug, Clone, PartialEq, Eq)]
pub struct AccessoriesParam {
    pub document: Document,
}

/// The layout of the table: its header, and its records with 4 pooled strings.
#[verifier::opaque]
pub open spec fn layout() -> DescriptorView {
    DescriptorView {
        header: seq![
            field("version", FieldKind::Constant32(1000)),
            field("entry_count", FieldKind::Count32),
            field("entry_ptr", FieldKind::Constant64(8)),
        ],
        record: seq![
            field("accessory_name_id", FieldKind::Pointer64),
            field("accessory_link", FieldKind::Pointer64),
            field("index", FieldKind::Index),
            field("price", FieldKind::U32),
            field("icon", FieldKind::Pointer64),
            field("accessory", FieldKind::Pointer64),
            field("ofsX", FieldKind::I32),
            field("ofsZ", FieldKind::I32),
            field("ofsY", FieldKind::I32),
            field("rotY", FieldKind::I32),
            field("rotZ", FieldKind::I32),
            field("rotX", FieldKind::I32),
            padded("unlock_condition", FieldKind::U32, 0, 4),
        ],
    }
}

/// The layout as a value.
pub fn descriptor() -> (d: FormatDescriptor)
    ensures
        d@ == layout(),
{
    let d = FormatDescriptor {
        header: vec![
            field("version", FieldKind::Constant32(1000)),
            field("entry_count", FieldKind::Count32),
            field("entry_ptr", FieldKind::Constant64(8)),
        ],
        record: vec![
            field("accessory_name_id", FieldKind::Pointer64),
            field("accessory_link", FieldKind::Pointer64),
            field("index", FieldKind::Index),
            field("price", FieldKind::U32),
            field("icon", FieldKind::Pointer64),
            field("accessory", FieldKind::Pointer64),
            field("ofsX", FieldKind::I32),
            field("ofsZ", FieldKind::I32),
            field("ofsY", FieldKind::I32),
            field("rotY", FieldKind::I32),
            field("rotZ", FieldKind::I32),
            field("rotX", FieldKind::I32),
            padded("unlock_condition", FieldKind::U32, 0, 4),
        ],
    };
    proof {
        reveal(layout);
        assert(d@.header =~= layout().header);
        assert(d@.record =~= layout().record);
    }
    d
}

/// The header takes 16 bytes and each record 72.
pub proof fn lemma_sizes()
    ensures
        header_size(layout()) == 0x10,
        stride(layout()) == 0x48,
{
    reveal(layout);
    reveal_with_fuel(size_upto, 11);
    let record = layout().record;
    assert(size_upto(record, 10) == 56);
}

/// A table of this layout tells how many records it has.
pub proof fn lemma_tells_count()
    ensures
        tells_count(layout()),
{
    reveal(layout);
    reveal_with_fuel(first_count, 4);
}

impl AccessoriesParam {
    pub fn binary_type(&self) -> (tag: NuccBinaryType)
        ensures
            tag == NuccBinaryType::AccessoriesParam,
    {
        NuccBinaryType::AccessoriesParam
    }

    /// The extension of the file that the chunk is unpacked to.
    pub fn extension(&self) -> (ext: String)
        ensures
            ext@ == ".json"@,
    {
        ".json".to_owned()
    }

    /// Decodes the chunk's bytes.
    pub fn from(data: &[u8]) -> (r: Result<AccessoriesParam, CodecError>)
        ensures
            match decode_spec(layout(), data@) {
                Ok(v) => r is Ok && r.unwrap().document@ == v,
                Err(e) => r == Err::<AccessoriesParam, CodecError>(e),
            },
            r is Ok ==> document_fits(layout(), r.unwrap().document@),
    {
        match decode(data, &descriptor()) {
            Ok(document) => Ok(AccessoriesParam { document }),
            Err(e) => Err(e),
        }
    }

    /// Encodes the chunk's bytes. Fails when the document does not have the layout's
    /// shape, or holds more than its fields can express.
    pub fn to_bytes(&self) -> (r: Result<Vec<u8>, CodecError>)
        ensures
            match r {
                Ok(bytes) => {
                    &&& document_fits(layout(), self.document@)
                    &&& representable(layout(), self.document@)
                    &&& bytes@ == encode_spec(layout(), self.document@)
                },
                Err(e) => {
                    &&& e == CodecError::TextParseError
                    &&& !(document_fits(layout(), self.document@) && representable(
                        layout(),
                        self.document@,
                    ))
                },
            },
    {
        encode(&descriptor(), &self.document)
    }

    /// The editable form. Fails when the document does not have the layout's shape.
    pub fn serialize(&self) -> (r: Result<TextDocument, CodecError>)
        ensures
            match r {
                Ok(text) => document_fits(layout(), self.document@) && text@ == to_text_spec(
                    layout(),
                    self.document@,
                ),
                Err(e) => e == CodecError::TextParseError && !document_fits(
                    layout(),
                    self.document@,
                ),
            },
    {
        to_text(&descriptor(), &self.document)
    }

    /// From the editable form. Fails when it does not have the layout's shape.
    pub fn deserialize(text: &TextDocument) -> (r: Result<AccessoriesParam, CodecError>)
        ensures
            match r {
                Ok(parsed) => text_fits(layout(), text@) && parsed.document@ == from_text_spec(
                    layout(),
                    text@,
                ),
                Err(e) => e == CodecError::TextParseError && !text_fits(layout(), text@),
            },
    {
        match from_text(&descriptor(), text) {
            Ok(document) => Ok(AccessoriesParam { document }),
            Err(e) => Err(e),
        }
    }
}

} // verus!
