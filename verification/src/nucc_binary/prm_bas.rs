//! Base parameters of one character: its code and its model codes.

use crate::binary_type::NuccBinaryType;
use crate::codec::{
    decode, decode_spec, encode, encode_spec, first_count, header_size, pointer_free, representable,
    stride, tells_count,
};
use crate::document::{document_fits, Document, Value, ValueView};
use crate::error::CodecError;
use crate::layout::{
    field, field_size, padded, size_upto, DescriptorView, FieldKind, FormatDescriptor,
};
use crate::text::{
    from_text, from_text_spec, text_fits, to_text, to_text_spec, TextDocument,
};
use vstd::prelude::*;

verus! {

/// A character's base parameters, decoded.
#[derive(Debug, Clone, PartialEq, Eq)]
pub struct PrmBas {
    pub document: Document,
}

/// The layout of the table: its header, and its records with no pooled strings.
#[verifier::opaque]
pub open spec fn layout() -> DescriptorView {
    DescriptorView {
        header: seq![
            field("size", FieldKind::Size),
        ],
        record: seq![
            field("characode", FieldKind::Text(0x8)),
            field("modelcodes.0.code", FieldKind::Text(0x8)),
            field("modelcodes.1.code", FieldKind::Text(0x8)),
            field("modelcodes.2.code", FieldKind::Text(0x8)),
            field("modelcodes.3.code", FieldKind::Text(0x8)),
            field("modelcodes.4.code", FieldKind::Text(0x8)),
            field("modelcodes.5.code", FieldKind::Text(0x8)),
            field("modelcodes.6.code", FieldKind::Text(0x8)),
            field("modelcodes.7.code", FieldKind::Text(0x8)),
            field("modelcodes.8.code", FieldKind::Text(0x8)),
            field("modelcodes.9.code", FieldKind::Text(0x8)),
            field("modelcodes.10.code", FieldKind::Text(0x8)),
            field("modelcodes.11.code", FieldKind::Text(0x8)),
            field("modelcodes.12.code", FieldKind::Text(0x8)),
            field("modelcodes.13.code", FieldKind::Text(0x8)),
            field("modelcodes.14.code", FieldKind::Text(0x8)),
            field("modelcodes.15.code", FieldKind::Text(0x8)),
            padded("awamodelcodes.0.code", FieldKind::Text(0x8), 0x18, 0x0),
            field("awamodelcodes.1.code", FieldKind::Text(0x8)),
            field("awamodelcodes.2.code", FieldKind::Text(0x8)),
            field("awamodelcodes.3.code", FieldKind::Text(0x8)),
            field("awamodelcodes.4.code", FieldKind::Text(0x8)),
            field("awamodelcodes.5.code", FieldKind::Text(0x8)),
            field("awamodelcodes.6.code", FieldKind::Text(0x8)),
            field("awamodelcodes.7.code", FieldKind::Text(0x8)),
            field("awamodelcodes.8.code", FieldKind::Text(0x8)),
            field("awamodelcodes.9.code", FieldKind::Text(0x8)),
            field("awamodelcodes.10.code", FieldKind::Text(0x8)),
            field("awamodelcodes.11.code", FieldKind::Text(0x8)),
            field("awamodelcodes.12.code", FieldKind::Text(0x8)),
            field("awamodelcodes.13.code", FieldKind::Text(0x8)),
            field("awamodelcodes.14.code", FieldKind::Text(0x8)),
            field("awamodelcodes.15.code", FieldKind::Text(0x8)),
            field("extra", FieldKind::Bytes(0x1c0)),
        ],
    }
}

/// The layout as a value.
pub fn descriptor() -> (d: FormatDescriptor)
    ensures
        d@ == layout(),
{
    let d = FormatDescriptor {
        header: vec![
            field("size", FieldKind::Size),
        ],
        record: vec![
            field("characode", FieldKind::Text(0x8)),
            field("modelcodes.0.code", FieldKind::Text(0x8)),
            field("modelcodes.1.code", FieldKind::Text(0x8)),
            field("modelcodes.2.code", FieldKind::Text(0x8)),
            field("modelcodes.3.code", FieldKind::Text(0x8)),
            field("modelcodes.4.code", FieldKind::Text(0x8)),
            field("modelcodes.5.code", FieldKind::Text(0x8)),
            field("modelcodes.6.code", FieldKind::Text(0x8)),
            field("modelcodes.7.code", FieldKind::Text(0x8)),
            field("modelcodes.8.code", FieldKind::Text(0x8)),
            field("modelcodes.9.code", FieldKind::Text(0x8)),
            field("modelcodes.10.code", FieldKind::Text(0x8)),
            field("modelcodes.11.code", FieldKind::Text(0x8)),
            field("modelcodes.12.code", FieldKind::Text(0x8)),
            field("modelcodes.13.code", FieldKind::Text(0x8)),
            field("modelcodes.14.code", FieldKind::Text(0x8)),
            field("modelcodes.15.code", FieldKind::Text(0x8)),
            padded("awamodelcodes.0.code", FieldKind::Text(0x8), 0x18, 0x0),
            field("awamodelcodes.1.code", FieldKind::Text(0x8)),
            field("awamodelcodes.2.code", FieldKind::Text(0x8)),
            field("awamodelcodes.3.code", FieldKind::Text(0x8)),
            field("awamodelcodes.4.code", FieldKind::Text(0x8)),
            field("awamodelcodes.5.code", FieldKind::Text(0x8)),
            field("awamodelcodes.6.code", FieldKind::Text(0x8)),
            field("awamodelcodes.7.code", FieldKind::Text(0x8)),
            field("awamodelcodes.8.code", FieldKind::Text(0x8)),
            field("awamodelcodes.9.code", FieldKind::Text(0x8)),
            field("awamodelcodes.10.code", FieldKind::Text(0x8)),
            field("awamodelcodes.11.code", FieldKind::Text(0x8)),
            field("awamodelcodes.12.code", FieldKind::Text(0x8)),
            field("awamodelcodes.13.code", FieldKind::Text(0x8)),
            field("awamodelcodes.14.code", FieldKind::Text(0x8)),
            field("awamodelcodes.15.code", FieldKind::Text(0x8)),
            field("extra", FieldKind::Bytes(0x1c0)),
        ],
    };
    proof {
        reveal(layout);
        assert(d@.header =~= layout().header);
        assert(d@.record =~= layout().record);
    }
    d
}

/// The header takes 4 bytes and each record 736.
pub proof fn lemma_sizes()
    ensures
        header_size(layout()) == 0x4,
        stride(layout()) == 0x2e0,
{
    reveal(layout);
    reveal_with_fuel(size_upto, 11);
    let record = layout().record;
    assert(size_upto(record, 10) == 80);
    assert(size_upto(record, 20) == 184);
    assert(size_upto(record, 30) == 264);
}

/// A table of this layout tells how many records it has.
pub proof fn lemma_tells_count()
    ensures
        tells_count(layout()),
{
    reveal(layout);
    reveal_with_fuel(first_count, 2);
    let d = layout();
    assert(field_size(d.record[33]) > 0);
    assert(stride(d) > 0);
    assert(pointer_free(d.header));
    assert(pointer_free(d.record));
}

impl PrmBas {
    pub fn binary_type(&self) -> (tag: NuccBinaryType)
        ensures
            tag == NuccBinaryType::PrmBas,
    {
        NuccBinaryType::PrmBas
    }

    /// The extension of the file that the chunk is unpacked to.
    pub fn extension(&self) -> (ext: String)
        ensures
            ext@ == ".json"@,
    {
        ".json".to_owned()
    }

    /// Decodes the chunk's bytes.
    pub fn from(data: &[u8]) -> (r: Result<PrmBas, CodecError>)
        ensures
            match decode_spec(layout(), data@) {
                Ok(v) => r is Ok && r.unwrap().document@ == v,
                Err(e) => r == Err::<PrmBas, CodecError>(e),
            },
            r is Ok ==> document_fits(layout(), r.unwrap().document@),
    {
        match decode(data, &descriptor()) {
            Ok(document) => Ok(PrmBas { document }),
            Err(e) => Err(e),
        }
    }

    /// Encodes the chunk's bytes. Fails when the document does not have the layout's
    /// shape, or holds more than its fields can express.
    pub fn to_bytes(&self) -> (r: Result<Vec<u8>, CodecError>)
        ensures
            match r {
                Ok(bytes) => {
                    &&& document_fits(layout(), self.document@)
                    &&& representable(layout(), self.document@)
                    &&& bytes@ == encode_spec(layout(), self.document@)
                },
                Err(e) => {
                    &&& e == CodecError::TextParseError
                    &&& !(document_fits(layout(), self.document@) && representable(
                        layout(),
                        self.document@,
                    ))
                },
            },
    {
        encode(&descriptor(), &self.document)
    }

    /// The editable form. Fails when the document does not have the layout's shape.
    pub fn serialize(&self) -> (r: Result<TextDocument, CodecError>)
        ensures
            match r {
                Ok(text) => document_fits(layout(), self.document@) && text@ == to_text_spec(
                    layout(),
                    self.document@,
                ),
                Err(e) => e == CodecError::TextParseError && !document_fits(
                    layout(),
                    self.document@,
                ),
            },
    {
        to_text(&descriptor(), &self.document)
    }

    /// From the editable form. Fails when it does not have the layout's shape.
    pub fn deserialize(text: &TextDocument) -> (r: Result<PrmBas, CodecError>)
        ensures
            match r {
                Ok(parsed) => text_fits(layout(), text@) && parsed.document@ == from_text_spec(
                    layout(),
                    text@,
                ),
                Err(e) => e == CodecError::TextParseError && !text_fits(layout(), text@),
            },
    {
        match from_text(&descriptor(), text) {
            Ok(document) => Ok(PrmBas { document }),
            Err(e) => Err(e),
        }
    }
}

/// How many model codes a character has of each sort.
pub const MODEL_CODES: usize = 16;

/// One model code.
#[derive(Debug, Clone, PartialEq, Eq)]
pub struct VecString {
    pub code: Vec<u8>,
}

/// Where in the record the first model code stands: behind the character code.
pub open spec fn first_model_code() -> int {
    1
}

/// Where in the record the first model code of the awakened character stands: behind
/// the model codes.
pub open spec fn first_awakened_model_code() -> int {
    17
}

/// True when the values from `first` on are `MODEL_CODES` texts.
pub open spec fn holds_codes(record: Seq<ValueView>, first: int) -> bool {
    &&& first + MODEL_CODES <= record.len()
    &&& forall|i: int| 0 <= i < MODEL_CODES ==> (#[trigger] record[first + i]) is Bytes
}

impl PrmBas {
    /// The model codes that stand in entry `entry` from `first` on; `None` when the
    /// table has no such entry, or the entry has not that many texts there.
    fn codes(&self, entry: usize, first: usize) -> (r: Option<Vec<VecString>>)
        requires
            first <= 17,
        ensures
            r is Some <==> entry < self.document@.records.len() && holds_codes(
                self.document@.records[entry as int],
                first as int,
            ),
            r is Some ==> r.unwrap().len() == MODEL_CODES,
            r is Some ==> forall|i: int|
                0 <= i < MODEL_CODES ==> (#[trigger] r.unwrap()@[i]).code@
                    == self.document@.records[entry as int][first + i]->Bytes_0,
    {
        if entry >= self.document.records.len() {
            return None;
        }
        let record = &self.document.records[entry];
        let ghost values = self.document@.records[entry as int];
        proof {
            assert(values == record.deep_view());
        }
        if record.len() < first + MODEL_CODES {
            return None;
        }
        let mut codes: Vec<VecString> = Vec::new();
        let mut i: usize = 0;
        while i < MODEL_CODES
            invariant
                i <= MODEL_CODES,
                first <= 17,
                entry < self.document@.records.len(),
                values == self.document@.records[entry as int],
                values == record.deep_view(),
                first + MODEL_CODES <= record.len(),
                codes.len() == i,
                forall|k: int| 0 <= k < i ==> (#[trigger] values[first + k]) is Bytes,
                forall|k: int|
                    0 <= k < i ==> (#[trigger] codes@[k]).code@ == values[first + k]->Bytes_0,
            decreases MODEL_CODES - i,
        {
            match &record[first + i] {
                Value::Bytes(code) => {
                    codes.push(VecString { code: vstd::slice::slice_to_vec(code.as_slice()) });
                },
                Value::Int(_) => {
                    proof {
                        assert(!(values[first + i] is Bytes));
                    }
                    return None;
                },
            }
            i += 1;
        }
        Some(codes)
    }

    /// The model codes of entry `entry`; `None` when the table has no such entry, or
    /// the entry has not sixteen texts behind its character code.
    pub fn modelcodes(&self, entry: usize) -> (r: Option<Vec<VecString>>)
        ensures
            r is Some <==> entry < self.document@.records.len() && holds_codes(
                self.document@.records[entry as int],
                first_model_code(),
            ),
            r is Some ==> r.unwrap().len() == MODEL_CODES,
            r is Some ==> forall|i: int|
                0 <= i < MODEL_CODES ==> (#[trigger] r.unwrap()@[i]).code@
                    == self.document@.records[entry as int][first_model_code() + i]->Bytes_0,
    {
        self.codes(entry, 1)
    }

    /// The model codes of the awakened character of entry `entry`; `None` when the
    /// table has no such entry, or the entry has not sixteen texts behind its model
    /// codes.
    pub fn awamodelcodes(&self, entry: usize) -> (r: Option<Vec<VecString>>)
        ensures
            r is Some <==> entry < self.document@.records.len() && holds_codes(
                self.document@.records[entry as int],
                first_awakened_model_code(),
            ),
            r is Some ==> r.unwrap().len() == MODEL_CODES,
            r is Some ==> forall|i: int|
                0 <= i < MODEL_CODES ==> (#[trigger] r.unwrap()@[i]).code@
                    == self.document@.records[entry as int][first_awakened_model_code()
                    + i]->Bytes_0,
    {
        self.codes(entry, 17)
    }
}

/// The model codes are where the layout has them: sixteen texts of eight bytes from
/// each of the two places on.
pub proof fn lemma_model_codes_in_layout(i: int)
    requires
        0 <= i < MODEL_CODES,
    ensures
        layout().record.len() == 34,
        layout().record[first_model_code() + i].kind == FieldKind::Text(8),
        layout().record[first_awakened_model_code() + i].kind == FieldKind::Text(8),
{
    reveal(layout);
}

} // verus!
