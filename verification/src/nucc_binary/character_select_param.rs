//! Slots of the character selection screen and how each is drawn.

use crate::binary_type::NuccBinaryType;
use crate::codec::{
    decode, decode_spec, encode, encode_spec, first_count, header_size, representable,
    stride, tells_count,
};
use crate::document::{document_fits, Document};
use crate::error::CodecError;
use crate::layout::{field, padded, size_upto, DescriptorView, FieldKind, FormatDescriptor};
use crate::text::{
    from_text, from_text_spec, text_fits, to_text, to_text_spec, TextDocument,
};
use vstd::prelude::*;

verus! {

/// The table of the character selection screen, decoded.
#[derive(Debug, Clone, PartialEq, Eq)]
pub struct CharacterSelectParam {
    pub document: Document,
}

/// The layout of the table: its header, and its records with 6 pooled strings.
#[verifier::opaque]
pub open spec fn layout() -> DescriptorView {
    DescriptorView {
        header: seq![
            field("version", FieldKind::Constant32(1001)),
            field("entry_count", FieldKind::Count32),
            field("entry_ptr", FieldKind::Constant64(8)),
        ],
        record: seq![
            field("searchcode", FieldKind::Pointer64),
            field("page_index", FieldKind::U32),
            field("slot_index", FieldKind::U32),
            padded("costume_slot_index", FieldKind::U32, 0, 4),
            field("char_name", FieldKind::Pointer64),
            padded("duel_player_param_model_index", FieldKind::U32, 0, 4),
            field("costume_name", FieldKind::Pointer64),
            field("accessory", FieldKind::Pointer64),
            field("crsel", FieldKind::Pointer64),
            field("render_settings.ofsX1P", FieldKind::F32),
            field("render_settings.ofsY1P", FieldKind::F32),
            field("render_settings.ofsZ1P", FieldKind::F32),
            field("render_settings.ofsX2P", FieldKind::F32),
            field("render_settings.ofsY2P", FieldKind::F32),
            field("render_settings.ofsZ2P", FieldKind::F32),
            field("render_settings.selOfsX1P", FieldKind::F32),
            field("render_settings.selOfsY1P", FieldKind::F32),
            field("render_settings.selOfsZ1P", FieldKind::F32),
            field("render_settings.selOfsX2P", FieldKind::F32),
            field("render_settings.selOfsY2P", FieldKind::F32),
            field("render_settings.selOfsZ2P", FieldKind::F32),
            field("render_settings.vsOfsX1P", FieldKind::F32),
            field("render_settings.vsOfsY1P", FieldKind::F32),
            field("render_settings.vsOfsZ1P", FieldKind::F32),
            field("render_settings.vsOfsX2P", FieldKind::F32),
            field("render_settings.vsOfsY2P", FieldKind::F32),
            field("render_settings.vsOfsZ2P", FieldKind::F32),
            field("render_settings.rot1P", FieldKind::F32),
            field("render_settings.rot2P", FieldKind::F32),
            field("render_settings.selRot1P", FieldKind::F32),
            field("render_settings.selRot2P", FieldKind::F32),
            field("render_settings.vsRot1P", FieldKind::F32),
            field("render_settings.vsRot2P", FieldKind::F32),
            field("render_settings.lightX1P", FieldKind::F32),
            field("render_settings.lightY1P", FieldKind::F32),
            field("render_settings.lightZ1P", FieldKind::F32),
            field("render_settings.lightX2P", FieldKind::F32),
            field("render_settings.lightY2P", FieldKind::F32),
            field("render_settings.lightZ2P", FieldKind::F32),
            field("render_settings.selLightX1P", FieldKind::F32),
            field("render_settings.selLightY1P", FieldKind::F32),
            field("render_settings.selLightZ1P", FieldKind::F32),
            field("render_settings.selLightX2P", FieldKind::F32),
            field("render_settings.selLightY2P", FieldKind::F32),
            field("render_settings.selLightZ2P", FieldKind::F32),
            field("render_settings.vsLightX1P", FieldKind::F32),
            field("render_settings.vsLightY1P", FieldKind::F32),
            field("render_settings.vsLightZ1P", FieldKind::F32),
            field("render_settings.vsLightX2P", FieldKind::F32),
            field("render_settings.vsLightY2P", FieldKind::F32),
            field("render_settings.vsLightZ2P", FieldKind::F32),
            field("render_settings.unk_x3", FieldKind::F32),
            field("render_settings.unk_y3", FieldKind::F32),
            field("render_settings.unk_z3", FieldKind::F32),
            field("render_settings.unk_x4", FieldKind::F32),
            field("render_settings.unk_y4", FieldKind::F32),
            field("render_settings.unk_z4", FieldKind::F32),
            field("render_settings.unk_x5", FieldKind::F32),
            field("render_settings.unk_y5", FieldKind::F32),
            field("render_settings.unk_z5", FieldKind::F32),
            field("render_settings.unk_x6", FieldKind::F32),
            field("render_settings.unk_y6", FieldKind::F32),
            field("render_settings.unk_z6", FieldKind::F32),
            field("render_settings.unk_x7", FieldKind::F32),
            field("render_settings.unk_y7", FieldKind::F32),
            field("render_settings.unk_z7", FieldKind::F32),
            field("render_settings.unk_x8", FieldKind::F32),
            field("render_settings.unk_y8", FieldKind::F32),
            field("render_settings.unk_z8", FieldKind::F32),
            field("dictionary_link", FieldKind::Pointer64),
            padded("index", FieldKind::I32, 0, 4),
        ],
    }
}

/// The layout as a value.
pub fn descriptor() -> (d: FormatDescriptor)
    ensures
        d@ == layout(),
{
    let d = FormatDescriptor {
        header: vec![
            field("version", FieldKind::Constant32(1001)),
            field("entry_count", FieldKind::Count32),
            field("entry_ptr", FieldKind::Constant64(8)),
        ],
        record: vec![
            field("searchcode", FieldKind::Pointer64),
            field("page_index", FieldKind::U32),
            field("slot_index", FieldKind::U32),
            padded("costume_slot_index", FieldKind::U32, 0, 4),
            field("char_name", FieldKind::Pointer64),
            padded("duel_player_param_model_index", FieldKind::U32, 0, 4),
            field("costume_name", FieldKind::Pointer64),
            field("accessory", FieldKind::Pointer64),
            field("crsel", FieldKind::Pointer64),
            field("render_settings.ofsX1P", FieldKind::F32),
            field("render_settings.ofsY1P", FieldKind::F32),
            field("render_settings.ofsZ1P", FieldKind::F32),
            field("render_settings.ofsX2P", FieldKind::F32),
            field("render_settings.ofsY2P", FieldKind::F32),
            field("render_settings.ofsZ2P", FieldKind::F32),
            field("render_settings.selOfsX1P", FieldKind::F32),
            field("render_settings.selOfsY1P", FieldKind::F32),
            field("render_settings.selOfsZ1P", FieldKind::F32),
            field("render_settings.selOfsX2P", FieldKind::F32),
            field("render_settings.selOfsY2P", FieldKind::F32),
            field("render_settings.selOfsZ2P", FieldKind::F32),
            field("render_settings.vsOfsX1P", FieldKind::F32),
            field("render_settings.vsOfsY1P", FieldKind::F32),
            field("render_settings.vsOfsZ1P", FieldKind::F32),
            field("render_settings.vsOfsX2P", FieldKind::F32),
            field("render_settings.vsOfsY2P", FieldKind::F32),
            field("render_settings.vsOfsZ2P", FieldKind::F32),
            field("render_settings.rot1P", FieldKind::F32),
            field("render_settings.rot2P", FieldKind::F32),
            field("render_settings.selRot1P", FieldKind::F32),
            field("render_settings.selRot2P", FieldKind::F32),
            field("render_settings.vsRot1P", FieldKind::F32),
            field("render_settings.vsRot2P", FieldKind::F32),
            field("render_settings.lightX1P", FieldKind::F32),
            field("render_settings.lightY1P", FieldKind::F32),
            field("render_settings.lightZ1P", FieldKind::F32),
            field("render_settings.lightX2P", FieldKind::F32),
            field("render_settings.lightY2P", FieldKind::F32),
            field("render_settings.lightZ2P", FieldKind::F32),
            field("render_settings.selLightX1P", FieldKind::F32),
            field("render_settings.selLightY1P", FieldKind::F32),
            field("render_settings.selLightZ1P", FieldKind::F32),
            field("render_settings.selLightX2P", FieldKind::F32),
            field("render_settings.selLightY2P", FieldKind::F32),
            field("render_settings.selLightZ2P", FieldKind::F32),
            field("render_settings.vsLightX1P", FieldKind::F32),
            field("render_settings.vsLightY1P", FieldKind::F32),
            field("render_settings.vsLightZ1P", FieldKind::F32),
            field("render_settings.vsLightX2P", FieldKind::F32),
            field("render_settings.vsLightY2P", FieldKind::F32),
            field("render_settings.vsLightZ2P", FieldKind::F32),
            field("render_settings.unk_x3", FieldKind::F32),
            field("render_settings.unk_y3", FieldKind::F32),
            field("render_settings.unk_z3", FieldKind::F32),
            field("render_settings.unk_x4", FieldKind::F32),
            field("render_settings.unk_y4", FieldKind::F32),
            field("render_settings.unk_z4", FieldKind::F32),
            field("render_settings.unk_x5", FieldKind::F32),
            field("render_settings.unk_y5", FieldKind::F32),
            field("render_settings.unk_z5", FieldKind::F32),
            field("render_settings.unk_x6", FieldKind::F32),
            field("render_settings.unk_y6", FieldKind::F32),
            field("render_settings.unk_z6", FieldKind::F32),
            field("render_settings.unk_x7", FieldKind::F32),
            field("render_settings.unk_y7", FieldKind::F32),
            field("render_settings.unk_z7", FieldKind::F32),
            field("render_settings.unk_x8", FieldKind::F32),
            field("render_settings.unk_y8", FieldKind::F32),
            field("render_settings.unk_z8", FieldKind::F32),
            field("dictionary_link", FieldKind::Pointer64),
            padded("index", FieldKind::I32, 0, 4),
        ],
    };
    proof {
        reveal(layout);
        assert(d@.header =~= layout().header);
        assert(d@.record =~= layout().record);
    }
    d
}

/// The header takes 16 bytes and each record 320.
pub proof fn lemma_sizes()
    ensures
        header_size(layout()) == 0x10,
        stride(layout()) == 0x140,
{
    reveal(layout);
    reveal_with_fuel(size_upto, 11);
    let record = layout().record;
    assert(size_upto(record, 10) == 68);
    assert(size_upto(record, 20) == 108);
    assert(size_upto(record, 30) == 148);
    assert(size_upto(record, 40) == 188);
    assert(size_upto(record, 50) == 228);
    assert(size_upto(record, 60) == 268);
    assert(size_upto(record, 70) == 312);
}

/// A table of this layout tells how many records it has.
pub proof fn lemma_tells_count()
    ensures
        tells_count(layout()),
{
    reveal(layout);
    reveal_with_fuel(first_count, 4);
}

impl CharacterSelectParam {
    pub fn binary_type(&self) -> (tag: NuccBinaryType)
        ensures
            tag == NuccBinaryType::CharacterSelectParam,
    {
        NuccBinaryType::CharacterSelectParam
    }

    /// The extension of the file that the chunk is unpacked to.
    pub fn extension(&self) -> (ext: String)
        ensures
            ext@ == ".json"@,
    {
        ".json".to_owned()
    }

    /// Decodes the chunk's bytes.
    pub fn from(data: &[u8]) -> (r: Result<CharacterSelectParam, CodecError>)
        ensures
            match decode_spec(layout(), data@) {
                Ok(v) => r is Ok && r.unwrap().document@ == v,
                Err(e) => r == Err::<CharacterSelectParam, CodecError>(e),
            },
            r is Ok ==> document_fits(layout(), r.unwrap().document@),
    {
        match decode(data, &descriptor()) {
            Ok(document) => Ok(CharacterSelectParam { document }),
            Err(e) => Err(e),
        }
    }

    /// Encodes the chunk's bytes. Fails when the document does not have the layout's
    /// shape, or holds more than its fields can express.
    pub fn to_bytes(&self) -> (r: Result<Vec<u8>, CodecError>)
        ensures
            match r {
                Ok(bytes) => {
                    &&& document_fits(layout(), self.document@)
                    &&& representable(layout(), self.document@)
                    &&& bytes@ == encode_spec(layout(), self.document@)
                },
                Err(e) => {
                    &&& e == CodecError::TextParseError
                    &&& !(document_fits(layout(), self.document@) && representable(
                        layout(),
                        self.document@,
                    ))
                },
            },
    {
        encode(&descriptor(), &self.document)
    }

    /// The editable form. Fails when the document does not have the layout's shape.
    pub fn serialize(&self) -> (r: Result<TextDocument, CodecError>)
        ensures
            match r {
                Ok(text) => document_fits(layout(), self.document@) && text@ == to_text_spec(
                    layout(),
                    self.document@,
                ),
                Err(e) => e == CodecError::TextParseError && !document_fits(
                    layout(),
                    self.document@,
                ),
            },
    {
        to_text(&descriptor(), &self.document)
    }

    /// From the editable form. Fails when it does not have the layout's shape.
    pub fn deserialize(text: &TextDocument) -> (r: Result<CharacterSelectParam, CodecError>)
        ensures
            match r {
                Ok(parsed) => text_fits(layout(), text@) && parsed.document@ == from_text_spec(
                    layout(),
                    text@,
                ),
                Err(e) => e == CodecError::TextParseError && !text_fits(layout(), text@),
            },
    {
        match from_text(&descriptor(), text) {
            Ok(document) => Ok(CharacterSelectParam { document }),
            Err(e) => Err(e),
        }
    }
}

} // verus!
