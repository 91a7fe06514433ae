//! Cut-ins of the finishing skills, each with its fifty victims.

use crate::binary_type::NuccBinaryType;
use crate::codec::{
    decode, decode_spec, encode, encode_spec, first_count, header_size, representable,
    stride, tells_count,
};
use crate::document::{document_fits, Document, Value, ValueView};
use crate::error::CodecError;
use crate::layout::{field, padded, size_upto, DescriptorView, FieldKind, FormatDescriptor};
use crate::text::{
    from_text, from_text_spec, text_fits, to_text, to_text_spec, TextDocument,
};
use vstd::prelude::*;

verus! {

/// The table of cut-ins, decoded.
#[derive(Debug, Clone, PartialEq, Eq)]
pub struct FinalSpSkillCutIn {
    pub document: Document,
}

/// The layout of the table: its header, and its records with 102 pooled strings.
#[verifier::opaque]
pub open spec fn layout() -> DescriptorView {
    DescriptorView {
        header: seq![
            field("size", FieldKind::Size),
            field("version", FieldKind::Constant32(1001)),
            field("entry_count", FieldKind::Count16),
            field("unk0", FieldKind::U16),
            field("entry_ptr", FieldKind::Constant64(8)),
        ],
        record: seq![
            field("story_mode_id", FieldKind::I32),
            field("pair_sp_skill_id", FieldKind::I32),
            field("player_setting_id", FieldKind::I32),
            field("costume_slot_index", FieldKind::I32),
            field("sp_skill_1_name", FieldKind::Pointer64),
            padded("sp_skill_2_name", FieldKind::Pointer64, 0, 4),
            field("spl_fin_victims.0.victim_player_setting_id", FieldKind::I32),
            field("spl_fin_victims.0.victim_name", FieldKind::Pointer64),
            padded("spl_fin_victims.0.victim_texture_name", FieldKind::Pointer64, 0, 4),
            field("spl_fin_victims.1.victim_player_setting_id", FieldKind::I32),
            field("spl_fin_victims.1.victim_name", FieldKind::Pointer64),
            padded("spl_fin_victims.1.victim_texture_name", FieldKind::Pointer64, 0, 4),
            field("spl_fin_victims.2.victim_player_setting_id", FieldKind::I32),
            field("spl_fin_victims.2.victim_name", FieldKind::Pointer64),
            padded("spl_fin_victims.2.victim_texture_name", FieldKind::Pointer64, 0, 4),
            field("spl_fin_victims.3.victim_player_setting_id", FieldKind::I32),
            field("spl_fin_victims.3.victim_name", FieldKind::Pointer64),
            padded("spl_fin_victims.3.victim_texture_name", FieldKind::Pointer64, 0, 4),
            field("spl_fin_victims.4.victim_player_setting_id", FieldKind::I32),
            field("spl_fin_victims.4.victim_name", FieldKind::Pointer64),
            padded("spl_fin_victims.4.victim_texture_name", FieldKind::Pointer64, 0, 4),
            field("spl_fin_victims.5.victim_player_setting_id", FieldKind::I32),
            field("spl_fin_victims.5.victim_name", FieldKind::Pointer64),
            padded("spl_fin_victims.5.victim_texture_name", FieldKind::Pointer64, 0, 4),
            field("spl_fin_victims.6.victim_player_setting_id", FieldKind::I32),
            field("spl_fin_victims.6.victim_name", FieldKind::Pointer64),
            padded("spl_fin_victims.6.victim_texture_name", FieldKind::Pointer64, 0, 4),
            field("spl_fin_victims.7.victim_player_setting_id", FieldKind::I32),
            field("spl_fin_victims.7.victim_name", FieldKind::Pointer64),
            padded("spl_fin_victims.7.victim_texture_name", FieldKind::Pointer64, 0, 4),
            field("spl_fin_victims.8.victim_player_setting_id", FieldKind::I32),
            field("spl_fin_victims.8.victim_name", FieldKind::Pointer64),
            padded("spl_fin_victims.8.victim_texture_name", FieldKind::Pointer64, 0, 4),
            field("spl_fin_victims.9.victim_player_setting_id", FieldKind::I32),
            field("spl_fin_victims.9.victim_name", FieldKind::Pointer64),
            padded("spl_fin_victims.9.victim_texture_name", FieldKind::Pointer64, 0, 4),
            field("spl_fin_victims.10.victim_player_setting_id", FieldKind::I32),
            field("spl_fin_victims.10.victim_name", FieldKind::Pointer64),
            padded("spl_fin_victims.10.victim_texture_name", FieldKind::Pointer64, 0, 4),
            field("spl_fin_victims.11.victim_player_setting_id", FieldKind::I32),
            field("spl_fin_victims.11.victim_name", FieldKind::Pointer64),
            padded("spl_fin_victims.11.victim_texture_name", FieldKind::Pointer64, 0, 4),
            field("spl_fin_victims.12.victim_player_setting_id", FieldKind::I32),
            field("spl_fin_victims.12.victim_name", FieldKind::Pointer64),
            padded("spl_fin_victims.12.victim_texture_name", FieldKind::Pointer64, 0, 4),
            field("spl_fin_victims.13.victim_player_setting_id", FieldKind::I32),
            field("spl_fin_victims.13.victim_name", FieldKind::Pointer64),
            padded("spl_fin_victims.13.victim_texture_name", FieldKind::Pointer64, 0, 4),
            field("spl_fin_victims.14.victim_player_setting_id", FieldKind::I32),
            field("spl_fin_victims.14.victim_name", FieldKind::Pointer64),
            padded("spl_fin_victims.14.victim_texture_name", FieldKind::Pointer64, 0, 4),
            field("spl_fin_victims.15.victim_player_setting_id", FieldKind::I32),
            field("spl_fin_victims.15.victim_name", FieldKind::Pointer64),
            padded("spl_fin_victims.15.victim_texture_name", FieldKind::Pointer64, 0, 4),
            field("spl_fin_victims.16.victim_player_setting_id", FieldKind::I32),
            field("spl_fin_victims.16.victim_name", FieldKind::Pointer64),
            padded("spl_fin_victims.16.victim_texture_name", FieldKind::Pointer64, 0, 4),
            field("spl_fin_victims.17.victim_player_setting_id", FieldKind::I32),
            field("spl_fin_victims.17.victim_name", FieldKind::Pointer64),
            padded("spl_fin_victims.17.victim_texture_name", FieldKind::Pointer64, 0, 4),
            field("spl_fin_victims.18.victim_player_setting_id", FieldKind::I32),
            field("spl_fin_victims.18.victim_name", FieldKind::Pointer64),
            padded("spl_fin_victims.18.victim_texture_name", FieldKind::Pointer64, 0, 4),
            field("spl_fin_victims.19.victim_player_setting_id", FieldKind::I32),
            field("spl_fin_victims.19.victim_name", FieldKind::Pointer64),
            padded("spl_fin_victims.19.victim_texture_name", FieldKind::Pointer64, 0, 4),
            field("spl_fin_victims.20.victim_player_setting_id", FieldKind::I32),
            field("spl_fin_victims.20.victim_name", FieldKind::Pointer64),
            padded("spl_fin_victims.20.victim_texture_name", FieldKind::Pointer64, 0, 4),
            field("spl_fin_victims.21.victim_player_setting_id", FieldKind::I32),
            field("spl_fin_victims.21.victim_name", FieldKind::Pointer64),
            padded("spl_fin_victims.21.victim_texture_name", FieldKind::Pointer64, 0, 4),
            field("spl_fin_victims.22.victim_player_setting_id", FieldKind::I32),
            field("spl_fin_victims.22.victim_name", FieldKind::Pointer64),
            padded("spl_fin_victims.22.victim_texture_name", FieldKind::Pointer64, 0, 4),
            field("spl_fin_victims.23.victim_player_setting_id", FieldKind::I32),
            field("spl_fin_victims.23.victim_name", FieldKind::Pointer64),
            padded("spl_fin_victims.23.victim_texture_name", FieldKind::Pointer64, 0, 4),
            field("spl_fin_victims.24.victim_player_setting_id", FieldKind::I32),
            field("spl_fin_victims.24.victim_name", FieldKind::Pointer64),
            padded("spl_fin_victims.24.victim_texture_name", FieldKind::Pointer64, 0, 4),
            field("spl_fin_victims.25.victim_player_setting_id", FieldKind::I32),
            field("spl_fin_victims.25.victim_name", FieldKind::Pointer64),
            padded("spl_fin_victims.25.victim_texture_name", FieldKind::Pointer64, 0, 4),
            field("spl_fin_victims.26.victim_player_setting_id", FieldKind::I32),
            field("spl_fin_victims.26.victim_name", FieldKind::Pointer64),
            padded("spl_fin_victims.26.victim_texture_name", FieldKind::Pointer64, 0, 4),
            field("spl_fin_victims.27.victim_player_setting_id", FieldKind::I32),
            field("spl_fin_victims.27.victim_name", FieldKind::Pointer64),
            padded("spl_fin_victims.27.victim_texture_name", FieldKind::Pointer64, 0, 4),
            field("spl_fin_victims.28.victim_player_setting_id", FieldKind::I32),
            field("spl_fin_victims.28.victim_name", FieldKind::Pointer64),
            padded("spl_fin_victims.28.victim_texture_name", FieldKind::Pointer64, 0, 4),
            field("spl_fin_victims.29.victim_player_setting_id", FieldKind::I32),
            field("spl_fin_victims.29.victim_name", FieldKind::Pointer64),
            padded("spl_fin_victims.29.victim_texture_name", FieldKind::Pointer64, 0, 4),
            field("spl_fin_victims.30.victim_player_setting_id", FieldKind::I32),
            field("spl_fin_victims.30.victim_name", FieldKind::Pointer64),
            padded("spl_fin_victims.30.victim_texture_name", FieldKind::Pointer64, 0, 4),
            field("spl_fin_victims.31.victim_player_setting_id", FieldKind::I32),
            field("spl_fin_victims.31.victim_name", FieldKind::Pointer64),
            padded("spl_fin_victims.31.victim_texture_name", FieldKind::Pointer64, 0, 4),
            field("spl_fin_victims.32.victim_player_setting_id", FieldKind::I32),
            field("spl_fin_victims.32.victim_name", FieldKind::Pointer64),
            padded("spl_fin_victims.32.victim_texture_name", FieldKind::Pointer64, 0, 4),
            field("spl_fin_victims.33.victim_player_setting_id", FieldKind::I32),
            field("spl_fin_victims.33.victim_name", FieldKind::Pointer64),
            padded("spl_fin_victims.33.victim_texture_name", FieldKind::Pointer64, 0, 4),
            field("spl_fin_victims.34.victim_player_setting_id", FieldKind::I32),
            field("spl_fin_victims.34.victim_name", FieldKind::Pointer64),
            padded("spl_fin_victims.34.victim_texture_name", FieldKind::Pointer64, 0, 4),
            field("spl_fin_victims.35.victim_player_setting_id", FieldKind::I32),
            field("spl_fin_victims.35.victim_name", FieldKind::Pointer64),
            padded("spl_fin_victims.35.victim_texture_name", FieldKind::Pointer64, 0, 4),
            field("spl_fin_victims.36.victim_player_setting_id", FieldKind::I32),
            field("spl_fin_victims.36.victim_name", FieldKind::Pointer64),
            padded("spl_fin_victims.36.victim_texture_name", FieldKind::Pointer64, 0, 4),
            field("spl_fin_victims.37.victim_player_setting_id", FieldKind::I32),
            field("spl_fin_victims.37.victim_name", FieldKind::Pointer64),
            padded("spl_fin_victims.37.victim_texture_name", FieldKind::Pointer64, 0, 4),
            field("spl_fin_victims.38.victim_player_setting_id", FieldKind::I32),
            field("spl_fin_victims.38.victim_name", FieldKind::Pointer64),
            padded("spl_fin_victims.38.victim_texture_name", FieldKind::Pointer64, 0, 4),
            field("spl_fin_victims.39.victim_player_setting_id", FieldKind::I32),
            field("spl_fin_victims.39.victim_name", FieldKind::Pointer64),
            padded("spl_fin_victims.39.victim_texture_name", FieldKind::Pointer64, 0, 4),
            field("spl_fin_victims.40.victim_player_setting_id", FieldKind::I32),
            field("spl_fin_victims.40.victim_name", FieldKind::Pointer64),
            padded("spl_fin_victims.40.victim_texture_name", FieldKind::Pointer64, 0, 4),
            field("spl_fin_victims.41.victim_player_setting_id", FieldKind::I32),
            field("spl_fin_victims.41.victim_name", FieldKind::Pointer64),
            padded("spl_fin_victims.41.victim_texture_name", FieldKind::Pointer64, 0, 4),
            field("spl_fin_victims.42.victim_player_setting_id", FieldKind::I32),
            field("spl_fin_victims.42.victim_name", FieldKind::Pointer64),
            padded("spl_fin_victims.42.victim_texture_name", FieldKind::Pointer64, 0, 4),
            field("spl_fin_victims.43.victim_player_setting_id", FieldKind::I32),
            field("spl_fin_victims.43.victim_name", FieldKind::Pointer64),
            padded("spl_fin_victims.43.victim_texture_name", FieldKind::Pointer64, 0, 4),
            field("spl_fin_victims.44.victim_player_setting_id", FieldKind::I32),
            field("spl_fin_victims.44.victim_name", FieldKind::Pointer64),
            padded("spl_fin_victims.44.victim_texture_name", FieldKind::Pointer64, 0, 4),
            field("spl_fin_victims.45.victim_player_setting_id", FieldKind::I32),
            field("spl_fin_victims.45.victim_name", FieldKind::Pointer64),
            padded("spl_fin_victims.45.victim_texture_name", FieldKind::Pointer64, 0, 4),
            field("spl_fin_victims.46.victim_player_setting_id", FieldKind::I32),
            field("spl_fin_victims.46.victim_name", FieldKind::Pointer64),
            padded("spl_fin_victims.46.victim_texture_name", FieldKind::Pointer64, 0, 4),
            field("spl_fin_victims.47.victim_player_setting_id", FieldKind::I32),
            field("spl_fin_victims.47.victim_name", FieldKind::Pointer64),
            padded("spl_fin_victims.47.victim_texture_name", FieldKind::Pointer64, 0, 4),
            field("spl_fin_victims.48.victim_player_setting_id", FieldKind::I32),
            field("spl_fin_victims.48.victim_name", FieldKind::Pointer64),
            padded("spl_fin_victims.48.victim_texture_name", FieldKind::Pointer64, 0, 4),
            field("spl_fin_victims.49.victim_player_setting_id", FieldKind::I32),
            field("spl_fin_victims.49.victim_name", FieldKind::Pointer64),
            padded("spl_fin_victims.49.victim_texture_name", FieldKind::Pointer64, 0, 8),
        ],
    }
}

/// The layout as a value.
pub fn descriptor() -> (d: FormatDescriptor)
    ensures
        d@ == layout(),
{
    let d = FormatDescriptor {
        header: vec![
            field("size", FieldKind::Size),
            field("version", FieldKind::Constant32(1001)),
            field("entry_count", FieldKind::Count16),
            field("unk0", FieldKind::U16),
            field("entry_ptr", FieldKind::Constant64(8)),
        ],
        record: vec![
            field("story_mode_id", FieldKind::I32),
            field("pair_sp_skill_id", FieldKind::I32),
            field("player_setting_id", FieldKind::I32),
            field("costume_slot_index", FieldKind::I32),
            field("sp_skill_1_name", FieldKind::Pointer64),
            padded("sp_skill_2_name", FieldKind::Pointer64, 0, 4),
            field("spl_fin_victims.0.victim_player_setting_id", FieldKind::I32),
            field("spl_fin_victims.0.victim_name", FieldKind::Pointer64),
            padded("spl_fin_victims.0.victim_texture_name", FieldKind::Pointer64, 0, 4),
            field("spl_fin_victims.1.victim_player_setting_id", FieldKind::I32),
            field("spl_fin_victims.1.victim_name", FieldKind::Pointer64),
            padded("spl_fin_victims.1.victim_texture_name", FieldKind::Pointer64, 0, 4),
            field("spl_fin_victims.2.victim_player_setting_id", FieldKind::I32),
            field("spl_fin_victims.2.victim_name", FieldKind::Pointer64),
            padded("spl_fin_victims.2.victim_texture_name", FieldKind::Pointer64, 0, 4),
            field("spl_fin_victims.3.victim_player_setting_id", FieldKind::I32),
            field("spl_fin_victims.3.victim_name", FieldKind::Pointer64),
            padded("spl_fin_victims.3.victim_texture_name", FieldKind::Pointer64, 0, 4),
            field("spl_fin_victims.4.victim_player_setting_id", FieldKind::I32),
            field("spl_fin_victims.4.victim_name", FieldKind::Pointer64),
            padded("spl_fin_victims.4.victim_texture_name", FieldKind::Pointer64, 0, 4),
            field("spl_fin_victims.5.victim_player_setting_id", FieldKind::I32),
            field("spl_fin_victims.5.victim_name", FieldKind::Pointer64),
            padded("spl_fin_victims.5.victim_texture_name", FieldKind::Pointer64, 0, 4),
            field("spl_fin_victims.6.victim_player_setting_id", FieldKind::I32),
            field("spl_fin_victims.6.victim_name", FieldKind::Pointer64),
            padded("spl_fin_victims.6.victim_texture_name", FieldKind::Pointer64, 0, 4),
            field("spl_fin_victims.7.victim_player_setting_id", FieldKind::I32),
            field("spl_fin_victims.7.victim_name", FieldKind::Pointer64),
            padded("spl_fin_victims.7.victim_texture_name", FieldKind::Pointer64, 0, 4),
            field("spl_fin_victims.8.victim_player_setting_id", FieldKind::I32),
            field("spl_fin_victims.8.victim_name", FieldKind::Pointer64),
            padded("spl_fin_victims.8.victim_texture_name", FieldKind::Pointer64, 0, 4),
            field("spl_fin_victims.9.victim_player_setting_id", FieldKind::I32),
            field("spl_fin_victims.9.victim_name", FieldKind::Pointer64),
            padded("spl_fin_victims.9.victim_texture_name", FieldKind::Pointer64, 0, 4),
            field("spl_fin_victims.10.victim_player_setting_id", FieldKind::I32),
            field("spl_fin_victims.10.victim_name", FieldKind::Pointer64),
            padded("spl_fin_victims.10.victim_texture_name", FieldKind::Pointer64, 0, 4),
            field("spl_fin_victims.11.victim_player_setting_id", FieldKind::I32),
            field("spl_fin_victims.11.victim_name", FieldKind::Pointer64),
            padded("spl_fin_victims.11.victim_texture_name", FieldKind::Pointer64, 0, 4),
            field("spl_fin_victims.12.victim_player_setting_id", FieldKind::I32),
            field("spl_fin_victims.12.victim_name", FieldKind::Pointer64),
            padded("spl_fin_victims.12.victim_texture_name", FieldKind::Pointer64, 0, 4),
            field("spl_fin_victims.13.victim_player_setting_id", FieldKind::I32),
            field("spl_fin_victims.13.victim_name", FieldKind::Pointer64),
            padded("spl_fin_victims.13.victim_texture_name", FieldKind::Pointer64, 0, 4),
            field("spl_fin_victims.14.victim_player_setting_id", FieldKind::I32),
            field("spl_fin_victims.14.victim_name", FieldKind::Pointer64),
            padded("spl_fin_victims.14.victim_texture_name", FieldKind::Pointer64, 0, 4),
            field("spl_fin_victims.15.victim_player_setting_id", FieldKind::I32),
            field("spl_fin_victims.15.victim_name", FieldKind::Pointer64),
            padded("spl_fin_victims.15.victim_texture_name", FieldKind::Pointer64, 0, 4),
            field("spl_fin_victims.16.victim_player_setting_id", FieldKind::I32),
            field("spl_fin_victims.16.victim_name", FieldKind::Pointer64),
            padded("spl_fin_victims.16.victim_texture_name", FieldKind::Pointer64, 0, 4),
            field("spl_fin_victims.17.victim_player_setting_id", FieldKind::I32),
            field("spl_fin_victims.17.victim_name", FieldKind::Pointer64),
            padded("spl_fin_victims.17.victim_texture_name", FieldKind::Pointer64, 0, 4),
            field("spl_fin_victims.18.victim_player_setting_id", FieldKind::I32),
            field("spl_fin_victims.18.victim_name", FieldKind::Pointer64),
            padded("spl_fin_victims.18.victim_texture_name", FieldKind::Pointer64, 0, 4),
            field("spl_fin_victims.19.victim_player_setting_id", FieldKind::I32),
            field("spl_fin_victims.19.victim_name", FieldKind::Pointer64),
            padded("spl_fin_victims.19.victim_texture_name", FieldKind::Pointer64, 0, 4),
            field("spl_fin_victims.20.victim_player_setting_id", FieldKind::I32),
            field("spl_fin_victims.20.victim_name", FieldKind::Pointer64),
            padded("spl_fin_victims.20.victim_texture_name", FieldKind::Pointer64, 0, 4),
            field("spl_fin_victims.21.victim_player_setting_id", FieldKind::I32),
            field("spl_fin_victims.21.victim_name", FieldKind::Pointer64),
            padded("spl_fin_victims.21.victim_texture_name", FieldKind::Pointer64, 0, 4),
            field("spl_fin_victims.22.victim_player_setting_id", FieldKind::I32),
            field("spl_fin_victims.22.victim_name", FieldKind::Pointer64),
            padded("spl_fin_victims.22.victim_texture_name", FieldKind::Pointer64, 0, 4),
            field("spl_fin_victims.23.victim_player_setting_id", FieldKind::I32),
            field("spl_fin_victims.23.victim_name", FieldKind::Pointer64),
            padded("spl_fin_victims.23.victim_texture_name", FieldKind::Pointer64, 0, 4),
            field("spl_fin_victims.24.victim_player_setting_id", FieldKind::I32),
            field("spl_fin_victims.24.victim_name", FieldKind::Pointer64),
            padded("spl_fin_victims.24.victim_texture_name", FieldKind::Pointer64, 0, 4),
            field("spl_fin_victims.25.victim_player_setting_id", FieldKind::I32),
            field("spl_fin_victims.25.victim_name", FieldKind::Pointer64),
            padded("spl_fin_victims.25.victim_texture_name", FieldKind::Pointer64, 0, 4),
            field("spl_fin_victims.26.victim_player_setting_id", FieldKind::I32),
            field("spl_fin_victims.26.victim_name", FieldKind::Pointer64),
            padded("spl_fin_victims.26.victim_texture_name", FieldKind::Pointer64, 0, 4),
            field("spl_fin_victims.27.victim_player_setting_id", FieldKind::I32),
            field("spl_fin_victims.27.victim_name", FieldKind::Pointer64),
            padded("spl_fin_victims.27.victim_texture_name", FieldKind::Pointer64, 0, 4),
            field("spl_fin_victims.28.victim_player_setting_id", FieldKind::I32),
            field("spl_fin_victims.28.victim_name", FieldKind::Pointer64),
            padded("spl_fin_victims.28.victim_texture_name", FieldKind::Pointer64, 0, 4),
            field("spl_fin_victims.29.victim_player_setting_id", FieldKind::I32),
            field("spl_fin_victims.29.victim_name", FieldKind::Pointer64),
            padded("spl_fin_victims.29.victim_texture_name", FieldKind::Pointer64, 0, 4),
            field("spl_fin_victims.30.victim_player_setting_id", FieldKind::I32),
            field("spl_fin_victims.30.victim_name", FieldKind::Pointer64),
            padded("spl_fin_victims.30.victim_texture_name", FieldKind::Pointer64, 0, 4),
            field("spl_fin_victims.31.victim_player_setting_id", FieldKind::I32),
            field("spl_fin_victims.31.victim_name", FieldKind::Pointer64),
            padded("spl_fin_victims.31.victim_texture_name", FieldKind::Pointer64, 0, 4),
            field("spl_fin_victims.32.victim_player_setting_id", FieldKind::I32),
            field("spl_fin_victims.32.victim_name", FieldKind::Pointer64),
            padded("spl_fin_victims.32.victim_texture_name", FieldKind::Pointer64, 0, 4),
            field("spl_fin_victims.33.victim_player_setting_id", FieldKind::I32),
            field("spl_fin_victims.33.victim_name", FieldKind::Pointer64),
            padded("spl_fin_victims.33.victim_texture_name", FieldKind::Pointer64, 0, 4),
            field("spl_fin_victims.34.victim_player_setting_id", FieldKind::I32),
            field("spl_fin_victims.34.victim_name", FieldKind::Pointer64),
            padded("spl_fin_victims.34.victim_texture_name", FieldKind::Pointer64, 0, 4),
            field("spl_fin_victims.35.victim_player_setting_id", FieldKind::I32),
            field("spl_fin_victims.35.victim_name", FieldKind::Pointer64),
            padded("spl_fin_victims.35.victim_texture_name", FieldKind::Pointer64, 0, 4),
            field("spl_fin_victims.36.victim_player_setting_id", FieldKind::I32),
            field("spl_fin_victims.36.victim_name", FieldKind::Pointer64),
            padded("spl_fin_victims.36.victim_texture_name", FieldKind::Pointer64, 0, 4),
            field("spl_fin_victims.37.victim_player_setting_id", FieldKind::I32),
            field("spl_fin_victims.37.victim_name", FieldKind::Pointer64),
            padded("spl_fin_victims.37.victim_texture_name", FieldKind::Pointer64, 0, 4),
            field("spl_fin_victims.38.victim_player_setting_id", FieldKind::I32),
            field("spl_fin_victims.38.victim_name", FieldKind::Pointer64),
            padded("spl_fin_victims.38.victim_texture_name", FieldKind::Pointer64, 0, 4),
            field("spl_fin_victims.39.victim_player_setting_id", FieldKind::I32),
            field("spl_fin_victims.39.victim_name", FieldKind::Pointer64),
            padded("spl_fin_victims.39.victim_texture_name", FieldKind::Pointer64, 0, 4),
            field("spl_fin_victims.40.victim_player_setting_id", FieldKind::I32),
            field("spl_fin_victims.40.victim_name", FieldKind::Pointer64),
            padded("spl_fin_victims.40.victim_texture_name", FieldKind::Pointer64, 0, 4),
            field("spl_fin_victims.41.victim_player_setting_id", FieldKind::I32),
            field("spl_fin_victims.41.victim_name", FieldKind::Pointer64),
            padded("spl_fin_victims.41.victim_texture_name", FieldKind::Pointer64, 0, 4),
            field("spl_fin_victims.42.victim_player_setting_id", FieldKind::I32),
            field("spl_fin_victims.42.victim_name", FieldKind::Pointer64),
            padded("spl_fin_victims.42.victim_texture_name", FieldKind::Pointer64, 0, 4),
            field("spl_fin_victims.43.victim_player_setting_id", FieldKind::I32),
            field("spl_fin_victims.43.victim_name", FieldKind::Pointer64),
            padded("spl_fin_victims.43.victim_texture_name", FieldKind::Pointer64, 0, 4),
            field("spl_fin_victims.44.victim_player_setting_id", FieldKind::I32),
            field("spl_fin_victims.44.victim_name", FieldKind::Pointer64),
            padded("spl_fin_victims.44.victim_texture_name", FieldKind::Pointer64, 0, 4),
            field("spl_fin_victims.45.victim_player_setting_id", FieldKind::I32),
            field("spl_fin_victims.45.victim_name", FieldKind::Pointer64),
            padded("spl_fin_victims.45.victim_texture_name", FieldKind::Pointer64, 0, 4),
            field("spl_fin_victims.46.victim_player_setting_id", FieldKind::I32),
            field("spl_fin_victims.46.victim_name", FieldKind::Pointer64),
            padded("spl_fin_victims.46.victim_texture_name", FieldKind::Pointer64, 0, 4),
            field("spl_fin_victims.47.victim_player_setting_id", FieldKind::I32),
            field("spl_fin_victims.47.victim_name", FieldKind::Pointer64),
            padded("spl_fin_victims.47.victim_texture_name", FieldKind::Pointer64, 0, 4),
            field("spl_fin_victims.48.victim_player_setting_id", FieldKind::I32),
            field("spl_fin_victims.48.victim_name", FieldKind::Pointer64),
            padded("spl_fin_victims.48.victim_texture_name", FieldKind::Pointer64, 0, 4),
            field("spl_fin_victims.49.victim_player_setting_id", FieldKind::I32),
            field("spl_fin_victims.49.victim_name", FieldKind::Pointer64),
            padded("spl_fin_victims.49.victim_texture_name", FieldKind::Pointer64, 0, 8),
        ],
    };
    proof {
        reveal(layout);
        assert(d@.header =~= layout().header);
        assert(d@.record =~= layout().record);
    }
    d
}

/// The header takes 20 bytes and each record 1240.
pub proof fn lemma_sizes()
    ensures
        header_size(layout()) == 0x14,
        stride(layout()) == 0x4d8,
{
    reveal(layout);
    reveal_with_fuel(size_upto, 11);
    let record = layout().record;
    assert(size_upto(record, 10) == 64);
    assert(size_upto(record, 20) == 144);
    assert(size_upto(record, 30) == 228);
    assert(size_upto(record, 40) == 304);
    assert(size_upto(record, 50) == 384);
    assert(size_upto(record, 60) == 468);
    assert(size_upto(record, 70) == 544);
    assert(size_upto(record, 80) == 624);
    assert(size_upto(record, 90) == 708);
    assert(size_upto(record, 100) == 784);
    assert(size_upto(record, 110) == 864);
    assert(size_upto(record, 120) == 948);
    assert(size_upto(record, 130) == 1024);
    assert(size_upto(record, 140) == 1104);
    assert(size_upto(record, 150) == 1188);
}

/// A table of this layout tells how many records it has.
pub proof fn lemma_tells_count()
    ensures
        tells_count(layout()),
{
    reveal(layout);
    reveal_with_fuel(first_count, 6);
}

impl FinalSpSkillCutIn {
    pub fn binary_type(&self) -> (tag: NuccBinaryType)
        ensures
            tag == NuccBinaryType::FinalSpSkillCutIn,
    {
        NuccBinaryType::FinalSpSkillCutIn
    }

    /// The extension of the file that the chunk is unpacked to.
    pub fn extension(&self) -> (ext: String)
        ensures
            ext@ == ".json"@,
    {
        ".json".to_owned()
    }

    /// Decodes the chunk's bytes.
    pub fn from(data: &[u8]) -> (r: Result<FinalSpSkillCutIn, CodecError>)
        ensures
            match decode_spec(layout(), data@) {
                Ok(v) => r is Ok && r.unwrap().document@ == v,
                Err(e) => r == Err::<FinalSpSkillCutIn, CodecError>(e),
            },
            r is Ok ==> document_fits(layout(), r.unwrap().document@),
    {
        match decode(data, &descriptor()) {
            Ok(document) => Ok(FinalSpSkillCutIn { document }),
            Err(e) => Err(e),
        }
    }

    /// Encodes the chunk's bytes. Fails when the document does not have the layout's
    /// shape, or holds more than its fields can express.
    pub fn to_bytes(&self) -> (r: Result<Vec<u8>, CodecError>)
        ensures
            match r {
                Ok(bytes) => {
                    &&& document_fits(layout(), self.document@)
                    &&& representable(layout(), self.document@)
                    &&& bytes@ == encode_spec(layout(), self.document@)
                },
                Err(e) => {
                    &&& e == CodecError::TextParseError
                    &&& !(document_fits(layout(), self.document@) && representable(
                        layout(),
                        self.document@,
                    ))
                },
            },
    {
        encode(&descriptor(), &self.document)
    }

    /// The editable form. Fails when the document does not have the layout's shape.
    pub fn serialize(&self) -> (r: Result<TextDocument, CodecError>)
        ensures
            match r {
                Ok(text) => document_fits(layout(), self.document@) && text@ == to_text_spec(
                    layout(),
                    self.document@,
                ),
                Err(e) => e == CodecError::TextParseError && !document_fits(
                    layout(),
                    self.document@,
                ),
            },
    {
        to_text(&descriptor(), &self.document)
    }

    /// From the editable form. Fails when it does not have the layout's shape.
    pub fn deserialize(text: &TextDocument) -> (r: Result<FinalSpSkillCutIn, CodecError>)
        ensures
            match r {
                Ok(parsed) => text_fits(layout(), text@) && parsed.document@ == from_text_spec(
                    layout(),
                    text@,
                ),
                Err(e) => e == CodecError::TextParseError && !text_fits(layout(), text@),
            },
    {
        match from_text(&descriptor(), text) {
            Ok(document) => Ok(FinalSpSkillCutIn { document }),
            Err(e) => Err(e),
        }
    }
}

/// How many victims each cut-in has.
pub const SPL_VICTIM_COUNT: usize = 50;

/// One of the victims of a cut-in.
#[derive(Debug, Clone, PartialEq, Eq)]
pub struct SplFinVictim {
    /// The victim's preset, as the 32 bits that the table holds for it.
    pub victim_player_setting_id: u32,
    pub victim_name: Vec<u8>,
    pub victim_texture_name: Vec<u8>,
}

/// A victim as mathematics sees it.
pub struct SplFinVictimView {
    pub victim_player_setting_id: u32,
    pub victim_name: Seq<u8>,
    pub victim_texture_name: Seq<u8>,
}

impl View for SplFinVictim {
    type V = SplFinVictimView;

    open spec fn view(&self) -> SplFinVictimView {
        SplFinVictimView {
            victim_player_setting_id: self.victim_player_setting_id,
            victim_name: self.victim_name@,
            victim_texture_name: self.victim_texture_name@,
        }
    }
}

/// Where in the record victim `i` starts: behind the six values of the cut-in itself,
/// three values for each victim.
pub open spec fn victim_start(i: int) -> int {
    6 + 3 * i
}

/// True when the values at the place of victim `i` are a number of 32 bits and two
/// strings.
pub open spec fn holds_victim(record: Seq<ValueView>, i: int) -> bool {
    &&& victim_start(i) + 3 <= record.len()
    &&& record[victim_start(i)] is Int
    &&& record[victim_start(i)]->Int_0 <= u32::MAX
    &&& record[victim_start(i) + 1] is Bytes
    &&& record[victim_start(i) + 2] is Bytes
}

/// Victim `i` of a record.
pub open spec fn victim_at(record: Seq<ValueView>, i: int) -> SplFinVictimView {
    SplFinVictimView {
        victim_player_setting_id: record[victim_start(i)]->Int_0 as u32,
        victim_name: record[victim_start(i) + 1]->Bytes_0,
        victim_texture_name: record[victim_start(i) + 2]->Bytes_0,
    }
}

impl FinalSpSkillCutIn {
    /// The victims of entry `entry`; `None` when the table has no such entry, or the
    /// entry does not hold fifty victims.
    pub fn spl_fin_victims(&self, entry: usize) -> (r: Option<Vec<SplFinVictim>>)
        ensures
            r is Some <==> entry < self.document@.records.len() && forall|i: int|
                0 <= i < SPL_VICTIM_COUNT ==> holds_victim(
                    self.document@.records[entry as int],
                    i,
                ),
            r is Some ==> r.unwrap().len() == SPL_VICTIM_COUNT,
            r is Some ==> forall|i: int|
                0 <= i < SPL_VICTIM_COUNT ==> (#[trigger] r.unwrap()@[i])@ == victim_at(
                    self.document@.records[entry as int],
                    i,
                ),
    {
        if entry >= self.document.records.len() {
            return None;
        }
        let record = &self.document.records[entry];
        let ghost values = self.document@.records[entry as int];
        proof {
            assert(values == record.deep_view());
        }
        let mut victims: Vec<SplFinVictim> = Vec::new();
        let mut i: usize = 0;
        while i < SPL_VICTIM_COUNT
            invariant
                i <= SPL_VICTIM_COUNT,
                entry < self.document@.records.len(),
                values == self.document@.records[entry as int],
                values == record.deep_view(),
                victims.len() == i,
                forall|k: int| 0 <= k < i ==> holds_victim(values, k),
                forall|k: int| 0 <= k < i ==> (#[trigger] victims@[k])@ == victim_at(values, k),
            decreases SPL_VICTIM_COUNT - i,
        {
            let at = 6 + 3 * i;
            if record.len() < at + 3 {
                proof {
                    assert(!holds_victim(values, i as int));
                }
                return None;
            }
            let victim = match (&record[at], &record[at + 1], &record[at + 2]) {
                (Value::Int(id), Value::Bytes(name), Value::Bytes(texture)) => {
                    if *id > 0xFFFF_FFFF {
                        proof {
                            assert(!holds_victim(values, i as int));
                        }
                        return None;
                    }
                    SplFinVictim {
                        victim_player_setting_id: *id as u32,
                        victim_name: vstd::slice::slice_to_vec(name.as_slice()),
                        victim_texture_name: vstd::slice::slice_to_vec(texture.as_slice()),
                    }
                },
                _ => {
                    proof {
                        assert(!holds_victim(values, i as int));
                    }
                    return None;
                },
            };
            victims.push(victim);
            i += 1;
        }
        Some(victims)
    }
}

/// The victims are where the layout has them: for each a number of 32 bits and two
/// pooled strings.
pub proof fn lemma_victims_in_layout(i: int)
    requires
        0 <= i < SPL_VICTIM_COUNT,
    ensures
        layout().record.len() == 156,
        layout().record[victim_start(i)].kind == FieldKind::I32,
        layout().record[victim_start(i) + 1].kind == FieldKind::Pointer64,
        layout().record[victim_start(i) + 2].kind == FieldKind::Pointer64,
{
    reveal(layout);
}

} // verus!
