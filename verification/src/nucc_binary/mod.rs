//! Parsed chunks: one type for each format, and the value that holds any of them.

pub mod accessories_param;
pub mod accessory_exception_param;
pub mod accessory_param;
pub mod anime_song_bgm_param;
pub mod anm_offset;
pub mod bodacc;
pub mod chara_pose_param;
pub mod characode;
pub mod character_select_param;
pub mod combo_prm;
pub mod command_list_param;
pub mod costume_break_param;
pub mod costume_param;
pub mod dds;
pub mod dictionary_character_param;
pub mod dlc_info_param;
pub mod effectprm;
pub mod ev;
pub mod ev_spl;
pub mod final_sp_skill_cutin;
pub mod lua;
pub mod message_info;
pub mod ougi_finish_param;
pub mod player_double_effect_param;
pub mod player_icon;
pub mod player_setting_param;
pub mod png;
pub mod prm_bas;
pub mod prm_load;
pub mod prohibited_substring_param;
pub mod skill_index_setting_param;
pub mod snd;
pub mod staff_roll_text_param;
pub mod support_action_param;
pub mod support_skill_recovery_speed_param;
pub mod update_info_param;
pub mod xml;

pub use accessories_param::AccessoriesParam;
pub use accessory_exception_param::AccessoryExceptionParam;
pub use accessory_param::AccessoryParam;
pub use anime_song_bgm_param::AnimeSongBgmParam;
pub use anm_offset::Anmofs;
pub use bodacc::BodAcc;
pub use characode::Characode;
pub use chara_pose_param::CharaPoseParam;
pub use character_select_param::CharacterSelectParam;
pub use combo_prm::ComboPrm;
pub use command_list_param::CommandListParam;
pub use costume_break_param::CostumeBreakParam;
pub use costume_param::CostumeParam;
pub use dds::Dds;
pub use dictionary_character_param::DictionaryCharacterParam;
pub use dlc_info_param::DlcInfoParam;
pub use effectprm::EffectPrm;
pub use ev::Ev;
pub use ev_spl::EvSpl;
pub use final_sp_skill_cutin::FinalSpSkillCutIn;
pub use lua::Lua;
pub use message_info::MessageInfo;
pub use ougi_finish_param::OugiFinishParam;
pub use player_double_effect_param::PlayerDoubleEffectParam;
pub use player_setting_param::PlayerSettingParam;
pub use player_icon::PlayerIcon;
pub use png::Png;
pub use prm_bas::PrmBas;
pub use prm_load::PrmLoad;
pub use prohibited_substring_param::ProhibitedSubstringParam;
pub use skill_index_setting_param::SkillIndexSettingParam;
pub use snd::Snd;
pub use staff_roll_text_param::StaffRollTextParam;
pub use support_action_param::SupportActionParam;
pub use support_skill_recovery_speed_param::SupportSkillRecoverySpeedParam;
pub use update_info_param::UpdateInfoParam;
pub use xml::Xml;

use crate::binary_type::NuccBinaryType;
use crate::codec::{decode, decode_spec, encode, encode_spec, representable, tells_count};
use crate::document::{document_fits, Document, DocumentView};
use crate::error::CodecError;
use crate::layout::{DescriptorView, FormatDescriptor};
use crate::roundtrip::{canonical, lemma_decode_encode, lemma_encode_decode_encode};
use crate::text::{
    from_text, from_text_spec, lemma_from_text_to_text, text_fits, to_text, to_text_spec,
    TextDocument, TextDocumentView,
};
use vstd::pervasive::unreached;
use vstd::prelude::*;
use vstd::slice::slice_to_vec;

verus! {

/// The layout of the tables of a format; `None` for a format that is not a table of
/// records, or whose layout is not known.
pub open spec fn layout_of(tag: NuccBinaryType) -> Option<DescriptorView> {
    match tag {
        NuccBinaryType::AccessoriesParam => Some(accessories_param::layout()),
        NuccBinaryType::AccessoryExceptionParam => Some(accessory_exception_param::layout()),
        NuccBinaryType::AccessoryParam => Some(accessory_param::layout()),
        NuccBinaryType::AnimeSongBgmParam => Some(anime_song_bgm_param::layout()),
        NuccBinaryType::Anmofs => Some(anm_offset::layout()),
        NuccBinaryType::Characode => Some(characode::layout()),
        NuccBinaryType::CharaPoseParam => Some(chara_pose_param::layout()),
        NuccBinaryType::CharacterSelectParam => Some(character_select_param::layout()),
        NuccBinaryType::ComboPrm => Some(combo_prm::layout()),
        NuccBinaryType::CommandListParam => Some(command_list_param::layout()),
        NuccBinaryType::CostumeBreakParam => Some(costume_break_param::layout()),
        NuccBinaryType::CostumeParam => Some(costume_param::layout()),
        NuccBinaryType::DictionaryCharacterParam => Some(dictionary_character_param::layout()),
        NuccBinaryType::DlcInfoParam => Some(dlc_info_param::layout()),
        NuccBinaryType::EffectPrm => Some(effectprm::layout()),
        NuccBinaryType::Ev => Some(ev::layout()),
        NuccBinaryType::FinalSpSkillCutIn => Some(final_sp_skill_cutin::layout()),
        NuccBinaryType::MessageInfo => Some(message_info::layout()),
        NuccBinaryType::OugiFinishParam => Some(ougi_finish_param::layout()),
        NuccBinaryType::PlayerDoubleEffectParam => Some(player_double_effect_param::layout()),
        NuccBinaryType::PlayerSettingParam => Some(player_setting_param::layout()),
        NuccBinaryType::PlayerIcon => Some(player_icon::layout()),
        NuccBinaryType::PrmBas => Some(prm_bas::layout()),
        NuccBinaryType::PrmLoad => Some(prm_load::layout()),
        NuccBinaryType::ProhibitedSubstringParam => Some(prohibited_substring_param::layout()),
        NuccBinaryType::SkillIndexSettingParam => Some(skill_index_setting_param::layout()),
        NuccBinaryType::Snd => Some(snd::layout()),
        NuccBinaryType::StaffRollTextParam => Some(staff_roll_text_param::layout()),
        NuccBinaryType::SupportActionParam => Some(support_action_param::layout()),
        NuccBinaryType::SupportSkillRecoverySpeedParam => Some(
            support_skill_recovery_speed_param::layout(),
        ),
        NuccBinaryType::UpdateInfoParam => Some(update_info_param::layout()),
        NuccBinaryType::BodAcc
        | NuccBinaryType::Dds
        | NuccBinaryType::EvSpl
        | NuccBinaryType::Lua
        | NuccBinaryType::Png
        | NuccBinaryType::Xml => None,
    }
}

/// The layout of the tables of a format, as `layout_of` gives it.
pub fn descriptor(tag: NuccBinaryType) -> (d: Option<FormatDescriptor>)
    ensures
        d is Some <==> layout_of(tag) is Some,
        d is Some ==> d.unwrap()@ == layout_of(tag).unwrap(),
{
    match tag {
        NuccBinaryType::AccessoriesParam => Some(accessories_param::descriptor()),
        NuccBinaryType::AccessoryExceptionParam => Some(accessory_exception_param::descriptor()),
        NuccBinaryType::AccessoryParam => Some(accessory_param::descriptor()),
        NuccBinaryType::AnimeSongBgmParam => Some(anime_song_bgm_param::descriptor()),
        NuccBinaryType::Anmofs => Some(anm_offset::descriptor()),
        NuccBinaryType::Characode => Some(characode::descriptor()),
        NuccBinaryType::CharaPoseParam => Some(chara_pose_param::descriptor()),
        NuccBinaryType::CharacterSelectParam => Some(character_select_param::descriptor()),
        NuccBinaryType::ComboPrm => Some(combo_prm::descriptor()),
        NuccBinaryType::CommandListParam => Some(command_list_param::descriptor()),
        NuccBinaryType::CostumeBreakParam => Some(costume_break_param::descriptor()),
        NuccBinaryType::CostumeParam => Some(costume_param::descriptor()),
        NuccBinaryType::DictionaryCharacterParam => Some(dictionary_character_param::descriptor()),
        NuccBinaryType::DlcInfoParam => Some(dlc_info_param::descriptor()),
        NuccBinaryType::EffectPrm => Some(effectprm::descriptor()),
        NuccBinaryType::Ev => Some(ev::descriptor()),
        NuccBinaryType::FinalSpSkillCutIn => Some(final_sp_skill_cutin::descriptor()),
        NuccBinaryType::MessageInfo => Some(message_info::descriptor()),
        NuccBinaryType::OugiFinishParam => Some(ougi_finish_param::descriptor()),
        NuccBinaryType::PlayerDoubleEffectParam => Some(player_double_effect_param::descriptor()),
        NuccBinaryType::PlayerSettingParam => Some(player_setting_param::descriptor()),
        NuccBinaryType::PlayerIcon => Some(player_icon::descriptor()),
        NuccBinaryType::PrmBas => Some(prm_bas::descriptor()),
        NuccBinaryType::PrmLoad => Some(prm_load::descriptor()),
        NuccBinaryType::ProhibitedSubstringParam => Some(prohibited_substring_param::descriptor()),
        NuccBinaryType::SkillIndexSettingParam => Some(skill_index_setting_param::descriptor()),
        NuccBinaryType::Snd => Some(snd::descriptor()),
        NuccBinaryType::StaffRollTextParam => Some(staff_roll_text_param::descriptor()),
        NuccBinaryType::SupportActionParam => Some(support_action_param::descriptor()),
        NuccBinaryType::SupportSkillRecoverySpeedParam => Some(
            support_skill_recovery_speed_param::descriptor(),
        ),
        NuccBinaryType::UpdateInfoParam => Some(update_info_param::descriptor()),
        NuccBinaryType::BodAcc
        | NuccBinaryType::Dds
        | NuccBinaryType::EvSpl
        | NuccBinaryType::Lua
        | NuccBinaryType::Png
        | NuccBinaryType::Xml => None,
    }
}

/// A chunk after parsing: one variant for each format.
#[derive(Debug, Clone, PartialEq, Eq)]
pub enum NuccBinaryParsed {
    AccessoriesParam(AccessoriesParam),
    AccessoryExceptionParam(AccessoryExceptionParam),
    AccessoryParam(AccessoryParam),
    AnimeSongBgmParam(AnimeSongBgmParam),
    Anmofs(Anmofs),
    BodAcc(BodAcc),
    Characode(Characode),
    CharaPoseParam(CharaPoseParam),
    CharacterSelectParam(CharacterSelectParam),
    ComboPrm(ComboPrm),
    CommandListParam(CommandListParam),
    CostumeBreakParam(CostumeBreakParam),
    CostumeParam(CostumeParam),
    Dds(Dds),
    DictionaryCharacterParam(DictionaryCharacterParam),
    DlcInfoParam(DlcInfoParam),
    EffectPrm(EffectPrm),
    Ev(Ev),
    EvSpl(EvSpl),
    FinalSpSkillCutIn(FinalSpSkillCutIn),
    Lua(Lua),
    MessageInfo(MessageInfo),
    OugiFinishParam(OugiFinishParam),
    PlayerDoubleEffectParam(PlayerDoubleEffectParam),
    PlayerSettingParam(PlayerSettingParam),
    PlayerIcon(PlayerIcon),
    Png(Png),
    PrmBas(PrmBas),
    PrmLoad(PrmLoad),
    ProhibitedSubstringParam(ProhibitedSubstringParam),
    SkillIndexSettingParam(SkillIndexSettingParam),
    Snd(Snd),
    StaffRollTextParam(StaffRollTextParam),
    SupportActionParam(SupportActionParam),
    SupportSkillRecoverySpeedParam(SupportSkillRecoverySpeedParam),
    UpdateInfoParam(UpdateInfoParam),
    Xml(Xml),
}

/// A parsed chunk as mathematics sees it: a table with the tag of its format, or bytes
/// with the tag of theirs.
pub enum ParsedView {
    Table(NuccBinaryType, DocumentView),
    Blob(NuccBinaryType, Seq<u8>),
}

impl View for NuccBinaryParsed {
    type V = ParsedView;

    open spec fn view(&self) -> ParsedView {
        match self {
            NuccBinaryParsed::AccessoriesParam(t) => ParsedView::Table(
                NuccBinaryType::AccessoriesParam,
                t.document@,
            ),
            NuccBinaryParsed::AccessoryExceptionParam(t) => ParsedView::Table(
                NuccBinaryType::AccessoryExceptionParam,
                t.document@,
            ),
            NuccBinaryParsed::AccessoryParam(t) => ParsedView::Table(
                NuccBinaryType::AccessoryParam,
                t.document@,
            ),
            NuccBinaryParsed::AnimeSongBgmParam(t) => ParsedView::Table(
                NuccBinaryType::AnimeSongBgmParam,
                t.document@,
            ),
            NuccBinaryParsed::Anmofs(t) => ParsedView::Table(
                NuccBinaryType::Anmofs,
                t.document@,
            ),
            NuccBinaryParsed::BodAcc(b) => ParsedView::Blob(NuccBinaryType::BodAcc, b.file@),
            NuccBinaryParsed::Characode(t) => ParsedView::Table(
                NuccBinaryType::Characode,
                t.document@,
            ),
            NuccBinaryParsed::CharaPoseParam(t) => ParsedView::Table(
                NuccBinaryType::CharaPoseParam,
                t.document@,
            ),
            NuccBinaryParsed::CharacterSelectParam(t) => ParsedView::Table(
                NuccBinaryType::CharacterSelectParam,
                t.document@,
            ),
            NuccBinaryParsed::ComboPrm(t) => ParsedView::Table(
                NuccBinaryType::ComboPrm,
                t.document@,
            ),
            NuccBinaryParsed::CommandListParam(t) => ParsedView::Table(
                NuccBinaryType::CommandListParam,
                t.document@,
            ),
            NuccBinaryParsed::CostumeBreakParam(t) => ParsedView::Table(
                NuccBinaryType::CostumeBreakParam,
                t.document@,
            ),
            NuccBinaryParsed::CostumeParam(t) => ParsedView::Table(
                NuccBinaryType::CostumeParam,
                t.document@,
            ),
            NuccBinaryParsed::Dds(b) => ParsedView::Blob(NuccBinaryType::Dds, b.file@),
            NuccBinaryParsed::DictionaryCharacterParam(t) => ParsedView::Table(
                NuccBinaryType::DictionaryCharacterParam,
                t.document@,
            ),
            NuccBinaryParsed::DlcInfoParam(t) => ParsedView::Table(
                NuccBinaryType::DlcInfoParam,
                t.document@,
            ),
            NuccBinaryParsed::EffectPrm(t) => ParsedView::Table(
                NuccBinaryType::EffectPrm,
                t.document@,
            ),
            NuccBinaryParsed::Ev(t) => ParsedView::Table(
                NuccBinaryType::Ev,
                t.document@,
            ),
            NuccBinaryParsed::EvSpl(b) => ParsedView::Blob(NuccBinaryType::EvSpl, b.file@),
            NuccBinaryParsed::FinalSpSkillCutIn(t) => ParsedView::Table(
                NuccBinaryType::FinalSpSkillCutIn,
                t.document@,
            ),
            NuccBinaryParsed::Lua(b) => ParsedView::Blob(NuccBinaryType::Lua, b.file@),
            NuccBinaryParsed::MessageInfo(t) => ParsedView::Table(
                NuccBinaryType::MessageInfo,
                t.document@,
            ),
            NuccBinaryParsed::OugiFinishParam(t) => ParsedView::Table(
                NuccBinaryType::OugiFinishParam,
                t.document@,
            ),
            NuccBinaryParsed::PlayerDoubleEffectParam(t) => ParsedView::Table(
                NuccBinaryType::PlayerDoubleEffectParam,
                t.document@,
            ),
            NuccBinaryParsed::PlayerSettingParam(t) => ParsedView::Table(
                NuccBinaryType::PlayerSettingParam,
                t.document@,
            ),
            NuccBinaryParsed::PlayerIcon(t) => ParsedView::Table(
                NuccBinaryType::PlayerIcon,
                t.document@,
            ),
            NuccBinaryParsed::Png(b) => ParsedView::Blob(NuccBinaryType::Png, b.file@),
            NuccBinaryParsed::PrmBas(t) => ParsedView::Table(
                NuccBinaryType::PrmBas,
                t.document@,
            ),
            NuccBinaryParsed::PrmLoad(t) => ParsedView::Table(
                NuccBinaryType::PrmLoad,
                t.document@,
            ),
            NuccBinaryParsed::ProhibitedSubstringParam(t) => ParsedView::Table(
                NuccBinaryType::ProhibitedSubstringParam,
                t.document@,
            ),
            NuccBinaryParsed::SkillIndexSettingParam(t) => ParsedView::Table(
                NuccBinaryType::SkillIndexSettingParam,
                t.document@,
            ),
            NuccBinaryParsed::Snd(t) => ParsedView::Table(
                NuccBinaryType::Snd,
                t.document@,
            ),
            NuccBinaryParsed::StaffRollTextParam(t) => ParsedView::Table(
                NuccBinaryType::StaffRollTextParam,
                t.document@,
            ),
            NuccBinaryParsed::SupportActionParam(t) => ParsedView::Table(
                NuccBinaryType::SupportActionParam,
                t.document@,
            ),
            NuccBinaryParsed::SupportSkillRecoverySpeedParam(t) => ParsedView::Table(
                NuccBinaryType::SupportSkillRecoverySpeedParam,
                t.document@,
            ),
            NuccBinaryParsed::UpdateInfoParam(t) => ParsedView::Table(
                NuccBinaryType::UpdateInfoParam,
                t.document@,
            ),
            NuccBinaryParsed::Xml(b) => ParsedView::Blob(NuccBinaryType::Xml, b.file@),
        }
    }
}

/// The format of a parsed chunk.
pub open spec fn tag_of(parsed: ParsedView) -> NuccBinaryType {
    match parsed {
        ParsedView::Table(tag, _) => tag,
        ParsedView::Blob(tag, _) => tag,
    }
}

/// True when the chunk is a table exactly if its format has a layout.
pub open spec fn well_tagged(parsed: ParsedView) -> bool {
    match parsed {
        ParsedView::Table(tag, _) => layout_of(tag) is Some,
        ParsedView::Blob(tag, _) => layout_of(tag) is None,
    }
}

/// What the bytes of a chunk of format `tag` parse to: the decoded table where the
/// format has a layout, else the bytes themselves.
pub open spec fn parse_spec(tag: NuccBinaryType, bytes: Seq<u8>) -> Result<
    ParsedView,
    CodecError,
> {
    match layout_of(tag) {
        Some(d) => match decode_spec(d, bytes) {
            Ok(doc) => Ok(ParsedView::Table(tag, doc)),
            Err(e) => Err(e),
        },
        None => Ok(ParsedView::Blob(tag, bytes)),
    }
}

/// The extension of the file that a chunk is unpacked to: `.json` for a table, the
/// chunk's own kind for a texture, a script, an image or markup, `.bin` for other bytes.
pub open spec fn extension_of(parsed: ParsedView) -> Seq<char> {
    match parsed {
        ParsedView::Table(_, _) => ".json"@,
        ParsedView::Blob(tag, _) => match tag {
            NuccBinaryType::Dds => ".dds"@,
            NuccBinaryType::Lua => ".lua"@,
            NuccBinaryType::Png => ".png"@,
            NuccBinaryType::Xml => ".xml"@,
            _ => ".bin"@,
        },
    }
}

/// True when a parsed chunk has an editable form: a table of a format that has a layout
/// which the document fits, or bytes.
pub open spec fn serializable(parsed: ParsedView) -> bool {
    match parsed {
        ParsedView::Table(tag, doc) => layout_of(tag) is Some && document_fits(
            layout_of(tag).unwrap(),
            doc,
        ),
        ParsedView::Blob(_, _) => true,
    }
}

/// True when a parsed chunk can be written: a table whose format has a layout that the
/// document fits and whose numbers all fit their fields, or bytes.
pub open spec fn writable(parsed: ParsedView) -> bool {
    match parsed {
        ParsedView::Table(tag, doc) => layout_of(tag) is Some && document_fits(
            layout_of(tag).unwrap(),
            doc,
        ) && representable(layout_of(tag).unwrap(), doc),
        ParsedView::Blob(_, _) => true,
    }
}

/// The bytes of the chunk that a parsed chunk is written to.
pub open spec fn write_spec(parsed: ParsedView) -> Seq<u8> {
    match parsed {
        ParsedView::Table(tag, doc) => encode_spec(layout_of(tag).unwrap(), doc),
        ParsedView::Blob(_, bytes) => bytes,
    }
}

/// A parsed chunk as it comes back from writing and parsing: a table in its canonical
/// form, bytes as they are.
pub open spec fn canonical_parsed(parsed: ParsedView) -> ParsedView {
    match parsed {
        ParsedView::Table(tag, doc) => ParsedView::Table(
            tag,
            canonical(layout_of(tag).unwrap(), doc),
        ),
        ParsedView::Blob(_, _) => parsed,
    }
}

/// The editable form of a chunk: that of a table, or the chunk's bytes.
#[derive(Debug, Clone, PartialEq, Eq)]
pub enum Serialized {
    Table(TextDocument),
    Raw(Vec<u8>),
}

/// The editable form of a chunk as mathematics sees it.
pub enum SerializedView {
    Table(TextDocumentView),
    Raw(Seq<u8>),
}

impl View for Serialized {
    type V = SerializedView;

    open spec fn view(&self) -> SerializedView {
        match self {
            Serialized::Table(text) => SerializedView::Table(text@),
            Serialized::Raw(bytes) => SerializedView::Raw(bytes@),
        }
    }
}

/// The editable form of a parsed chunk.
pub open spec fn serialize_spec(parsed: ParsedView) -> SerializedView {
    match parsed {
        ParsedView::Table(tag, doc) => SerializedView::Table(
            to_text_spec(layout_of(tag).unwrap(), doc),
        ),
        ParsedView::Blob(_, bytes) => SerializedView::Raw(bytes),
    }
}

/// The chunk of format `tag` that an editable form stands for: a table where the format
/// has a layout and the editable form is one of its shape, bytes where the format has
/// none and the editable form is bytes; `TextParseError` otherwise.
pub open spec fn deserialize_spec(tag: NuccBinaryType, edited: SerializedView) -> Result<
    ParsedView,
    CodecError,
> {
    match (layout_of(tag), edited) {
        (Some(d), SerializedView::Table(text)) => if text_fits(d, text) {
            Ok(ParsedView::Table(tag, from_text_spec(d, text)))
        } else {
            Err(CodecError::TextParseError)
        },
        (None, SerializedView::Raw(bytes)) => Ok(ParsedView::Blob(tag, bytes)),
        _ => Err(CodecError::TextParseError),
    }
}

/// What a parsed chunk holds, without the type of its format: a table with the tag of
/// its format, or bytes with the tag of theirs.
#[derive(Debug, Clone, PartialEq, Eq)]
pub enum Content {
    Table(NuccBinaryType, Document),
    Blob(NuccBinaryType, Vec<u8>),
}

impl View for Content {
    type V = ParsedView;

    open spec fn view(&self) -> ParsedView {
        match self {
            Content::Table(tag, doc) => ParsedView::Table(*tag, doc@),
            Content::Blob(tag, bytes) => ParsedView::Blob(*tag, bytes@),
        }
    }
}

impl NuccBinaryParsed {
    /// The format of the chunk.
    pub fn binary_type(&self) -> (tag: NuccBinaryType)
        ensures
            tag == tag_of(self@),
    {
        match self {
            NuccBinaryParsed::AccessoriesParam(x) => x.binary_type(),
            NuccBinaryParsed::AccessoryExceptionParam(x) => x.binary_type(),
            NuccBinaryParsed::AccessoryParam(x) => x.binary_type(),
            NuccBinaryParsed::AnimeSongBgmParam(x) => x.binary_type(),
            NuccBinaryParsed::Anmofs(x) => x.binary_type(),
            NuccBinaryParsed::BodAcc(x) => x.binary_type(),
            NuccBinaryParsed::Characode(x) => x.binary_type(),
            NuccBinaryParsed::CharaPoseParam(x) => x.binary_type(),
            NuccBinaryParsed::CharacterSelectParam(x) => x.binary_type(),
            NuccBinaryParsed::ComboPrm(x) => x.binary_type(),
            NuccBinaryParsed::CommandListParam(x) => x.binary_type(),
            NuccBinaryParsed::CostumeBreakParam(x) => x.binary_type(),
            NuccBinaryParsed::CostumeParam(x) => x.binary_type(),
            NuccBinaryParsed::Dds(x) => x.binary_type(),
            NuccBinaryParsed::DictionaryCharacterParam(x) => x.binary_type(),
            NuccBinaryParsed::DlcInfoParam(x) => x.binary_type(),
            NuccBinaryParsed::EffectPrm(x) => x.binary_type(),
            NuccBinaryParsed::Ev(x) => x.binary_type(),
            NuccBinaryParsed::EvSpl(x) => x.binary_type(),
            NuccBinaryParsed::FinalSpSkillCutIn(x) => x.binary_type(),
            NuccBinaryParsed::Lua(x) => x.binary_type(),
            NuccBinaryParsed::MessageInfo(x) => x.binary_type(),
            NuccBinaryParsed::OugiFinishParam(x) => x.binary_type(),
            NuccBinaryParsed::PlayerDoubleEffectParam(x) => x.binary_type(),
            NuccBinaryParsed::PlayerSettingParam(x) => x.binary_type(),
            NuccBinaryParsed::PlayerIcon(x) => x.binary_type(),
            NuccBinaryParsed::Png(x) => x.binary_type(),
            NuccBinaryParsed::PrmBas(x) => x.binary_type(),
            NuccBinaryParsed::PrmLoad(x) => x.binary_type(),
            NuccBinaryParsed::ProhibitedSubstringParam(x) => x.binary_type(),
            NuccBinaryParsed::SkillIndexSettingParam(x) => x.binary_type(),
            NuccBinaryParsed::Snd(x) => x.binary_type(),
            NuccBinaryParsed::StaffRollTextParam(x) => x.binary_type(),
            NuccBinaryParsed::SupportActionParam(x) => x.binary_type(),
            NuccBinaryParsed::SupportSkillRecoverySpeedParam(x) => x.binary_type(),
            NuccBinaryParsed::UpdateInfoParam(x) => x.binary_type(),
            NuccBinaryParsed::Xml(x) => x.binary_type(),
        }
    }

    /// The extension of the file that the chunk is unpacked to.
    pub fn extension(&self) -> (ext: String)
        ensures
            ext@ == extension_of(self@),
    {
        match self {
            NuccBinaryParsed::AccessoriesParam(x) => x.extension(),
            NuccBinaryParsed::AccessoryExceptionParam(x) => x.extension(),
            NuccBinaryParsed::AccessoryParam(x) => x.extension(),
            NuccBinaryParsed::AnimeSongBgmParam(x) => x.extension(),
            NuccBinaryParsed::Anmofs(x) => x.extension(),
            NuccBinaryParsed::BodAcc(x) => x.extension(),
            NuccBinaryParsed::Characode(x) => x.extension(),
            NuccBinaryParsed::CharaPoseParam(x) => x.extension(),
            NuccBinaryParsed::CharacterSelectParam(x) => x.extension(),
            NuccBinaryParsed::ComboPrm(x) => x.extension(),
            NuccBinaryParsed::CommandListParam(x) => x.extension(),
            NuccBinaryParsed::CostumeBreakParam(x) => x.extension(),
            NuccBinaryParsed::CostumeParam(x) => x.extension(),
            NuccBinaryParsed::Dds(x) => x.extension(),
            NuccBinaryParsed::DictionaryCharacterParam(x) => x.extension(),
            NuccBinaryParsed::DlcInfoParam(x) => x.extension(),
            NuccBinaryParsed::EffectPrm(x) => x.extension(),
            NuccBinaryParsed::Ev(x) => x.extension(),
            NuccBinaryParsed::EvSpl(x) => x.extension(),
            NuccBinaryParsed::FinalSpSkillCutIn(x) => x.extension(),
            NuccBinaryParsed::Lua(x) => x.extension(),
            NuccBinaryParsed::MessageInfo(x) => x.extension(),
            NuccBinaryParsed::OugiFinishParam(x) => x.extension(),
            NuccBinaryParsed::PlayerDoubleEffectParam(x) => x.extension(),
            NuccBinaryParsed::PlayerSettingParam(x) => x.extension(),
            NuccBinaryParsed::PlayerIcon(x) => x.extension(),
            NuccBinaryParsed::Png(x) => x.extension(),
            NuccBinaryParsed::PrmBas(x) => x.extension(),
            NuccBinaryParsed::PrmLoad(x) => x.extension(),
            NuccBinaryParsed::ProhibitedSubstringParam(x) => x.extension(),
            NuccBinaryParsed::SkillIndexSettingParam(x) => x.extension(),
            NuccBinaryParsed::Snd(x) => x.extension(),
            NuccBinaryParsed::StaffRollTextParam(x) => x.extension(),
            NuccBinaryParsed::SupportActionParam(x) => x.extension(),
            NuccBinaryParsed::SupportSkillRecoverySpeedParam(x) => x.extension(),
            NuccBinaryParsed::UpdateInfoParam(x) => x.extension(),
            NuccBinaryParsed::Xml(x) => x.extension(),
        }
    }

    /// What the chunk holds, without the type of its format.
    pub fn into_content(self) -> (content: Content)
        ensures
            content@ == self@,
    {
        match self {
            NuccBinaryParsed::AccessoriesParam(x) => Content::Table(
                NuccBinaryType::AccessoriesParam,
                x.document,
            ),
            NuccBinaryParsed::AccessoryExceptionParam(x) => Content::Table(
                NuccBinaryType::AccessoryExceptionParam,
                x.document,
            ),
            NuccBinaryParsed::AccessoryParam(x) => Content::Table(
                NuccBinaryType::AccessoryParam,
                x.document,
            ),
            NuccBinaryParsed::AnimeSongBgmParam(x) => Content::Table(
                NuccBinaryType::AnimeSongBgmParam,
                x.document,
            ),
            NuccBinaryParsed::Anmofs(x) => Content::Table(
                NuccBinaryType::Anmofs,
                x.document,
            ),
            NuccBinaryParsed::BodAcc(x) => Content::Blob(NuccBinaryType::BodAcc, x.file),
            NuccBinaryParsed::Characode(x) => Content::Table(
                NuccBinaryType::Characode,
                x.document,
            ),
            NuccBinaryParsed::CharaPoseParam(x) => Content::Table(
                NuccBinaryType::CharaPoseParam,
                x.document,
            ),
            NuccBinaryParsed::CharacterSelectParam(x) => Content::Table(
                NuccBinaryType::CharacterSelectParam,
                x.document,
            ),
            NuccBinaryParsed::ComboPrm(x) => Content::Table(
                NuccBinaryType::ComboPrm,
                x.document,
            ),
            NuccBinaryParsed::CommandListParam(x) => Content::Table(
                NuccBinaryType::CommandListParam,
                x.document,
            ),
            NuccBinaryParsed::CostumeBreakParam(x) => Content::Table(
                NuccBinaryType::CostumeBreakParam,
                x.document,
            ),
            NuccBinaryParsed::CostumeParam(x) => Content::Table(
                NuccBinaryType::CostumeParam,
                x.document,
            ),
            NuccBinaryParsed::Dds(x) => Content::Blob(NuccBinaryType::Dds, x.file),
            NuccBinaryParsed::DictionaryCharacterParam(x) => Content::Table(
                NuccBinaryType::DictionaryCharacterParam,
                x.document,
            ),
            NuccBinaryParsed::DlcInfoParam(x) => Content::Table(
                NuccBinaryType::DlcInfoParam,
                x.document,
            ),
            NuccBinaryParsed::EffectPrm(x) => Content::Table(
                NuccBinaryType::EffectPrm,
                x.document,
            ),
            NuccBinaryParsed::Ev(x) => Content::Table(
                NuccBinaryType::Ev,
                x.document,
            ),
            NuccBinaryParsed::EvSpl(x) => Content::Blob(NuccBinaryType::EvSpl, x.file),
            NuccBinaryParsed::FinalSpSkillCutIn(x) => Content::Table(
                NuccBinaryType::FinalSpSkillCutIn,
                x.document,
            ),
            NuccBinaryParsed::Lua(x) => Content::Blob(NuccBinaryType::Lua, x.file),
            NuccBinaryParsed::MessageInfo(x) => Content::Table(
                NuccBinaryType::MessageInfo,
                x.document,
            ),
            NuccBinaryParsed::OugiFinishParam(x) => Content::Table(
                NuccBinaryType::OugiFinishParam,
                x.document,
            ),
            NuccBinaryParsed::PlayerDoubleEffectParam(x) => Content::Table(
                NuccBinaryType::PlayerDoubleEffectParam,
                x.document,
            ),
            NuccBinaryParsed::PlayerSettingParam(x) => Content::Table(
                NuccBinaryType::PlayerSettingParam,
                x.document,
            ),
            NuccBinaryParsed::PlayerIcon(x) => Content::Table(
                NuccBinaryType::PlayerIcon,
                x.document,
            ),
            NuccBinaryParsed::Png(x) => Content::Blob(NuccBinaryType::Png, x.file),
            NuccBinaryParsed::PrmBas(x) => Content::Table(
                NuccBinaryType::PrmBas,
                x.document,
            ),
            NuccBinaryParsed::PrmLoad(x) => Content::Table(
                NuccBinaryType::PrmLoad,
                x.document,
            ),
            NuccBinaryParsed::ProhibitedSubstringParam(x) => Content::Table(
                NuccBinaryType::ProhibitedSubstringParam,
                x.document,
            ),
            NuccBinaryParsed::SkillIndexSettingParam(x) => Content::Table(
                NuccBinaryType::SkillIndexSettingParam,
                x.document,
            ),
            NuccBinaryParsed::Snd(x) => Content::Table(
                NuccBinaryType::Snd,
                x.document,
            ),
            NuccBinaryParsed::StaffRollTextParam(x) => Content::Table(
                NuccBinaryType::StaffRollTextParam,
                x.document,
            ),
            NuccBinaryParsed::SupportActionParam(x) => Content::Table(
                NuccBinaryType::SupportActionParam,
                x.document,
            ),
            NuccBinaryParsed::SupportSkillRecoverySpeedParam(x) => Content::Table(
                NuccBinaryType::SupportSkillRecoverySpeedParam,
                x.document,
            ),
            NuccBinaryParsed::UpdateInfoParam(x) => Content::Table(
                NuccBinaryType::UpdateInfoParam,
                x.document,
            ),
            NuccBinaryParsed::Xml(x) => Content::Blob(NuccBinaryType::Xml, x.file),
        }
    }

    /// The parsed chunk that holds this content; `None` for a table under a format that
    /// has no layout, and for bytes under a format that has one.
    pub fn from_content(content: Content) -> (parsed: Option<NuccBinaryParsed>)
        ensures
            parsed is Some <==> well_tagged(content@),
            parsed is Some ==> parsed.unwrap()@ == content@,
    {
        match content {
            Content::Table(tag, document) => match tag {
                NuccBinaryType::AccessoriesParam => Some(
                    NuccBinaryParsed::AccessoriesParam(AccessoriesParam { document }),
                ),
                NuccBinaryType::AccessoryExceptionParam => Some(
                    NuccBinaryParsed::AccessoryExceptionParam(
                        AccessoryExceptionParam { document },
                    ),
                ),
                NuccBinaryType::AccessoryParam => Some(
                    NuccBinaryParsed::AccessoryParam(AccessoryParam { document }),
                ),
                NuccBinaryType::AnimeSongBgmParam => Some(
                    NuccBinaryParsed::AnimeSongBgmParam(AnimeSongBgmParam { document }),
                ),
                NuccBinaryType::Anmofs => Some(
                    NuccBinaryParsed::Anmofs(Anmofs { document }),
                ),
                NuccBinaryType::Characode => Some(
                    NuccBinaryParsed::Characode(Characode { document }),
                ),
                NuccBinaryType::CharaPoseParam => Some(
                    NuccBinaryParsed::CharaPoseParam(CharaPoseParam { document }),
                ),
                NuccBinaryType::CharacterSelectParam => Some(
                    NuccBinaryParsed::CharacterSelectParam(CharacterSelectParam { document }),
                ),
                NuccBinaryType::ComboPrm => Some(
                    NuccBinaryParsed::ComboPrm(ComboPrm { document }),
                ),
                NuccBinaryType::CommandListParam => Some(
                    NuccBinaryParsed::CommandListParam(CommandListParam { document }),
                ),
                NuccBinaryType::CostumeBreakParam => Some(
                    NuccBinaryParsed::CostumeBreakParam(CostumeBreakParam { document }),
                ),
                NuccBinaryType::CostumeParam => Some(
                    NuccBinaryParsed::CostumeParam(CostumeParam { document }),
                ),
                NuccBinaryType::DictionaryCharacterParam => Some(
                    NuccBinaryParsed::DictionaryCharacterParam(
                        DictionaryCharacterParam { document },
                    ),
                ),
                NuccBinaryType::DlcInfoParam => Some(
                    NuccBinaryParsed::DlcInfoParam(DlcInfoParam { document }),
                ),
                NuccBinaryType::EffectPrm => Some(
                    NuccBinaryParsed::EffectPrm(EffectPrm { document }),
                ),
                NuccBinaryType::Ev => Some(
                    NuccBinaryParsed::Ev(Ev { document }),
                ),
                NuccBinaryType::FinalSpSkillCutIn => Some(
                    NuccBinaryParsed::FinalSpSkillCutIn(FinalSpSkillCutIn { document }),
                ),
                NuccBinaryType::MessageInfo => Some(
                    NuccBinaryParsed::MessageInfo(MessageInfo { document }),
                ),
                NuccBinaryType::OugiFinishParam => Some(
                    NuccBinaryParsed::OugiFinishParam(OugiFinishParam { document }),
                ),
                NuccBinaryType::PlayerDoubleEffectParam => Some(
                    NuccBinaryParsed::PlayerDoubleEffectParam(
                        PlayerDoubleEffectParam { document },
                    ),
                ),
                NuccBinaryType::PlayerSettingParam => Some(
                    NuccBinaryParsed::PlayerSettingParam(PlayerSettingParam { document }),
                ),
                NuccBinaryType::PlayerIcon => Some(
                    NuccBinaryParsed::PlayerIcon(PlayerIcon { document }),
                ),
                NuccBinaryType::PrmBas => Some(
                    NuccBinaryParsed::PrmBas(PrmBas { document }),
                ),
                NuccBinaryType::PrmLoad => Some(
                    NuccBinaryParsed::PrmLoad(PrmLoad { document }),
                ),
                NuccBinaryType::ProhibitedSubstringParam => Some(
                    NuccBinaryParsed::ProhibitedSubstringParam(
                        ProhibitedSubstringParam { document },
                    ),
                ),
                NuccBinaryType::SkillIndexSettingParam => Some(
                    NuccBinaryParsed::SkillIndexSettingParam(SkillIndexSettingParam { document }),
                ),
                NuccBinaryType::Snd => Some(
                    NuccBinaryParsed::Snd(Snd { document }),
                ),
                NuccBinaryType::StaffRollTextParam => Some(
                    NuccBinaryParsed::StaffRollTextParam(StaffRollTextParam { document }),
                ),
                NuccBinaryType::SupportActionParam => Some(
                    NuccBinaryParsed::SupportActionParam(SupportActionParam { document }),
                ),
                NuccBinaryType::SupportSkillRecoverySpeedParam => Some(
                    NuccBinaryParsed::SupportSkillRecoverySpeedParam(
                        SupportSkillRecoverySpeedParam { document },
                    ),
                ),
                NuccBinaryType::UpdateInfoParam => Some(
                    NuccBinaryParsed::UpdateInfoParam(UpdateInfoParam { document }),
                ),
                _ => None,
            },
            Content::Blob(tag, file) => match tag {
                NuccBinaryType::BodAcc => Some(NuccBinaryParsed::BodAcc(BodAcc { file })),
                NuccBinaryType::Dds => Some(NuccBinaryParsed::Dds(Dds { file })),
                NuccBinaryType::EvSpl => Some(NuccBinaryParsed::EvSpl(EvSpl { file })),
                NuccBinaryType::Lua => Some(NuccBinaryParsed::Lua(Lua { file })),
                NuccBinaryType::Png => Some(NuccBinaryParsed::Png(Png { file })),
                NuccBinaryType::Xml => Some(NuccBinaryParsed::Xml(Xml { file })),
                _ => None,
            },
        }
    }
}

/// Every parsed chunk is a table exactly if its format has a layout: each kind of
/// chunk has the variant of its format and no other.
pub proof fn lemma_well_tagged(parsed: NuccBinaryParsed)
    ensures
        well_tagged(parsed@),
{
}

/// The bytes of a chunk together with the format they are in.
pub struct NuccBinaryParsedReader<'a>(pub NuccBinaryType, pub &'a [u8]);

impl<'a> NuccBinaryParsedReader<'a> {
    /// Parses the chunk: decodes the table, or keeps the bytes.
    pub fn parse(self) -> (r: Result<NuccBinaryParsed, CodecError>)
        ensures
            match parse_spec(self.0, self.1@) {
                Ok(v) => r is Ok && r.unwrap()@ == v,
                Err(e) => r == Err::<NuccBinaryParsed, CodecError>(e),
            },
            r is Ok ==> serializable(r.unwrap()@),
    {
        let tag = self.0;
        let content = match descriptor(tag) {
            Some(d) => match decode(self.1, &d) {
                Ok(doc) => Content::Table(tag, doc),
                Err(e) => { return Err(e); },
            },
            None => Content::Blob(tag, slice_to_vec(self.1)),
        };
        // a table of a format with a layout, or bytes of one without: such there is
        match NuccBinaryParsed::from_content(content) {
            Some(parsed) => Ok(parsed),
            None => unreached(),
        }
    }
}

/// A parsed chunk on its way back into the archive.
pub struct NuccBinaryParsedWriter(pub NuccBinaryParsed);

impl NuccBinaryParsedWriter {
    /// The bytes of the chunk: the encoded table, or the bytes that were kept. Fails when
    /// the table cannot be written.
    pub fn write(self) -> (r: Result<Vec<u8>, CodecError>)
        ensures
            match r {
                Ok(bytes) => writable(self.0@) && bytes@ == write_spec(self.0@),
                Err(e) => e == CodecError::TextParseError && !writable(self.0@),
            },
    {
        match self.0.into_content() {
            Content::Table(tag, doc) => match descriptor(tag) {
                Some(d) => encode(&d, &doc),
                None => Err(CodecError::TextParseError),
            },
            Content::Blob(_, bytes) => Ok(bytes),
        }
    }
}

/// A parsed chunk on its way to its editable form.
pub struct NuccBinaryParsedSerializer(pub NuccBinaryParsed);

impl NuccBinaryParsedSerializer {
    /// The editable form of the chunk. Fails when the chunk is a table that does not
    /// have the shape of its format.
    pub fn serialize(self) -> (r: Result<Serialized, CodecError>)
        ensures
            match r {
                Ok(edited) => serializable(self.0@) && edited@ == serialize_spec(self.0@),
                Err(e) => e == CodecError::TextParseError && !serializable(self.0@),
            },
    {
        match self.0.into_content() {
            Content::Table(tag, doc) => match descriptor(tag) {
                Some(d) => match to_text(&d, &doc) {
                    Ok(text) => Ok(Serialized::Table(text)),
                    Err(e) => Err(e),
                },
                None => Err(CodecError::TextParseError),
            },
            Content::Blob(_, bytes) => Ok(Serialized::Raw(bytes)),
        }
    }
}

/// The editable form of a chunk together with the format it is in.
#[derive(Debug)]
pub struct NuccBinaryParsedDeserializer(pub NuccBinaryType, pub Serialized);

impl NuccBinaryParsedDeserializer {
    /// The chunk that the editable form stands for, as `deserialize_spec` gives it.
    pub fn deserialize(self) -> (r: Result<NuccBinaryParsed, CodecError>)
        ensures
            match deserialize_spec(self.0, self.1@) {
                Ok(v) => r is Ok && r.unwrap()@ == v,
                Err(e) => r == Err::<NuccBinaryParsed, CodecError>(e),
            },
    {
        let tag = self.0;
        let content = match self.1 {
            Serialized::Table(text) => match descriptor(tag) {
                Some(d) => match from_text(&d, &text) {
                    Ok(doc) => Content::Table(tag, doc),
                    Err(e) => { return Err(e); },
                },
                None => { return Err(CodecError::TextParseError); },
            },
            Serialized::Raw(bytes) => Content::Blob(tag, bytes),
        };
        match NuccBinaryParsed::from_content(content) {
            Some(parsed) => Ok(parsed),
            None => Err(CodecError::TextParseError),
        }
    }
}

/// Every layout of the table tells how many records a table has.
pub proof fn lemma_layouts_tell_count(tag: NuccBinaryType)
    requires
        layout_of(tag) is Some,
    ensures
        tells_count(layout_of(tag).unwrap()),
{
    match tag {
        NuccBinaryType::AccessoriesParam => {
            accessories_param::lemma_tells_count();
        },
        NuccBinaryType::AccessoryExceptionParam => {
            accessory_exception_param::lemma_tells_count();
        },
        NuccBinaryType::AccessoryParam => {
            accessory_param::lemma_tells_count();
        },
        NuccBinaryType::AnimeSongBgmParam => {
            anime_song_bgm_param::lemma_tells_count();
        },
        NuccBinaryType::Anmofs => {
            anm_offset::lemma_tells_count();
        },
        NuccBinaryType::Characode => {
            characode::lemma_tells_count();
        },
        NuccBinaryType::CharaPoseParam => {
            chara_pose_param::lemma_tells_count();
        },
        NuccBinaryType::CharacterSelectParam => {
            character_select_param::lemma_tells_count();
        },
        NuccBinaryType::ComboPrm => {
            combo_prm::lemma_tells_count();
        },
        NuccBinaryType::CommandListParam => {
            command_list_param::lemma_tells_count();
        },
        NuccBinaryType::CostumeBreakParam => {
            costume_break_param::lemma_tells_count();
        },
        NuccBinaryType::CostumeParam => {
            costume_param::lemma_tells_count();
        },
        NuccBinaryType::DictionaryCharacterParam => {
            dictionary_character_param::lemma_tells_count();
        },
        NuccBinaryType::DlcInfoParam => {
            dlc_info_param::lemma_tells_count();
        },
        NuccBinaryType::EffectPrm => {
            effectprm::lemma_tells_count();
        },
        NuccBinaryType::Ev => {
            ev::lemma_tells_count();
        },
        NuccBinaryType::FinalSpSkillCutIn => {
            final_sp_skill_cutin::lemma_tells_count();
        },
        NuccBinaryType::MessageInfo => {
            message_info::lemma_tells_count();
        },
        NuccBinaryType::OugiFinishParam => {
            ougi_finish_param::lemma_tells_count();
        },
        NuccBinaryType::PlayerDoubleEffectParam => {
            player_double_effect_param::lemma_tells_count();
        },
        NuccBinaryType::PlayerSettingParam => {
            player_setting_param::lemma_tells_count();
        },
        NuccBinaryType::PlayerIcon => {
            player_icon::lemma_tells_count();
        },
        NuccBinaryType::PrmBas => {
            prm_bas::lemma_tells_count();
        },
        NuccBinaryType::PrmLoad => {
            prm_load::lemma_tells_count();
        },
        NuccBinaryType::ProhibitedSubstringParam => {
            prohibited_substring_param::lemma_tells_count();
        },
        NuccBinaryType::SkillIndexSettingParam => {
            skill_index_setting_param::lemma_tells_count();
        },
        NuccBinaryType::Snd => {
            snd::lemma_tells_count();
        },
        NuccBinaryType::StaffRollTextParam => {
            staff_roll_text_param::lemma_tells_count();
        },
        NuccBinaryType::SupportActionParam => {
            support_action_param::lemma_tells_count();
        },
        NuccBinaryType::SupportSkillRecoverySpeedParam => {
            support_skill_recovery_speed_param::lemma_tells_count();
        },
        NuccBinaryType::UpdateInfoParam => {
            update_info_param::lemma_tells_count();
        },
        _ => {},
    }
}

/// For every format: parsing what was written gives the chunk back, a table in its
/// canonical form.
pub proof fn lemma_parse_write(parsed: ParsedView)
    requires
        well_tagged(parsed),
        writable(parsed),
    ensures
        parse_spec(tag_of(parsed), write_spec(parsed)) == Ok::<ParsedView, CodecError>(
            canonical_parsed(parsed),
        ),
{
    match parsed {
        ParsedView::Table(tag, doc) => {
            lemma_layouts_tell_count(tag);
            lemma_decode_encode(layout_of(tag).unwrap(), doc);
        },
        ParsedView::Blob(_, _) => {},
    }
}

/// For every format: a chunk that was written is stable. Parsing it and writing what
/// was parsed gives the same bytes again.
pub proof fn lemma_write_parse_write(parsed: ParsedView)
    requires
        well_tagged(parsed),
        writable(parsed),
    ensures
        parse_spec(tag_of(parsed), write_spec(parsed)) is Ok,
        well_tagged(parse_spec(tag_of(parsed), write_spec(parsed))->Ok_0),
        writable(parse_spec(tag_of(parsed), write_spec(parsed))->Ok_0),
        write_spec(parse_spec(tag_of(parsed), write_spec(parsed))->Ok_0) == write_spec(parsed),
{
    match parsed {
        ParsedView::Table(tag, doc) => {
            lemma_layouts_tell_count(tag);
            lemma_encode_decode_encode(layout_of(tag).unwrap(), doc);
        },
        ParsedView::Blob(_, _) => {},
    }
}

/// For every format: the editable form of a chunk stands for a chunk that is written
/// to the same bytes. What is hidden in the editable form is what writing works out anew.
pub proof fn lemma_deserialize_serialize(parsed: ParsedView)
    requires
        well_tagged(parsed),
        serializable(parsed),
    ensures
        deserialize_spec(tag_of(parsed), serialize_spec(parsed)) is Ok,
        well_tagged(deserialize_spec(tag_of(parsed), serialize_spec(parsed))->Ok_0),
        writable(deserialize_spec(tag_of(parsed), serialize_spec(parsed))->Ok_0) == writable(
            parsed,
        ),
        write_spec(deserialize_spec(tag_of(parsed), serialize_spec(parsed))->Ok_0) == write_spec(
            parsed,
        ),
{
    match parsed {
        ParsedView::Table(tag, doc) => {
            lemma_from_text_to_text(layout_of(tag).unwrap(), doc);
        },
        ParsedView::Blob(_, _) => {},
    }
}

/// For every format: a chunk that was written, unpacked to its editable form and packed
/// again with nothing edited, is the same bytes again.
pub proof fn lemma_unedited_chunk_is_stable(parsed: ParsedView)
    requires
        well_tagged(parsed),
        writable(parsed),
    ensures
        parse_spec(tag_of(parsed), write_spec(parsed)) is Ok,
        deserialize_spec(
            tag_of(parsed),
            serialize_spec(parse_spec(tag_of(parsed), write_spec(parsed))->Ok_0),
        ) is Ok,
        write_spec(
            deserialize_spec(
                tag_of(parsed),
                serialize_spec(parse_spec(tag_of(parsed), write_spec(parsed))->Ok_0),
            )->Ok_0,
        ) == write_spec(parsed),
{
    lemma_parse_write(parsed);
    lemma_write_parse_write(parsed);
    let back = parse_spec(tag_of(parsed), write_spec(parsed))->Ok_0;
    lemma_deserialize_serialize(back);
}

} // verus!
