//! The format tags and the catalog that leads from a chunk's file name to its tag.

use vstd::prelude::*;

verus! {

/// The formats that the library knows, in the order in which the catalog tries them.
#[derive(Debug, Copy, Clone, PartialEq, Eq, Hash, Structural)]
pub enum NuccBinaryType {
    AccessoriesParam,
    AccessoryExceptionParam,
    AccessoryParam,
    AnimeSongBgmParam,
    Anmofs,
    BodAcc,
    Characode,
    CharaPoseParam,
    CharacterSelectParam,
    ComboPrm,
    CommandListParam,
    CostumeBreakParam,
    CostumeParam,
    Dds,
    DictionaryCharacterParam,
    DlcInfoParam,
    EffectPrm,
    Ev,
    EvSpl,
    FinalSpSkillCutIn,
    Lua,
    MessageInfo,
    OugiFinishParam,
    PlayerDoubleEffectParam,
    PlayerSettingParam,
    PlayerIcon,
    Png,
    PrmBas,
    PrmLoad,
    ProhibitedSubstringParam,
    SkillIndexSettingParam,
    Snd,
    StaffRollTextParam,
    SupportActionParam,
    SupportSkillRecoverySpeedParam,
    UpdateInfoParam,
    Xml,
}

/// The catalog: every tag once, in declaration order. Where the patterns of two tags
/// match one file name, the tag that stands first here is the one that counts.
pub open spec fn catalog() -> Seq<NuccBinaryType> {
    seq![
        NuccBinaryType::AccessoriesParam,
        NuccBinaryType::AccessoryExceptionParam,
        NuccBinaryType::AccessoryParam,
        NuccBinaryType::AnimeSongBgmParam,
        NuccBinaryType::Anmofs,
        NuccBinaryType::BodAcc,
        NuccBinaryType::Characode,
        NuccBinaryType::CharaPoseParam,
        NuccBinaryType::CharacterSelectParam,
        NuccBinaryType::ComboPrm,
        NuccBinaryType::CommandListParam,
        NuccBinaryType::CostumeBreakParam,
        NuccBinaryType::CostumeParam,
        NuccBinaryType::Dds,
        NuccBinaryType::DictionaryCharacterParam,
        NuccBinaryType::DlcInfoParam,
        NuccBinaryType::EffectPrm,
        NuccBinaryType::Ev,
        NuccBinaryType::EvSpl,
        NuccBinaryType::FinalSpSkillCutIn,
        NuccBinaryType::Lua,
        NuccBinaryType::MessageInfo,
        NuccBinaryType::OugiFinishParam,
        NuccBinaryType::PlayerDoubleEffectParam,
        NuccBinaryType::PlayerSettingParam,
        NuccBinaryType::PlayerIcon,
        NuccBinaryType::Png,
        NuccBinaryType::PrmBas,
        NuccBinaryType::PrmLoad,
        NuccBinaryType::ProhibitedSubstringParam,
        NuccBinaryType::SkillIndexSettingParam,
        NuccBinaryType::Snd,
        NuccBinaryType::StaffRollTextParam,
        NuccBinaryType::SupportActionParam,
        NuccBinaryType::SupportSkillRecoverySpeedParam,
        NuccBinaryType::UpdateInfoParam,
        NuccBinaryType::Xml,
    ]
}

impl NuccBinaryType {
    /// The pattern that a file name of this format matches, as a regular expression.
    pub open spec fn pattern(self) -> Seq<char> {
        match self {
            NuccBinaryType::AccessoriesParam => "(accessoriesParam\\.bin)$"@,
            NuccBinaryType::AccessoryExceptionParam => "(accessoryExceptionParam\\.bin)$"@,
            NuccBinaryType::AccessoryParam => "(accessoryParam\\.bin)$"@,
            NuccBinaryType::AnimeSongBgmParam => "(animeSongBgmParam\\.bin)$"@,
            NuccBinaryType::Anmofs => "(anm_offset)"@,
            NuccBinaryType::BodAcc => "(bod1acc\\.bin)$"@,
            NuccBinaryType::Characode => "(characode\\.bin)$"@,
            NuccBinaryType::CharaPoseParam => "(CharaPoseParam\\.bin)$"@,
            NuccBinaryType::CharacterSelectParam => "(characterSelectParam\\.bin)$"@,
            NuccBinaryType::ComboPrm => "(comboPrm\\.bin)$"@,
            NuccBinaryType::CommandListParam => "(commandListParam\\.bin)$"@,
            NuccBinaryType::CostumeBreakParam => "(costumeBreakParam\\.bin)$"@,
            NuccBinaryType::CostumeParam => "(costumeParam\\.bin)$"@,
            NuccBinaryType::Dds => "(\\.dds)$"@,
            NuccBinaryType::DictionaryCharacterParam => "(DictionaryCharacterParam\\.bin)$"@,
            NuccBinaryType::DlcInfoParam => "(DlcInfoParam\\.bin)$"@,
            NuccBinaryType::EffectPrm => "(effectprm.*\\.bin)$"@,
            NuccBinaryType::Ev => "(_ev.bin)"@,
            NuccBinaryType::EvSpl => "(_ev_spl\\.bin)"@,
            NuccBinaryType::FinalSpSkillCutIn => "(finalSpSkillCutIn\\.bin)$"@,
            NuccBinaryType::Lua => "(\\.lua)$"@,
            NuccBinaryType::MessageInfo => "(messageInfo\\.bin)$"@,
            NuccBinaryType::OugiFinishParam => "(OugiFinishParam\\.bin)$"@,
            NuccBinaryType::PlayerDoubleEffectParam => "(playerDoubleEffectParam\\.bin)$"@,
            NuccBinaryType::PlayerSettingParam => "(playerSettingParam\\.bin)$"@,
            NuccBinaryType::PlayerIcon => "(player_icon\\.bin)$"@,
            NuccBinaryType::Png => "(\\.png)$"@,
            NuccBinaryType::PrmBas => "(prm_bas)"@,
            NuccBinaryType::PrmLoad => "(prm_load\\.bin)$"@,
            NuccBinaryType::ProhibitedSubstringParam => "(prohibitedSubstringParam\\.bin)$"@,
            NuccBinaryType::SkillIndexSettingParam => "(skillIndexSettingParam\\.bin)$"@,
            NuccBinaryType::Snd => "(snd.*\\.bin)$"@,
            NuccBinaryType::StaffRollTextParam => "(staffRollTextParam\\.bin)$"@,
            NuccBinaryType::SupportActionParam => "(supportActionParam\\.bin)$"@,
            NuccBinaryType::SupportSkillRecoverySpeedParam => "(supportSkillRecoverySpeedParam\\.bin)$"@,
            NuccBinaryType::UpdateInfoParam => "(updateInfoParam\\.bin)$"@,
            NuccBinaryType::Xml => "(\\.xml)$"@,
        }
    }

    /// True for the one tag whose pattern is matched without regard to case.
    pub open spec fn folds_case(self) -> bool {
        self is Characode
    }

    /// The tag's name as it is written.
    pub open spec fn spec_name(self) -> Seq<char> {
        match self {
            NuccBinaryType::AccessoriesParam => "AccessoriesParam"@,
            NuccBinaryType::AccessoryExceptionParam => "AccessoryExceptionParam"@,
            NuccBinaryType::AccessoryParam => "AccessoryParam"@,
            NuccBinaryType::AnimeSongBgmParam => "AnimeSongBgmParam"@,
            NuccBinaryType::Anmofs => "Anmofs"@,
            NuccBinaryType::BodAcc => "BodAcc"@,
            NuccBinaryType::Characode => "Characode"@,
            NuccBinaryType::CharaPoseParam => "CharaPoseParam"@,
            NuccBinaryType::CharacterSelectParam => "CharacterSelectParam"@,
            NuccBinaryType::ComboPrm => "ComboPrm"@,
            NuccBinaryType::CommandListParam => "CommandListParam"@,
            NuccBinaryType::CostumeBreakParam => "CostumeBreakParam"@,
            NuccBinaryType::CostumeParam => "CostumeParam"@,
            NuccBinaryType::Dds => "Dds"@,
            NuccBinaryType::DictionaryCharacterParam => "DictionaryCharacterParam"@,
            NuccBinaryType::DlcInfoParam => "DlcInfoParam"@,
            NuccBinaryType::EffectPrm => "EffectPrm"@,
            NuccBinaryType::Ev => "Ev"@,
            NuccBinaryType::EvSpl => "EvSpl"@,
            NuccBinaryType::FinalSpSkillCutIn => "FinalSpSkillCutIn"@,
            NuccBinaryType::Lua => "Lua"@,
            NuccBinaryType::MessageInfo => "MessageInfo"@,
            NuccBinaryType::OugiFinishParam => "OugiFinishParam"@,
            NuccBinaryType::PlayerDoubleEffectParam => "PlayerDoubleEffectParam"@,
            NuccBinaryType::PlayerSettingParam => "PlayerSettingParam"@,
            NuccBinaryType::PlayerIcon => "PlayerIcon"@,
            NuccBinaryType::Png => "Png"@,
            NuccBinaryType::PrmBas => "PrmBas"@,
            NuccBinaryType::PrmLoad => "PrmLoad"@,
            NuccBinaryType::ProhibitedSubstringParam => "ProhibitedSubstringParam"@,
            NuccBinaryType::SkillIndexSettingParam => "SkillIndexSettingParam"@,
            NuccBinaryType::Snd => "Snd"@,
            NuccBinaryType::StaffRollTextParam => "StaffRollTextParam"@,
            NuccBinaryType::SupportActionParam => "SupportActionParam"@,
            NuccBinaryType::SupportSkillRecoverySpeedParam => "SupportSkillRecoverySpeedParam"@,
            NuccBinaryType::UpdateInfoParam => "UpdateInfoParam"@,
            NuccBinaryType::Xml => "Xml"@,
        }
    }

    /// Position of the tag in the catalog.
    pub open spec fn position(self) -> int {
        match self {
            NuccBinaryType::AccessoriesParam => 0,
            NuccBinaryType::AccessoryExceptionParam => 1,
            NuccBinaryType::AccessoryParam => 2,
            NuccBinaryType::AnimeSongBgmParam => 3,
            NuccBinaryType::Anmofs => 4,
            NuccBinaryType::BodAcc => 5,
            NuccBinaryType::Characode => 6,
            NuccBinaryType::CharaPoseParam => 7,
            NuccBinaryType::CharacterSelectParam => 8,
            NuccBinaryType::ComboPrm => 9,
            NuccBinaryType::CommandListParam => 10,
            NuccBinaryType::CostumeBreakParam => 11,
            NuccBinaryType::CostumeParam => 12,
            NuccBinaryType::Dds => 13,
            NuccBinaryType::DictionaryCharacterParam => 14,
            NuccBinaryType::DlcInfoParam => 15,
            NuccBinaryType::EffectPrm => 16,
            NuccBinaryType::Ev => 17,
            NuccBinaryType::EvSpl => 18,
            NuccBinaryType::FinalSpSkillCutIn => 19,
            NuccBinaryType::Lua => 20,
            NuccBinaryType::MessageInfo => 21,
            NuccBinaryType::OugiFinishParam => 22,
            NuccBinaryType::PlayerDoubleEffectParam => 23,
            NuccBinaryType::PlayerSettingParam => 24,
            NuccBinaryType::PlayerIcon => 25,
            NuccBinaryType::Png => 26,
            NuccBinaryType::PrmBas => 27,
            NuccBinaryType::PrmLoad => 28,
            NuccBinaryType::ProhibitedSubstringParam => 29,
            NuccBinaryType::SkillIndexSettingParam => 30,
            NuccBinaryType::Snd => 31,
            NuccBinaryType::StaffRollTextParam => 32,
            NuccBinaryType::SupportActionParam => 33,
            NuccBinaryType::SupportSkillRecoverySpeedParam => 34,
            NuccBinaryType::UpdateInfoParam => 35,
            NuccBinaryType::Xml => 36,
        }
    }

    /// Every tag, in catalog order.
    pub fn iter() -> (all: Vec<NuccBinaryType>)
        ensures
            all@ == catalog(),
    {
        let all = vec![
            NuccBinaryType::AccessoriesParam,
            NuccBinaryType::AccessoryExceptionParam,
            NuccBinaryType::AccessoryParam,
            NuccBinaryType::AnimeSongBgmParam,
            NuccBinaryType::Anmofs,
            NuccBinaryType::BodAcc,
            NuccBinaryType::Characode,
            NuccBinaryType::CharaPoseParam,
            NuccBinaryType::CharacterSelectParam,
            NuccBinaryType::ComboPrm,
            NuccBinaryType::CommandListParam,
            NuccBinaryType::CostumeBreakParam,
            NuccBinaryType::CostumeParam,
            NuccBinaryType::Dds,
            NuccBinaryType::DictionaryCharacterParam,
            NuccBinaryType::DlcInfoParam,
            NuccBinaryType::EffectPrm,
            NuccBinaryType::Ev,
            NuccBinaryType::EvSpl,
            NuccBinaryType::FinalSpSkillCutIn,
            NuccBinaryType::Lua,
            NuccBinaryType::MessageInfo,
            NuccBinaryType::OugiFinishParam,
            NuccBinaryType::PlayerDoubleEffectParam,
            NuccBinaryType::PlayerSettingParam,
            NuccBinaryType::PlayerIcon,
            NuccBinaryType::Png,
            NuccBinaryType::PrmBas,
            NuccBinaryType::PrmLoad,
            NuccBinaryType::ProhibitedSubstringParam,
            NuccBinaryType::SkillIndexSettingParam,
            NuccBinaryType::Snd,
            NuccBinaryType::StaffRollTextParam,
            NuccBinaryType::SupportActionParam,
            NuccBinaryType::SupportSkillRecoverySpeedParam,
            NuccBinaryType::UpdateInfoParam,
            NuccBinaryType::Xml,
        ];
        proof {
            assert(all@ =~= catalog());
        }
        all
    }

    /// The pattern that a file name of this format matches, as a regular expression.
    pub fn patterns(&self) -> (source: &'static str)
        ensures
            source@ == self.pattern(),
    {
        match self {
            NuccBinaryType::AccessoriesParam => "(accessoriesParam\\.bin)$",
            NuccBinaryType::AccessoryExceptionParam => "(accessoryExceptionParam\\.bin)$",
            NuccBinaryType::AccessoryParam => "(accessoryParam\\.bin)$",
            NuccBinaryType::AnimeSongBgmParam => "(animeSongBgmParam\\.bin)$",
            NuccBinaryType::Anmofs => "(anm_offset)",
            NuccBinaryType::BodAcc => "(bod1acc\\.bin)$",
            NuccBinaryType::Characode => "(characode\\.bin)$",
            NuccBinaryType::CharaPoseParam => "(CharaPoseParam\\.bin)$",
            NuccBinaryType::CharacterSelectParam => "(characterSelectParam\\.bin)$",
            NuccBinaryType::ComboPrm => "(comboPrm\\.bin)$",
            NuccBinaryType::CommandListParam => "(commandListParam\\.bin)$",
            NuccBinaryType::CostumeBreakParam => "(costumeBreakParam\\.bin)$",
            NuccBinaryType::CostumeParam => "(costumeParam\\.bin)$",
            NuccBinaryType::Dds => "(\\.dds)$",
            NuccBinaryType::DictionaryCharacterParam => "(DictionaryCharacterParam\\.bin)$",
            NuccBinaryType::DlcInfoParam => "(DlcInfoParam\\.bin)$",
            NuccBinaryType::EffectPrm => "(effectprm.*\\.bin)$",
            NuccBinaryType::Ev => "(_ev.bin)",
            NuccBinaryType::EvSpl => "(_ev_spl\\.bin)",
            NuccBinaryType::FinalSpSkillCutIn => "(finalSpSkillCutIn\\.bin)$",
            NuccBinaryType::Lua => "(\\.lua)$",
            NuccBinaryType::MessageInfo => "(messageInfo\\.bin)$",
            NuccBinaryType::OugiFinishParam => "(OugiFinishParam\\.bin)$",
            NuccBinaryType::PlayerDoubleEffectParam => "(playerDoubleEffectParam\\.bin)$",
            NuccBinaryType::PlayerSettingParam => "(playerSettingParam\\.bin)$",
            NuccBinaryType::PlayerIcon => "(player_icon\\.bin)$",
            NuccBinaryType::Png => "(\\.png)$",
            NuccBinaryType::PrmBas => "(prm_bas)",
            NuccBinaryType::PrmLoad => "(prm_load\\.bin)$",
            NuccBinaryType::ProhibitedSubstringParam => "(prohibitedSubstringParam\\.bin)$",
            NuccBinaryType::SkillIndexSettingParam => "(skillIndexSettingParam\\.bin)$",
            NuccBinaryType::Snd => "(snd.*\\.bin)$",
            NuccBinaryType::StaffRollTextParam => "(staffRollTextParam\\.bin)$",
            NuccBinaryType::SupportActionParam => "(supportActionParam\\.bin)$",
            NuccBinaryType::SupportSkillRecoverySpeedParam => "(supportSkillRecoverySpeedParam\\.bin)$",
            NuccBinaryType::UpdateInfoParam => "(updateInfoParam\\.bin)$",
            NuccBinaryType::Xml => "(\\.xml)$",
        }
    }

    /// True for the one tag whose pattern is matched without regard to case.
    pub fn is_case_insensitive(&self) -> (fold: bool)
        ensures
            fold == self.folds_case(),
    {
        match self {
            NuccBinaryType::Characode => true,
            _ => false,
        }
    }

    /// The tag's name as it is written.
    pub fn name(&self) -> (text: &'static str)
        ensures
            text@ == self.spec_name(),
    {
        match self {
            NuccBinaryType::AccessoriesParam => "AccessoriesParam",
            NuccBinaryType::AccessoryExceptionParam => "AccessoryExceptionParam",
            NuccBinaryType::AccessoryParam => "AccessoryParam",
            NuccBinaryType::AnimeSongBgmParam => "AnimeSongBgmParam",
            NuccBinaryType::Anmofs => "Anmofs",
            NuccBinaryType::BodAcc => "BodAcc",
            NuccBinaryType::Characode => "Characode",
            NuccBinaryType::CharaPoseParam => "CharaPoseParam",
            NuccBinaryType::CharacterSelectParam => "CharacterSelectParam",
            NuccBinaryType::ComboPrm => "ComboPrm",
            NuccBinaryType::CommandListParam => "CommandListParam",
            NuccBinaryType::CostumeBreakParam => "CostumeBreakParam",
            NuccBinaryType::CostumeParam => "CostumeParam",
            NuccBinaryType::Dds => "Dds",
            NuccBinaryType::DictionaryCharacterParam => "DictionaryCharacterParam",
            NuccBinaryType::DlcInfoParam => "DlcInfoParam",
            NuccBinaryType::EffectPrm => "EffectPrm",
            NuccBinaryType::Ev => "Ev",
            NuccBinaryType::EvSpl => "EvSpl",
            NuccBinaryType::FinalSpSkillCutIn => "FinalSpSkillCutIn",
            NuccBinaryType::Lua => "Lua",
            NuccBinaryType::MessageInfo => "MessageInfo",
            NuccBinaryType::OugiFinishParam => "OugiFinishParam",
            NuccBinaryType::PlayerDoubleEffectParam => "PlayerDoubleEffectParam",
            NuccBinaryType::PlayerSettingParam => "PlayerSettingParam",
            NuccBinaryType::PlayerIcon => "PlayerIcon",
            NuccBinaryType::Png => "Png",
            NuccBinaryType::PrmBas => "PrmBas",
            NuccBinaryType::PrmLoad => "PrmLoad",
            NuccBinaryType::ProhibitedSubstringParam => "ProhibitedSubstringParam",
            NuccBinaryType::SkillIndexSettingParam => "SkillIndexSettingParam",
            NuccBinaryType::Snd => "Snd",
            NuccBinaryType::StaffRollTextParam => "StaffRollTextParam",
            NuccBinaryType::SupportActionParam => "SupportActionParam",
            NuccBinaryType::SupportSkillRecoverySpeedParam => "SupportSkillRecoverySpeedParam",
            NuccBinaryType::UpdateInfoParam => "UpdateInfoParam",
            NuccBinaryType::Xml => "Xml",
        }
    }
}

/// Every tag stands in the catalog, at its position, and nowhere else.
pub proof fn lemma_catalog_complete(tag: NuccBinaryType)
    ensures
        0 <= tag.position() < catalog().len(),
        catalog()[tag.position()] == tag,
        forall|i: int| 0 <= i < catalog().len() && catalog()[i] == tag ==> i == tag.position(),
{
}

} // verus!
