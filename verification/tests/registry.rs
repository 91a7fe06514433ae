use nuccbin::registry::first_match;
use nuccbin::{find_nucc_binary_type, NuccBinaryType};

#[test]
fn file_names_lead_to_their_formats() {
    assert_eq!(find_nucc_binary_type("data/rom/messageInfo.bin"), Some(NuccBinaryType::MessageInfo));
    assert_eq!(find_nucc_binary_type("accessoriesParam.bin"), Some(NuccBinaryType::AccessoriesParam));
    assert_eq!(find_nucc_binary_type("c/costumeParam.bin"), Some(NuccBinaryType::CostumeParam));
    assert_eq!(find_nucc_binary_type("c/costumeBreakParam.bin"), Some(NuccBinaryType::CostumeBreakParam));
    assert_eq!(find_nucc_binary_type("tex/logo.png"), Some(NuccBinaryType::Png));
    assert_eq!(find_nucc_binary_type("tex/logo.dds"), Some(NuccBinaryType::Dds));
    assert_eq!(find_nucc_binary_type("script/boot.lua"), Some(NuccBinaryType::Lua));
    assert_eq!(find_nucc_binary_type("ui/menu.xml"), Some(NuccBinaryType::Xml));
    assert_eq!(find_nucc_binary_type("1nrt/anm_offset1nrt.bin"), Some(NuccBinaryType::Anmofs));
    assert_eq!(find_nucc_binary_type("1nrtprm_bas.bin"), Some(NuccBinaryType::PrmBas));
    assert_eq!(find_nucc_binary_type("spl/1nrt_ev_spl.bin"), Some(NuccBinaryType::EvSpl));
    assert_eq!(find_nucc_binary_type("1nrt_ev.bin"), Some(NuccBinaryType::Ev));
    assert_eq!(find_nucc_binary_type("effectprm_1nrt.bin"), Some(NuccBinaryType::EffectPrm));
    assert_eq!(find_nucc_binary_type("1nrtsnd_x.bin"), Some(NuccBinaryType::Snd));
    assert_eq!(find_nucc_binary_type("bod1acc.bin"), Some(NuccBinaryType::BodAcc));
}

#[test]
fn unknown_file_names_lead_nowhere() {
    assert_eq!(find_nucc_binary_type("model.nud"), None);
    assert_eq!(find_nucc_binary_type(""), None);
    assert_eq!(find_nucc_binary_type("messageInfo.bin.bak"), None);
    assert_eq!(find_nucc_binary_type("logo.png.txt"), None);
}

#[test]
fn earlier_catalog_entry_wins() {
    // the substring of entry 4 and the suffix of entry 6
    assert_eq!(find_nucc_binary_type("anm_offset/characode.bin"), Some(NuccBinaryType::Anmofs));
    // entries 6 and 31
    assert_eq!(find_nucc_binary_type("sndcharacode.bin"), Some(NuccBinaryType::Characode));
    // entries 16 and 28
    assert_eq!(find_nucc_binary_type("effectprm_load.bin"), Some(NuccBinaryType::EffectPrm));
    // entries 27 and 31
    assert_eq!(find_nucc_binary_type("prm_bas_snd.bin"), Some(NuccBinaryType::PrmBas));
    // entries 4 and 36
    assert_eq!(find_nucc_binary_type("anm_offset.xml"), Some(NuccBinaryType::Anmofs));
}

#[test]
fn only_one_pattern_ignores_case() {
    assert_eq!(find_nucc_binary_type("CHARACODE.BIN"), Some(NuccBinaryType::Characode));
    assert_eq!(find_nucc_binary_type("Characode.bin"), Some(NuccBinaryType::Characode));
    assert_eq!(find_nucc_binary_type("MESSAGEINFO.BIN"), None);
    assert_eq!(find_nucc_binary_type("LOGO.PNG"), None);
    assert_eq!(find_nucc_binary_type("charaPoseParam.bin"), None);
}

#[test]
fn first_match_takes_the_first_hit() {
    let all = NuccBinaryType::iter();
    let mut hits = vec![false; all.len()];
    assert_eq!(first_match(&hits), None);
    hits[36] = true;
    assert_eq!(first_match(&hits), Some(NuccBinaryType::Xml));
    hits[6] = true;
    assert_eq!(first_match(&hits), Some(NuccBinaryType::Characode));
    hits[4] = true;
    assert_eq!(first_match(&hits), Some(NuccBinaryType::Anmofs));
    hits[0] = true;
    assert_eq!(first_match(&hits), Some(NuccBinaryType::AccessoriesParam));
    assert_eq!(first_match(&[]), None);
    assert_eq!(first_match(&[false, true]), Some(NuccBinaryType::AccessoryExceptionParam));
    let mut long = vec![false; 40];
    long[38] = true;
    assert_eq!(first_match(&long), None);
}

#[test]
fn catalog_is_in_declaration_order() {
    let all = NuccBinaryType::iter();
    assert_eq!(all.len(), 37);
    assert_eq!(all[0], NuccBinaryType::AccessoriesParam);
    assert_eq!(all[5], NuccBinaryType::BodAcc);
    assert_eq!(all[6], NuccBinaryType::Characode);
    assert_eq!(all[7], NuccBinaryType::CharaPoseParam);
    assert_eq!(all[17], NuccBinaryType::Ev);
    assert_eq!(all[18], NuccBinaryType::EvSpl);
    assert_eq!(all[24], NuccBinaryType::PlayerSettingParam);
    assert_eq!(all[25], NuccBinaryType::PlayerIcon);
    assert_eq!(all[36], NuccBinaryType::Xml);
}

#[test]
fn patterns_and_names() {
    assert_eq!(NuccBinaryType::MessageInfo.patterns(), r"(messageInfo\.bin)$");
    assert_eq!(NuccBinaryType::Anmofs.patterns(), "(anm_offset)");
    assert_eq!(NuccBinaryType::Ev.patterns(), "(_ev.bin)");
    assert_eq!(NuccBinaryType::Dds.patterns(), r"(\.dds)$");
    assert_eq!(NuccBinaryType::Snd.patterns(), r"(snd.*\.bin)$");
    assert_eq!(NuccBinaryType::Snd.name(), "Snd");
    assert_eq!(NuccBinaryType::FinalSpSkillCutIn.name(), "FinalSpSkillCutIn");
    assert!(NuccBinaryType::Characode.is_case_insensitive());
    assert!(!NuccBinaryType::CharaPoseParam.is_case_insensitive());
}
