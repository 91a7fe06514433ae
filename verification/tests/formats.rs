use nuccbin::layout::{checked_layout_size, field, padded, FieldKind, FormatDescriptor};
use nuccbin::nucc_binary::descriptor;
use nuccbin::NuccBinaryType;

fn sizes(tag: NuccBinaryType) -> (usize, usize) {
    let d = descriptor(tag).unwrap();
    (checked_layout_size(&d.header).unwrap(), checked_layout_size(&d.record).unwrap())
}

fn pointer_offsets(tag: NuccBinaryType) -> Vec<usize> {
    let d = descriptor(tag).unwrap();
    let mut at = 0;
    let mut found = Vec::new();
    for f in d.record.iter() {
        at += f.pad_before;
        match f.kind {
            FieldKind::Pointer32 | FieldKind::Pointer64 => found.push(at),
            _ => {}
        }
        at += f.kind.width() + f.pad_after;
    }
    found
}

#[test]
fn header_sizes_and_strides() {
    assert_eq!(sizes(NuccBinaryType::AccessoriesParam), (0x10, 0x48));
    assert_eq!(sizes(NuccBinaryType::AccessoryExceptionParam), (0x10, 0x38));
    assert_eq!(sizes(NuccBinaryType::AccessoryParam), (0x10, 0x30));
    assert_eq!(sizes(NuccBinaryType::AnimeSongBgmParam), (0x14, 0x28));
    assert_eq!(sizes(NuccBinaryType::Anmofs), (0x5c, 0x24));
    assert_eq!(sizes(NuccBinaryType::Characode), (0x8, 0x8));
    assert_eq!(sizes(NuccBinaryType::CharaPoseParam), (0x10, 0x20));
    assert_eq!(sizes(NuccBinaryType::CharacterSelectParam), (0x10, 0x140));
    assert_eq!(sizes(NuccBinaryType::ComboPrm), (0x14, 0xc));
    assert_eq!(sizes(NuccBinaryType::CommandListParam), (0x14, 0x68));
    assert_eq!(sizes(NuccBinaryType::CostumeBreakParam), (0x14, 0x20));
    assert_eq!(sizes(NuccBinaryType::CostumeParam), (0x10, 0x28));
    assert_eq!(sizes(NuccBinaryType::DictionaryCharacterParam), (0x14, 0x1a8));
    assert_eq!(sizes(NuccBinaryType::DlcInfoParam), (0x10, 0x78));
    assert_eq!(sizes(NuccBinaryType::EffectPrm), (0x8, 0x88));
    assert_eq!(sizes(NuccBinaryType::Ev), (0x2, 0xca));
    assert_eq!(sizes(NuccBinaryType::FinalSpSkillCutIn), (0x14, 0x4d8));
    assert_eq!(sizes(NuccBinaryType::MessageInfo), (0x10, 0x30));
    assert_eq!(sizes(NuccBinaryType::OugiFinishParam), (0x14, 0x50));
    assert_eq!(sizes(NuccBinaryType::PlayerDoubleEffectParam), (0x14, 0x78));
    assert_eq!(sizes(NuccBinaryType::PlayerSettingParam), (0x10, 0x40));
    assert_eq!(sizes(NuccBinaryType::PlayerIcon), (0x10, 0x28));
    assert_eq!(sizes(NuccBinaryType::PrmBas), (0x4, 0x2e0));
    assert_eq!(sizes(NuccBinaryType::PrmLoad), (0x8, 0x50));
    assert_eq!(sizes(NuccBinaryType::ProhibitedSubstringParam), (0x14, 0x8));
    assert_eq!(sizes(NuccBinaryType::SkillIndexSettingParam), (0x10, 0xc));
    assert_eq!(sizes(NuccBinaryType::Snd), (0x2, 0x40));
    assert_eq!(sizes(NuccBinaryType::StaffRollTextParam), (0x10, 0x30));
    assert_eq!(sizes(NuccBinaryType::SupportActionParam), (0x14, 0x18));
    assert_eq!(sizes(NuccBinaryType::SupportSkillRecoverySpeedParam), (0x14, 0x24));
    assert_eq!(sizes(NuccBinaryType::UpdateInfoParam), (0x10, 0x18));
}

#[test]
fn pointer_fields_lie_where_the_formats_have_them() {
    assert_eq!(pointer_offsets(NuccBinaryType::AccessoriesParam), vec![0x0, 0x8, 0x18, 0x20]);
    assert_eq!(pointer_offsets(NuccBinaryType::AccessoryExceptionParam), vec![0x0]);
    assert_eq!(pointer_offsets(NuccBinaryType::AnimeSongBgmParam), vec![0x0, 0x8]);
    assert_eq!(
        pointer_offsets(NuccBinaryType::CharacterSelectParam),
        vec![0x0, 0x18, 0x28, 0x30, 0x38, 0x130]
    );
    assert_eq!(
        pointer_offsets(NuccBinaryType::CommandListParam),
        vec![0x0, 0x10, 0x18, 0x28, 0x30, 0x38, 0x40, 0x60]
    );
    assert_eq!(pointer_offsets(NuccBinaryType::CostumeBreakParam), vec![0x8]);
    assert_eq!(pointer_offsets(NuccBinaryType::CostumeParam), vec![0x0, 0x10]);
    assert_eq!(
        pointer_offsets(NuccBinaryType::DictionaryCharacterParam),
        vec![0x8, 0x18, 0x28, 0x30, 0x38, 0x40, 0x48, 0x50, 0x58, 0x60, 0x68, 0x70, 0x118, 0x120, 0x128]
    );
    assert_eq!(
        pointer_offsets(NuccBinaryType::DlcInfoParam),
        vec![0x0, 0x8, 0x10, 0x18, 0x20, 0x38, 0x48, 0x50, 0x58, 0x68, 0x70]
    );
    assert_eq!(pointer_offsets(NuccBinaryType::MessageInfo), vec![0x8, 0x10, 0x18]);
    assert_eq!(
        pointer_offsets(NuccBinaryType::OugiFinishParam),
        vec![0x0, 0x8, 0x10, 0x18, 0x20, 0x28, 0x30, 0x40, 0x48]
    );
    assert_eq!(
        pointer_offsets(NuccBinaryType::PlayerDoubleEffectParam),
        vec![0x8, 0x20, 0x28, 0x30, 0x38, 0x40, 0x48]
    );
    assert_eq!(pointer_offsets(NuccBinaryType::PlayerSettingParam), vec![0x10, 0x20, 0x28]);
    assert_eq!(pointer_offsets(NuccBinaryType::PlayerIcon), vec![0x8, 0x10, 0x18, 0x20]);
    assert_eq!(pointer_offsets(NuccBinaryType::StaffRollTextParam), vec![0x0]);
    assert_eq!(pointer_offsets(NuccBinaryType::UpdateInfoParam), vec![0x8]);
    let cut_in = pointer_offsets(NuccBinaryType::FinalSpSkillCutIn);
    assert_eq!(cut_in.len(), 102);
    assert_eq!(&cut_in[..4], &[0x10, 0x18, 0x28, 0x30]);
    assert_eq!(pointer_offsets(NuccBinaryType::Snd), Vec::<usize>::new());
}

#[test]
fn formats_without_a_layout() {
    for tag in [
        NuccBinaryType::Dds,
        NuccBinaryType::Lua,
        NuccBinaryType::Png,
        NuccBinaryType::Xml,
        NuccBinaryType::BodAcc,
        NuccBinaryType::EvSpl,
    ] {
        assert_eq!(descriptor(tag), None);
    }
    let with = NuccBinaryType::iter().into_iter().filter(|t| descriptor(*t).is_some()).count();
    assert_eq!(with, 31);
}

#[test]
fn versions_that_the_formats_write() {
    let version = |tag: NuccBinaryType| -> Option<u32> {
        descriptor(tag).unwrap().header.iter().find_map(|f| match f.kind {
            FieldKind::Constant32(v) => Some(v),
            _ => None,
        })
    };
    assert_eq!(version(NuccBinaryType::AccessoriesParam), Some(1000));
    assert_eq!(version(NuccBinaryType::MessageInfo), Some(1001));
    assert_eq!(version(NuccBinaryType::CharacterSelectParam), Some(1001));
    assert_eq!(version(NuccBinaryType::OugiFinishParam), Some(1000));
    assert_eq!(version(NuccBinaryType::FinalSpSkillCutIn), Some(1001));
    assert_eq!(version(NuccBinaryType::PlayerDoubleEffectParam), Some(1000));
    assert_eq!(version(NuccBinaryType::Snd), None);
}

#[test]
fn every_layout_tells_how_many_records_there_are() {
    for tag in NuccBinaryType::iter() {
        if let Some(d) = descriptor(tag) {
            assert!(d.tells_count());
        }
    }
}

#[test]
fn layouts_that_do_not_tell_the_count() {
    // no count, and a pool behind the records
    let d = FormatDescriptor {
        header: vec![field("size", FieldKind::Size)],
        record: vec![field("name", FieldKind::Pointer64)],
    };
    assert!(!d.tells_count());
    // no count, and records of no bytes
    let d = FormatDescriptor { header: vec![], record: vec![field("nothing", FieldKind::Bytes(0))] };
    assert!(!d.tells_count());
    let d = FormatDescriptor { header: vec![], record: vec![field("a", FieldKind::U8)] };
    assert!(d.tells_count());
    let d = FormatDescriptor {
        header: vec![field("n", FieldKind::Count16)],
        record: vec![field("name", FieldKind::Pointer32)],
    };
    assert!(d.tells_count());
}

#[test]
fn widths_of_the_kinds() {
    assert_eq!(FieldKind::U8.width(), 1);
    assert_eq!(FieldKind::U16.width(), 2);
    assert_eq!(FieldKind::I16.width(), 2);
    assert_eq!(FieldKind::Count16.width(), 2);
    assert_eq!(FieldKind::U32.width(), 4);
    assert_eq!(FieldKind::I32.width(), 4);
    assert_eq!(FieldKind::F32.width(), 4);
    assert_eq!(FieldKind::Pointer32.width(), 4);
    assert_eq!(FieldKind::Size.width(), 4);
    assert_eq!(FieldKind::Constant32(7).width(), 4);
    assert_eq!(FieldKind::Count32.width(), 4);
    assert_eq!(FieldKind::Index.width(), 4);
    assert_eq!(FieldKind::U64.width(), 8);
    assert_eq!(FieldKind::Pointer64.width(), 8);
    assert_eq!(FieldKind::Constant64(8).width(), 8);
    assert_eq!(FieldKind::Bytes(5).width(), 5);
    assert_eq!(FieldKind::Text(0x40).width(), 0x40);
}

#[test]
fn what_the_editable_form_shows() {
    for kind in [FieldKind::Size, FieldKind::Constant32(1), FieldKind::Constant64(8)] {
        assert!(!kind.is_shown());
    }
    for kind in [
        FieldKind::Count16,
        FieldKind::Count32,
        FieldKind::U8,
        FieldKind::I16,
        FieldKind::F32,
        FieldKind::Index,
        FieldKind::Bytes(4),
        FieldKind::Text(8),
        FieldKind::Pointer32,
        FieldKind::Pointer64,
    ] {
        assert!(kind.is_shown());
    }
}

#[test]
fn sizes_of_lists_of_fields() {
    assert_eq!(checked_layout_size(&vec![]), Some(0));
    let fields = vec![padded("a", FieldKind::U16, 2, 4), field("b", FieldKind::Text(9))];
    assert_eq!(checked_layout_size(&fields), Some(17));
    let huge = vec![padded("a", FieldKind::U8, usize::MAX, 0)];
    assert_eq!(checked_layout_size(&huge), None);
    let huge = vec![field("a", FieldKind::Bytes(usize::MAX)), field("b", FieldKind::U8)];
    assert_eq!(checked_layout_size(&huge), None);
}
