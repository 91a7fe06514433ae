use nuccbin::document::{Document, Value};
use nuccbin::nucc_binary::final_sp_skill_cutin::{SplFinVictim, SPL_VICTIM_COUNT};
use nuccbin::nucc_binary::prm_bas::{VecString, MODEL_CODES};
use nuccbin::nucc_binary::{FinalSpSkillCutIn, PrmBas};

fn text(s: &str) -> Value {
    Value::Bytes(s.as_bytes().to_vec())
}

fn base_parameters() -> PrmBas {
    let mut record = vec![text("1nrt")];
    for i in 0..16 {
        record.push(text(&format!("1nrtm{:02}", i)));
    }
    for i in 0..16 {
        record.push(text(&format!("1nrta{:02}", i)));
    }
    record.push(Value::Bytes(vec![0xAB; 0x1C0]));
    PrmBas { document: Document { header: vec![Value::Int(0)], records: vec![record] } }
}

#[test]
fn model_codes_of_a_character() {
    let table = base_parameters();
    let codes = table.modelcodes(0).unwrap();
    assert_eq!(codes.len(), MODEL_CODES);
    assert_eq!(codes[0], VecString { code: b"1nrtm00".to_vec() });
    assert_eq!(codes[15], VecString { code: b"1nrtm15".to_vec() });
    let awakened = table.awamodelcodes(0).unwrap();
    assert_eq!(awakened.len(), MODEL_CODES);
    assert_eq!(awakened[0], VecString { code: b"1nrta00".to_vec() });
    assert_eq!(awakened[15], VecString { code: b"1nrta15".to_vec() });
    assert_eq!(table.modelcodes(1), None);
    assert_eq!(table.awamodelcodes(1), None);
}

#[test]
fn model_codes_of_a_record_of_another_shape() {
    let mut table = base_parameters();
    table.document.records[0][16] = Value::Int(0);
    assert_eq!(table.modelcodes(0), None);
    assert!(table.awamodelcodes(0).is_some());
    table.document.records[0].truncate(20);
    assert_eq!(table.awamodelcodes(0), None);
}

#[test]
fn base_parameters_are_written_with_their_padding() {
    let bytes = base_parameters().to_bytes().unwrap();
    assert_eq!(bytes.len(), 4 + 0x2e0);
    assert_eq!(&bytes[0..4], &[0, 0, 0x02, 0xe0]);
    assert_eq!(&bytes[4..12], b"1nrt\0\0\0\0");
    assert_eq!(&bytes[12..20], b"1nrtm00\0");
    assert_eq!(&bytes[4 + 8 + 128..4 + 8 + 128 + 0x18], &[0u8; 0x18]);
    assert_eq!(&bytes[4 + 8 + 128 + 0x18..4 + 8 + 128 + 0x18 + 8], b"1nrta00\0");
    assert_eq!(&bytes[4 + 0x2e0 - 0x1C0..], &[0xABu8; 0x1C0][..]);
    assert_eq!(PrmBas::from(&bytes), Ok(base_parameters_read(0x2e0)));
}

fn base_parameters_read(size: u64) -> PrmBas {
    let mut table = base_parameters();
    table.document.header = vec![Value::Int(size)];
    table
}

fn cut_in() -> FinalSpSkillCutIn {
    let mut record = vec![
        Value::Int(1),
        Value::Int(0xFFFF_FFFF),
        Value::Int(3),
        Value::Int(4),
        text("skill one"),
        text(""),
    ];
    for i in 0..50u64 {
        record.push(Value::Int(i));
        record.push(if i == 7 { text("victim seven") } else { text("") });
        record.push(if i == 49 { text("tex") } else { text("") });
    }
    FinalSpSkillCutIn {
        document: Document {
            header: vec![Value::Int(0), Value::Int(0), Value::Int(0), Value::Int(0), Value::Int(0)],
            records: vec![record],
        },
    }
}

#[test]
fn victims_of_a_cut_in() {
    let table = cut_in();
    let victims = table.spl_fin_victims(0).unwrap();
    assert_eq!(victims.len(), SPL_VICTIM_COUNT);
    assert_eq!(
        victims[7],
        SplFinVictim {
            victim_player_setting_id: 7,
            victim_name: b"victim seven".to_vec(),
            victim_texture_name: Vec::new(),
        }
    );
    assert_eq!(victims[49].victim_texture_name, b"tex".to_vec());
    assert_eq!(victims[0].victim_player_setting_id, 0);
    assert_eq!(table.spl_fin_victims(1), None);
    let mut short = cut_in();
    short.document.records[0].pop();
    assert_eq!(short.spl_fin_victims(0), None);
    let mut odd = cut_in();
    odd.document.records[0][6] = text("");
    assert_eq!(odd.spl_fin_victims(0), None);
    let mut wide = cut_in();
    wide.document.records[0][6] = Value::Int(0x1_0000_0000);
    assert_eq!(wide.spl_fin_victims(0), None);
}

#[test]
fn strings_of_the_victims_follow_those_of_the_cut_in() {
    let bytes = cut_in().to_bytes().unwrap();
    // header 0x14, one record of 0x4d8: the pool starts at 0x4ec
    let pool = 0x14 + 0x4d8;
    assert_eq!(&bytes[pool..pool + 16], b"skill one\0\0\0\0\0\0\0");
    assert_eq!(&bytes[pool + 16..pool + 32], b"victim seven\0\0\0\0");
    assert_eq!(&bytes[pool + 32..pool + 40], b"tex\0\0\0\0\0");
    assert_eq!(bytes.len(), pool + 40);
    // the first name is pointed to from 0x14 + 0x10
    assert_eq!(&bytes[0x24..0x2c], &((pool - 0x24) as u64).to_le_bytes());
    // the name of victim 7 from 0x14 + 0x24 + 7 * 0x18 + 4
    let field = 0x14 + 0x24 + 7 * 0x18 + 4;
    assert_eq!(&bytes[field..field + 8], &((pool + 16 - field) as u64).to_le_bytes());
    let back = FinalSpSkillCutIn::from(&bytes).unwrap();
    assert_eq!(back.document.records, cut_in().document.records);
    assert_eq!(back.to_bytes(), Ok(bytes));
}
