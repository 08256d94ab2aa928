use fetchable::codec::encode;
use fetchable::format::Format;
use fetchable::recovery::{fetch_or_default, load, recover, Retrieved};
use fetchable::save::{advance, begin_save, SaveStage, SaveStep};

const FORMATS: [Format; 3] = [Format::Binary, Format::StructuredText, Format::Json];

fn config_default() -> Vec<u64> {
    vec![0, 5]
}

#[test]
fn missing_path_gives_default() {
    for f in FORMATS {
        assert_eq!(fetch_or_default(f, &Retrieved::Absent, config_default()), (vec![0, 5], true));
    }
}

#[test]
fn unreadable_file_gives_default() {
    let r = fetch_or_default(Format::Json, &Retrieved::Unreadable, config_default());
    assert_eq!(r, (vec![0, 5], true));
}

#[test]
fn corrupt_file_gives_default() {
    for f in FORMATS {
        let r = fetch_or_default(f, &Retrieved::Read(b"not valid".to_vec()), vec![9, 9]);
        assert_eq!(r, (vec![9, 9], true));
    }
}

#[test]
fn save_then_fetch_gives_saved_value() {
    let v: Vec<u64> = vec![3, 1];
    for f in FORMATS {
        let (bytes, stage) = begin_save(f, &v);
        assert_eq!(stage, SaveStage::Create);
        let r = fetch_or_default(f, &Retrieved::Read(bytes), config_default());
        assert_eq!(r, (v.clone(), false));
    }
}

#[test]
fn default_value_scenario_flags_source() {
    let (bytes, _) = begin_save(Format::StructuredText, &config_default());
    let stored = fetch_or_default(Format::StructuredText, &Retrieved::Read(bytes), config_default());
    assert_eq!(stored, (vec![0, 5], false));
    let overwritten = fetch_or_default(
        Format::StructuredText,
        &Retrieved::Read(b"not valid".to_vec()),
        config_default(),
    );
    assert_eq!(overwritten, (vec![0, 5], true));
}

#[test]
fn format_independence() {
    let v: Vec<u64> = vec![10, 20, 30];
    let mut out: Vec<Vec<u64>> = Vec::new();
    for f in FORMATS {
        let bytes = encode(f, &v);
        out.push(fetch_or_default(f, &Retrieved::Read(bytes), vec![0, 0, 0]).0);
    }
    assert_eq!(out[0], v);
    assert_eq!(out[0], out[1]);
    assert_eq!(out[1], out[2]);
}

#[test]
fn load_passes_on_the_read_error() {
    let read: Result<Vec<u8>, String> = Err(String::from("permission denied"));
    assert_eq!(load(Format::Json, read, vec![1]), Err(String::from("permission denied")));
}

#[test]
fn load_is_lenient_on_decode_failure() {
    let short: Result<Vec<u8>, ()> = Ok(vec![1, 2]);
    assert_eq!(load(Format::Binary, short, vec![1]), Ok(vec![1]));
    let good: Result<Vec<u8>, ()> = Ok(encode(Format::Json, &vec![4, 2]));
    assert_eq!(load(Format::Json, good, vec![1, 1]), Ok(vec![4, 2]));
}

#[test]
fn recover_flags_only_the_default() {
    assert_eq!(recover(Some("stored"), "default"), ("stored", false));
    assert_eq!(recover(None, "default"), ("default", true));
}

#[test]
fn save_runs_create_write_sync() {
    let ok: Result<(), u8> = Ok(());
    assert_eq!(advance(SaveStage::Create, ok), SaveStep::Next(SaveStage::Write));
    assert_eq!(advance(SaveStage::Write, ok), SaveStep::Next(SaveStage::Sync));
    assert_eq!(advance(SaveStage::Sync, ok), SaveStep::Finished);
}

#[test]
fn failed_stage_keeps_its_error() {
    for s in [SaveStage::Create, SaveStage::Write, SaveStage::Sync] {
        let failed: Result<(), &str> = Err("no such directory");
        assert_eq!(advance(s, failed), SaveStep::Failed("no such directory"));
    }
}
