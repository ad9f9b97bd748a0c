use rustjay_404::preset::{
    applied_blend_mode, applied_mix_mode, BankListing, PresetBlendMode, PresetError, PresetManager,
    PresetMixMode, PresetTriggerMode,
};
use rustjay_404::sampler::pad::{BlendMode, PadMixMode, TriggerMode};
use std::path::PathBuf;

#[test]
fn test_preset_filename_generation() {
    assert_eq!(
        PresetManager::generate_preset_filename("Test Preset"),
        "Test Preset.json"
    );
    assert_eq!(
        PresetManager::generate_preset_filename("Test/Invalid"),
        "Test_Invalid.json"
    );
}

#[test]
fn test_clean_display_name() {
    assert_eq!(PresetManager::clean_display_name("test.json"), "test");
    assert_eq!(PresetManager::clean_display_name("001_test.json"), "test");
    assert_eq!(PresetManager::clean_display_name("my_preset.json"), "my_preset");
}

#[test]
fn test_mix_mode_roundtrip() {
    // Test all mix modes convert correctly
    let modes = vec![
        PadMixMode::Normal,
        PadMixMode::Add,
        PadMixMode::Multiply,
        PadMixMode::Screen,
        PadMixMode::Overlay,
        PadMixMode::SoftLight,
        PadMixMode::HardLight,
        PadMixMode::Difference,
        PadMixMode::Lighten,
        PadMixMode::Darken,
        PadMixMode::ChromaKey,
        PadMixMode::LumaKey,
    ];

    for mode in modes {
        let preset_mode: PresetMixMode = mode.into();
        let back: PadMixMode = preset_mode.into();
        assert_eq!(mode, back, "Mix mode {:?} failed roundtrip", mode);
    }
}

#[test]
fn filename_replaces_every_forbidden_character() {
    assert_eq!(
        PresetManager::generate_preset_filename("a/b\\c:d*e?f\"g<h>i|j"),
        "a_b_c_d_e_f_g_h_i_j.json"
    );
    assert_eq!(PresetManager::generate_preset_filename(""), ".json");
    assert_eq!(PresetManager::generate_preset_filename("Ünïcødé ✓"), "Ünïcødé ✓.json");
}

#[test]
fn clean_display_name_edge_cases() {
    // an empty result becomes "Preset"
    assert_eq!(PresetManager::clean_display_name(".json"), "Preset");
    assert_eq!(PresetManager::clean_display_name("007_.json"), "Preset");
    assert_eq!(PresetManager::clean_display_name(""), "Preset");
    // an empty numeric prefix is still a numeric prefix
    assert_eq!(PresetManager::clean_display_name("_lead.json"), "lead");
    // only the first underscore counts
    assert_eq!(PresetManager::clean_display_name("12_34_x.json"), "34_x");
    // no .json suffix: kept as is
    assert_eq!(PresetManager::clean_display_name("notes.txt"), "notes.txt");
    assert_eq!(PresetManager::clean_display_name("1a_b.json"), "1a_b");
}

#[test]
fn trigger_and_blend_modes_roundtrip() {
    for mode in [TriggerMode::Gate, TriggerMode::Latch, TriggerMode::OneShot] {
        let p: PresetTriggerMode = mode.into();
        let back: TriggerMode = p.into();
        assert_eq!(mode, back);
    }
    assert_eq!(PresetTriggerMode::from(TriggerMode::OneShot), PresetTriggerMode::OneShot);
    for mode in [
        BlendMode::Replace,
        BlendMode::Add,
        BlendMode::Multiply,
        BlendMode::Screen,
        BlendMode::Alpha,
    ] {
        let p: PresetBlendMode = mode.into();
        let back: BlendMode = p.into();
        assert_eq!(mode, back);
    }
    assert_eq!(PresetMixMode::from(PadMixMode::LumaKey), PresetMixMode::LumaKey);
}

#[test]
fn legacy_blend_mode_maps_to_mix_mode() {
    // mix mode wins when present
    assert_eq!(
        applied_mix_mode(PadMixMode::Darken, Some(PresetMixMode::ChromaKey), Some(PresetBlendMode::Add)),
        PadMixMode::ChromaKey
    );
    // legacy blend modes
    assert_eq!(applied_mix_mode(PadMixMode::Darken, None, Some(PresetBlendMode::Replace)), PadMixMode::Normal);
    assert_eq!(applied_mix_mode(PadMixMode::Darken, None, Some(PresetBlendMode::Alpha)), PadMixMode::Normal);
    assert_eq!(applied_mix_mode(PadMixMode::Darken, None, Some(PresetBlendMode::Screen)), PadMixMode::Screen);
    // neither: unchanged
    assert_eq!(applied_mix_mode(PadMixMode::Darken, None, None), PadMixMode::Darken);
    assert_eq!(applied_blend_mode(None), BlendMode::Replace);
    assert_eq!(applied_blend_mode(Some(PresetBlendMode::Multiply)), BlendMode::Multiply);
}

fn listing(name: &str, entries: &[&str]) -> BankListing {
    BankListing {
        name: name.to_string(),
        path: PathBuf::from("presets").join(name),
        entries: entries.iter().map(|s| s.to_string()).collect(),
    }
}

#[test]
fn scan_adds_default_bank_and_sorts_names() {
    let banks = vec![listing("Live", &["b.json", "a.json", "notes.txt", ".json"]), listing("Alpha", &[])];
    let m = PresetManager::with_path(PathBuf::from("presets"), &banks);
    assert_eq!(m.get_bank_names(), vec!["Alpha", "Default", "Live"]);
    assert_eq!(m.get_current_bank(), "Default");
    assert!(m.get_preset_names().is_empty());
    assert_eq!(m.current_bank_path(), Some(PathBuf::from("presets").join("Default")));
}

#[test]
fn switch_bank_and_lookup_presets() {
    let banks = vec![
        listing("Default", &[]),
        listing("Live", &["002_Drums.json", "001_Intro.json", "readme.md", "Outro.json"]),
    ];
    let mut m = PresetManager::with_path(PathBuf::from("presets"), &banks);
    assert!(!m.switch_bank("Missing"));
    assert_eq!(m.get_current_bank(), "Default");
    assert!(m.switch_bank("Live"));
    assert_eq!(m.get_current_bank(), "Live");
    assert_eq!(m.get_preset_names(), vec!["Intro", "Drums", "Outro"]);
    let live = PathBuf::from("presets").join("Live");
    assert_eq!(m.get_preset_path("Drums"), Some(live.join("002_Drums.json")));
    assert_eq!(m.get_preset_path("Nope"), None);
    // load falls back to the cleaned name
    assert_eq!(m.preset_load_path("007_Intro"), Ok(live.join("001_Intro.json")));
    assert_eq!(m.preset_load_path("Nope"), Err(PresetError::PresetNotFound));
    assert_eq!(m.preset_path_at(2), Ok(live.join("Outro.json")));
    assert_eq!(m.preset_path_at(3), Err(PresetError::InvalidIndex));
    assert_eq!(m.preset_save_path("New/One"), Ok(live.join("New_One.json")));
}

#[test]
fn reindex_and_insert_bank() {
    let mut m = PresetManager::with_path(PathBuf::from("p"), &vec![listing("Default", &["x.json"])]);
    assert_eq!(m.get_preset_names(), vec!["x"]);
    m.reindex_current_bank(&vec!["b.json".to_string(), "a.json".to_string()]);
    assert_eq!(m.get_preset_names(), vec!["a", "b"]);
    m.insert_bank("Extra", PathBuf::from("p/Extra"));
    assert_eq!(m.get_bank_names(), vec!["Default", "Extra"]);
    // inserting under an existing name replaces that bank
    m.insert_bank("Default", PathBuf::from("elsewhere"));
    assert_eq!(m.get_bank_names(), vec!["Default", "Extra"]);
    assert!(m.get_preset_names().is_empty());
    assert_eq!(m.current_bank_path(), Some(PathBuf::from("elsewhere")));
}

#[test]
fn lookups_fail_without_current_bank() {
    let mut m = PresetManager::with_path(PathBuf::from("p"), &vec![]);
    m.insert_bank("Other", PathBuf::from("p/Other"));
    assert!(m.switch_bank("Other"));
    // a later scan without the bank leaves the current name dangling
    m.scan_banks(&vec![]);
    assert_eq!(m.preset_save_path("x"), Err(PresetError::BankNotFound));
    assert_eq!(m.preset_load_path("x"), Err(PresetError::BankNotFound));
    assert_eq!(m.preset_path_at(0), Err(PresetError::BankNotFound));
    assert_eq!(m.get_preset_path("x"), None);
    assert!(m.get_preset_names().is_empty());
    assert_eq!(m.current_bank_path(), None);
}
