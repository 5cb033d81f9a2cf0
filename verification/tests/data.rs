use darkiron::config::DataConfig;
use darkiron::data::{
    base_archive_index, base_archive_names, base_archive_override, configured_archive,
    forwards_archive_callback, get_mpq_path, init, is_fatal_error, load_next, load_start,
    loaded_message, locate_next, locate_start, normalize_error, open_failure_message, LoadStep,
    ProbeStep, DATAPATH_COUNT,
};
use darkiron::hooks::Detour;

fn default_data() -> DataConfig {
    DataConfig::from_fields(None, None, None, None)
}

#[test]
fn base_archive_names_in_client_order() {
    assert_eq!(
        base_archive_names(),
        vec![
            "model.MPQ",
            "texture.MPQ",
            "terrain.MPQ",
            "wmo.MPQ",
            "sound.MPQ",
            "misc.MPQ",
            "interface.MPQ",
            "fonts.MPQ",
            "speech.MPQ",
            "dbc.MPQ"
        ]
    );
}

#[test]
fn every_base_archive_maps_to_its_position() {
    for (i, name) in base_archive_names().iter().enumerate() {
        assert_eq!(base_archive_index(name), Some(i as u32));
    }
    assert_eq!(base_archive_index("patch.MPQ"), None);
    assert_eq!(base_archive_index("MODEL.MPQ"), None);
    assert_eq!(base_archive_index(""), None);
}

#[test]
fn mpq_path_uses_configured_or_parent_directory() {
    let d = default_data();
    assert_eq!(get_mpq_path(&d, 0, "dbc.MPQ"), "Data\\dbc.MPQ");
    assert_eq!(get_mpq_path(&d, 1, "dbc.MPQ"), "..\\Data\\dbc.MPQ");
    assert_eq!(get_mpq_path(&d, 7, "dbc.MPQ"), "Data\\dbc.MPQ");
    let custom = DataConfig::from_fields(Some("C:\\Mod\\".to_string()), None, None, None);
    assert_eq!(get_mpq_path(&custom, 0, "a.MPQ"), "C:\\Mod\\a.MPQ");
    assert_eq!(get_mpq_path(&custom, 1, "a.MPQ"), "..\\Data\\a.MPQ");
}

#[test]
fn configured_archive_by_position() {
    let d = default_data();
    assert_eq!(configured_archive(&d, 0).as_deref(), Some("model.MPQ"));
    assert_eq!(configured_archive(&d, 9).as_deref(), Some("dbc.MPQ"));
    assert_eq!(configured_archive(&d, 10), None);
    assert_eq!(configured_archive(&d, u32::MAX), None);
}

#[test]
fn override_replaces_base_archive() {
    let d = DataConfig::from_fields(
        None,
        Some(vec!["mymodel.MPQ".to_string(), "mytexture.MPQ".to_string()]),
        None,
        None,
    );
    assert_eq!(base_archive_override(&d, "model.MPQ").as_deref(), Some("mymodel.MPQ"));
    assert_eq!(base_archive_override(&d, "texture.MPQ").as_deref(), Some("mytexture.MPQ"));
    assert_eq!(base_archive_override(&d, "terrain.MPQ"), None);
    assert_eq!(base_archive_override(&d, "patch.MPQ"), None);
    let defaults = default_data();
    for name in base_archive_names() {
        assert_eq!(base_archive_override(&defaults, name).as_deref(), Some(name));
    }
}

#[test]
fn null_archive_callback_is_not_forwarded() {
    assert!(!forwards_archive_callback(0));
    assert!(forwards_archive_callback(0x1000));
}

#[test]
fn locate_answers_first_hit() {
    assert_eq!(locate_start(), ProbeStep::Probe(0));
    assert_eq!(locate_next(0, 1), ProbeStep::Answer(0));
    assert_eq!(locate_next(0, 0), ProbeStep::Probe(1));
    assert_eq!(locate_next(1, 5), ProbeStep::Answer(1));
    assert_eq!(locate_next(1, 0), ProbeStep::Answer(2));
    assert_eq!(DATAPATH_COUNT, 2);
}

#[test]
fn error_codes_are_judged() {
    assert_eq!(normalize_error(38), 0x85100083);
    assert_eq!(normalize_error(2), 2);
    assert!(is_fatal_error(0x85100083));
    assert!(is_fatal_error(0x8510006C));
    assert!(!is_fatal_error(38));
    assert!(!is_fatal_error(0));
}

#[test]
fn load_steps() {
    assert_eq!(load_start(), LoadStep::Open(0));
    assert_eq!(load_next(0, 1, 0), LoadStep::Loaded);
    assert_eq!(load_next(0, 0, 38), LoadStep::Fatal(0x85100083));
    assert_eq!(load_next(1, 0, 0x8510006C), LoadStep::Fatal(0x8510006C));
    assert_eq!(load_next(0, 0, 2), LoadStep::Open(1));
    assert_eq!(load_next(1, 0, 2), LoadStep::Failed);
    assert_eq!(load_next(1, 7, 38), LoadStep::Loaded);
}

#[test]
fn archive_messages() {
    assert_eq!(loaded_message("dbc.MPQ"), "[mpq] loaded base archive dbc.MPQ");
    assert_eq!(open_failure_message("dbc.MPQ"), "Failed to open archive: dbc.MPQ");
}

#[test]
fn data_init_detours() {
    assert_eq!(
        init(),
        vec![Detour::ConfiguredArchive, Detour::LoadBaseArchive, Detour::LoadPatch, Detour::ArchiveCallback]
    );
}

#[test]
fn load_tries_paths_in_order() {
    // configured path fails without a fatal error, parent path opens
    let first = load_next(0, 0, 5);
    assert_eq!(first, LoadStep::Open(1));
    assert_eq!(load_next(1, 1, 0), LoadStep::Loaded);
    // a missing file under the configured path stops the client at once
    assert_eq!(load_next(0, 0, 38), LoadStep::Fatal(0x85100083));
    // neither path opens
    assert_eq!(load_next(1, 0, 5), LoadStep::Failed);
}
