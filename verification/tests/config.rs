use darkiron::config::{
    alert_request, default_base_archives, default_path, window_title, Config, ConfigNotice,
    DataConfig, WindowConfig, ALERT_TIMEOUT_MS, CONFIG_FILENAME,
};
use darkiron::console::ConsoleColor;

const BASE: [&str; 10] = [
    "model.MPQ",
    "texture.MPQ",
    "terrain.MPQ",
    "wmo.MPQ",
    "sound.MPQ",
    "misc.MPQ",
    "interface.MPQ",
    "fonts.MPQ",
    "speech.MPQ",
    "dbc.MPQ",
];

#[test]
fn default_path_is_data_directory() {
    assert_eq!(default_path(), "Data\\");
}

#[test]
fn default_base_archives_are_client_archives() {
    let archives = default_base_archives();
    assert_eq!(archives, BASE.iter().map(|s| s.to_string()).collect::<Vec<_>>());
}

#[test]
fn derived_defaults_are_empty() {
    let c = Config::default();
    assert!(c.window.title.is_none());
    assert!(c.window.icon.is_none());
    assert!(c.window.server_alert_url.is_none());
    assert_eq!(c.data.path, "");
    assert!(c.data.base_archives.is_empty());
    assert!(c.data.patches.is_none());
    assert!(!c.data.validate_interface);
}

#[test]
fn data_fields_take_defaults_when_absent() {
    let d = DataConfig::from_fields(None, None, None, None);
    assert_eq!(d.path, "Data\\");
    assert_eq!(d.base_archives.len(), 10);
    assert_eq!(d.base_archives[9], "dbc.MPQ");
    assert!(d.patches.is_none());
    assert!(!d.validate_interface);
}

#[test]
fn data_fields_keep_given_values() {
    let d = DataConfig::from_fields(
        Some("D:\\Game\\".to_string()),
        Some(vec!["a.MPQ".to_string()]),
        Some(vec!["patch-2.MPQ".to_string()]),
        Some(true),
    );
    assert_eq!(d.path, "D:\\Game\\");
    assert_eq!(d.base_archives, vec!["a.MPQ".to_string()]);
    assert_eq!(d.patches, Some(vec!["patch-2.MPQ".to_string()]));
    assert!(d.validate_interface);
}

#[test]
fn missing_sections_take_section_defaults() {
    let c = Config::from_sections(None, None);
    assert_eq!(c.data.path, "");
    assert!(c.data.base_archives.is_empty());
    let w = WindowConfig { title: Some("Dark Iron".to_string()), icon: None, server_alert_url: None };
    let c = Config::from_sections(Some(w), Some(DataConfig::from_fields(None, None, None, Some(true))));
    assert_eq!(c.window.title.as_deref(), Some("Dark Iron"));
    assert_eq!(c.data.path, "Data\\");
    assert!(c.data.validate_interface);
}

#[test]
fn parse_failure_falls_back_to_default() {
    let (c, notice) = Config::from_parse_result(Err("expected `=`".to_string()));
    assert_eq!(c.data.path, "");
    let notice = notice.unwrap();
    assert_eq!(notice.text(), "[config] failed to read darkiron.toml: expected `=`");
    assert_eq!(notice.color(), ConsoleColor::Error);
    let parsed = Config::from_sections(None, Some(DataConfig::from_fields(None, None, None, None)));
    let (c, notice) = Config::from_parse_result(Ok(parsed));
    assert!(notice.is_none());
    assert_eq!(c.data.path, "Data\\");
}

#[test]
fn notices_have_texts_and_colors() {
    assert_eq!(CONFIG_FILENAME, "darkiron.toml");
    assert_eq!(ConfigNotice::Generating.text(), "[config] generating darkiron.toml with defaults");
    assert_eq!(ConfigNotice::Generating.color(), ConsoleColor::Warning);
    let w = ConfigNotice::WriteFailed("denied".to_string());
    assert_eq!(w.text(), "[config] failed to write darkiron.toml: denied");
    assert_eq!(w.color(), ConsoleColor::Error);
}

#[test]
fn window_title_defaults_to_game_name() {
    assert_eq!(window_title(&WindowConfig::default()), "World of Warcraft");
    let w = WindowConfig { title: Some("Dark Iron".to_string()), icon: None, server_alert_url: None };
    assert_eq!(window_title(&w), "Dark Iron");
}

#[test]
fn alert_request_needs_url() {
    assert!(alert_request(&WindowConfig::default()).is_none());
    let w = WindowConfig {
        title: None,
        icon: None,
        server_alert_url: Some("http://example.org/alert".to_string()),
    };
    let r = alert_request(&w).unwrap();
    assert_eq!(r.url, "http://example.org/alert");
    assert_eq!(r.timeout_ms, 5000);
    assert_eq!(ALERT_TIMEOUT_MS, 5000);
}
