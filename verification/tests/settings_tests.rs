use mado::settings::{config_dir, settings_path, windows_config_dir};

#[test]
fn settings_path_under_home() {
    assert_eq!(config_dir(Some("/Users/me")), "/Users/me/Library/Application Support/MADO");
    assert_eq!(
        settings_path(Some("/Users/me")),
        "/Users/me/Library/Application Support/MADO/settings.json"
    );
}

#[test]
fn settings_path_without_home() {
    assert_eq!(config_dir(None), "./Library/Application Support/MADO");
    assert_eq!(settings_path(None), "./Library/Application Support/MADO/settings.json");
}

#[test]
fn trailing_separator_is_not_doubled() {
    assert_eq!(config_dir(Some("/Users/me/")), "/Users/me/Library/Application Support/MADO");
}

#[test]
fn windows_dir() {
    assert_eq!(windows_config_dir(Some("/data")), "/data/MADO");
    assert_eq!(windows_config_dir(None), "./MADO");
}
