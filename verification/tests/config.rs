use filen_menubar::config::{resolve_log_level, Config, LogLevel, SyncMode};
use filen_menubar::error::ConfigError;
use std::str::FromStr;

#[test]
fn test_sync_mode_default() {
    assert_eq!(SyncMode::default(), SyncMode::TwoWay);
}

#[test]
fn test_sync_mode_as_str() {
    assert_eq!(SyncMode::TwoWay.as_str(), "twoWay");
    assert_eq!(SyncMode::LocalToCloud.as_str(), "localToCloud");
    assert_eq!(SyncMode::CloudToLocal.as_str(), "cloudToLocal");
    assert_eq!(SyncMode::LocalBackup.as_str(), "localBackup");
    assert_eq!(SyncMode::CloudBackup.as_str(), "cloudBackup");
}

#[test]
fn test_sync_mode_from_str() {
    assert_eq!(SyncMode::from_str("twoWay").unwrap(), SyncMode::TwoWay);
    assert_eq!(SyncMode::from_str("localToCloud").unwrap(), SyncMode::LocalToCloud);
    assert_eq!(SyncMode::from_str("cloudToLocal").unwrap(), SyncMode::CloudToLocal);
    assert_eq!(SyncMode::from_str("localBackup").unwrap(), SyncMode::LocalBackup);
    assert_eq!(SyncMode::from_str("cloudBackup").unwrap(), SyncMode::CloudBackup);
}

#[test]
fn test_sync_mode_from_str_invalid() {
    let result = SyncMode::from_str("invalid");
    assert!(result.is_err());
    assert!(matches!(result.unwrap_err(), ConfigError::InvalidSyncMode(_)));
}

#[test]
fn test_sync_mode_display() {
    assert_eq!(SyncMode::TwoWay.to_string(), "twoWay");
    assert_eq!(SyncMode::LocalToCloud.to_string(), "localToCloud");
}

#[test]
fn test_log_level_default() {
    assert_eq!(LogLevel::default(), LogLevel::Info);
}

#[test]
fn test_log_level_as_str() {
    assert_eq!(LogLevel::Trace.as_str(), "trace");
    assert_eq!(LogLevel::Debug.as_str(), "debug");
    assert_eq!(LogLevel::Info.as_str(), "info");
    assert_eq!(LogLevel::Warn.as_str(), "warn");
    assert_eq!(LogLevel::Error.as_str(), "error");
}

#[test]
fn test_log_level_from_str() {
    assert_eq!(LogLevel::from_str("trace").unwrap(), LogLevel::Trace);
    assert_eq!(LogLevel::from_str("debug").unwrap(), LogLevel::Debug);
    assert_eq!(LogLevel::from_str("info").unwrap(), LogLevel::Info);
    assert_eq!(LogLevel::from_str("warn").unwrap(), LogLevel::Warn);
    assert_eq!(LogLevel::from_str("error").unwrap(), LogLevel::Error);
}

#[test]
fn test_log_level_from_str_case_insensitive() {
    assert_eq!(LogLevel::from_str("DEBUG").unwrap(), LogLevel::Debug);
    assert_eq!(LogLevel::from_str("Info").unwrap(), LogLevel::Info);
    assert_eq!(LogLevel::from_str("WARN").unwrap(), LogLevel::Warn);
}

#[test]
fn test_log_level_from_str_invalid() {
    let result = LogLevel::from_str("invalid");
    assert!(result.is_err());
    assert!(matches!(result.unwrap_err(), ConfigError::InvalidLogLevel(_)));
}

#[test]
fn test_config_default_sync_mode() {
    let config = Config::default();
    assert_eq!(config.sync_mode, SyncMode::TwoWay);
}

#[test]
fn test_config_default_remote_path() {
    let config = Config::default();
    assert_eq!(config.remote_path, "/");
}

#[test]
fn test_config_default_auto_start() {
    let config = Config::default();
    assert!(config.auto_start);
}

#[test]
fn test_config_default_locale_is_none() {
    let config = Config::default();
    assert!(config.locale.is_none());
}

#[test]
fn test_config_default_logging_enabled_is_false() {
    let config = Config::default();
    assert!(!config.logging_enabled);
}

#[test]
fn test_config_default_log_level_is_none() {
    let config = Config::default();
    assert!(config.log_level.is_none());
}

#[test]
fn test_config_default_local_path_ends_with_filen() {
    let config = Config::default();
    assert!(config.local_path.ends_with("Filen"));
}

#[test]
fn test_config_default_ignore_is_empty() {
    let config = Config::default();
    assert!(config.ignore.is_empty());
}

#[test]
fn test_config_default_exclude_dot_files_is_false() {
    let config = Config::default();
    assert!(!config.exclude_dot_files);
}

// Names round-trip through parsing, for every mode and level.
#[test]
fn names_parse_back_to_the_same_value() {
    for mode in [
        SyncMode::TwoWay,
        SyncMode::LocalToCloud,
        SyncMode::CloudToLocal,
        SyncMode::LocalBackup,
        SyncMode::CloudBackup,
    ] {
        assert_eq!(SyncMode::parse(mode.as_str()).unwrap(), mode);
    }
    for level in [
        LogLevel::Trace,
        LogLevel::Debug,
        LogLevel::Info,
        LogLevel::Warn,
        LogLevel::Error,
    ] {
        assert_eq!(LogLevel::parse(level.as_str()).unwrap(), level);
        assert_eq!(LogLevel::parse(&level.as_str().to_uppercase()).unwrap(), level);
    }
}

// Sync mode names are case-sensitive, and the error carries the input.
#[test]
fn sync_mode_names_are_case_sensitive() {
    match SyncMode::parse("TwoWay") {
        Err(ConfigError::InvalidSyncMode(text)) => assert_eq!(text, "TwoWay"),
        _ => panic!("expected an invalid sync mode"),
    }
}

// An invalid level reports the lowercased text.
#[test]
fn invalid_log_level_reports_lowercased_text() {
    match LogLevel::parse("LOUD") {
        Err(ConfigError::InvalidLogLevel(text)) => assert_eq!(text, "loud"),
        _ => panic!("expected an invalid level"),
    }
}

// RUST_LOG takes precedence when it parses; else the configured level; else Info.
#[test]
fn log_level_resolution_prefers_a_valid_environment_value() {
    assert_eq!(resolve_log_level(Some("TRACE"), Some(LogLevel::Warn)), LogLevel::Trace);
    assert_eq!(resolve_log_level(Some("chatty"), Some(LogLevel::Warn)), LogLevel::Warn);
    assert_eq!(resolve_log_level(None, Some(LogLevel::Error)), LogLevel::Error);
    assert_eq!(resolve_log_level(Some("nope"), None), LogLevel::Info);
}

#[test]
fn configuration_file_paths_are_below_the_app_directory() {
    assert_eq!(
        Config::config_path_in("/home/u/.config"),
        "/home/u/.config/filen-menubar/config.json"
    );
    assert_eq!(
        Config::sync_pairs_path_in("/home/u/.config/"),
        "/home/u/.config/filen-menubar/syncPairs.json"
    );
    assert_eq!(Config::default_local_path(Some("/home/u".to_string())), "/home/u/Filen");
    assert_eq!(Config::default_local_path(None), "~/Filen");
}

#[test]
fn sync_pair_copies_the_configuration() {
    let mut config = Config::with_local_path("/data/Filen".to_string());
    config.remote_path = "/Backup".to_string();
    config.sync_mode = SyncMode::LocalBackup;
    config.ignore = vec!["*.tmp".to_string(), "node_modules".to_string()];
    config.exclude_dot_files = true;
    let pair = config.sync_pair();
    assert_eq!(pair.local, "/data/Filen");
    assert_eq!(pair.remote, "/Backup");
    assert_eq!(pair.sync_mode, SyncMode::LocalBackup);
    assert_eq!(pair.alias.as_deref(), Some("filen-menubar"));
    assert!(!pair.disable_local_trash);
    assert_eq!(pair.ignore, vec!["*.tmp".to_string(), "node_modules".to_string()]);
    assert!(pair.exclude_dot_files);
}
