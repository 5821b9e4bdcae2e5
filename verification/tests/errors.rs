use filen_menubar::error::{AppError, CliError, ConfigError, CredentialError};

#[test]
fn test_config_error_display() {
    let err = ConfigError::NoConfigDir;
    assert_eq!(err.message(), "Failed to get config directory");
}

#[test]
fn test_cli_error_display() {
    let err = CliError::NotFound;
    assert_eq!(err.message(), "CLI not found. Please install filen-cli");
}

#[test]
fn test_credential_error_display() {
    let err = CredentialError::NotFound;
    assert_eq!(err.message(), "Credentials not found");
}

#[test]
fn test_app_error_from_config_error() {
    let config_err = ConfigError::NoConfigDir;
    let app_err: AppError = config_err.into();
    assert!(matches!(app_err, AppError::Config(_)));
}

#[test]
fn test_app_error_from_cli_error() {
    let cli_err = CliError::NotFound;
    let app_err: AppError = cli_err.into();
    assert!(matches!(app_err, AppError::Cli(_)));
}

#[test]
fn test_app_error_from_credential_error() {
    let cred_err = CredentialError::NotFound;
    let app_err: AppError = cred_err.into();
    assert!(matches!(app_err, AppError::Credential(_)));
}

#[test]
fn test_app_error_display_includes_source() {
    let config_err = ConfigError::NoConfigDir;
    let app_err: AppError = config_err.into();
    assert!(app_err.message().contains("Configuration error"));
}

// Each error kind's message, including the quoted I/O error text.
#[test]
fn every_error_kind_has_its_message() {
    assert_eq!(
        ConfigError::InvalidSyncMode("x".to_string()).message(),
        "Invalid sync mode: x. Valid values: twoWay, localToCloud, cloudToLocal, localBackup, cloudBackup"
    );
    assert_eq!(
        ConfigError::InvalidLogLevel("y".to_string()).message(),
        "Invalid log level: y. Valid values: trace, debug, info, warn, error"
    );
    let io = std::io::Error::new(std::io::ErrorKind::Other, "disk on fire");
    assert_eq!(ConfigError::Io(io).message(), "IO error: disk on fire");
    assert_eq!(CliError::ProcessExited.message(), "CLI process exited unexpectedly");
    assert_eq!(
        CliError::SyncPairs("denied".to_string()).message(),
        "Failed to write sync pairs: denied"
    );
    let io = std::io::Error::new(std::io::ErrorKind::Other, "no such file");
    assert_eq!(
        CliError::Spawn(io).message(),
        "Failed to spawn CLI process: no such file"
    );
    let io = std::io::Error::new(std::io::ErrorKind::Other, "gone");
    assert_eq!(CredentialError::Io(io).message(), "IO error: gone");
    let app: AppError = CliError::NotFound.into();
    assert_eq!(app.message(), "CLI error: CLI not found. Please install filen-cli");
    let app: AppError = CredentialError::NotFound.into();
    assert_eq!(app.message(), "Credential error: Credentials not found");
    let json = serde_json::from_str::<serde_json::Value>("{").unwrap_err();
    let text = json.to_string();
    assert_eq!(ConfigError::Json(json).message(), format!("JSON error: {text}"));
}
