//! Error types of the application, with their user-facing messages.

use vstd::prelude::*;

verus! {

#[verifier::external_type_specification]
#[verifier::external_body]
pub struct ExIoError(std::io::Error);

#[verifier::external_type_specification]
#[verifier::external_body]
pub struct ExJsonError(serde_json::Error);

/// The `Display` text of an I/O error. Nothing is claimed about it.
#[verifier::external_body]
pub fn io_error_text(error: &std::io::Error) -> (r: String) {
    format!("{}", error)
}

/// The `Display` text of a JSON error. Nothing is claimed about it.
#[verifier::external_body]
pub fn json_error_text(error: &serde_json::Error) -> (r: String) {
    format!("{}", error)
}

/// `a` followed by `b`.
pub fn concat(a: &str, b: &str) -> (r: String)
    ensures
        r@ == a@ + b@,
{
    let mut s = String::from_str(a);
    s.append(b);
    s
}

/// Configuration-related errors
#[derive(Debug)]
pub enum ConfigError {
    NoConfigDir,
    Io(std::io::Error),
    Json(serde_json::Error),
    InvalidSyncMode(String),
    InvalidLogLevel(String),
}

/// The message of a configuration error, for the kinds whose message does
/// not quote an I/O or JSON error.
pub open spec fn config_error_text(e: ConfigError) -> Option<Seq<char>> {
    match e {
        ConfigError::NoConfigDir => Some("Failed to get config directory"@),
        ConfigError::InvalidSyncMode(s) => Some(
            "Invalid sync mode: "@ + s@
                + ". Valid values: twoWay, localToCloud, cloudToLocal, localBackup, cloudBackup"@,
        ),
        ConfigError::InvalidLogLevel(s) => Some(
            "Invalid log level: "@ + s@ + ". Valid values: trace, debug, info, warn, error"@,
        ),
        _ => None,
    }
}

impl ConfigError {
    /// The error's message (what `Display` prints).
    pub fn message(&self) -> (r: String)
        ensures
            config_error_text(*self) matches Some(t) ==> r@ == t,
            self is Io ==> r@.len() >= 10 && r@.subrange(0, 10) == "IO error: "@,
            self is Json ==> r@.len() >= 12 && r@.subrange(0, 12) == "JSON error: "@,
    {
        proof {
            reveal_strlit("IO error: ");
            reveal_strlit("JSON error: ");
        }
        match self {
            ConfigError::NoConfigDir => String::from_str("Failed to get config directory"),
            ConfigError::Io(e) => concat("IO error: ", io_error_text(e).as_str()),
            ConfigError::Json(e) => concat("JSON error: ", json_error_text(e).as_str()),
            ConfigError::InvalidSyncMode(s) => {
                let head = concat("Invalid sync mode: ", s.as_str());
                concat(
                    head.as_str(),
                    ". Valid values: twoWay, localToCloud, cloudToLocal, localBackup, cloudBackup",
                )
            },
            ConfigError::InvalidLogLevel(s) => {
                let head = concat("Invalid log level: ", s.as_str());
                concat(head.as_str(), ". Valid values: trace, debug, info, warn, error")
            },
        }
    }
}

/// CLI process errors
#[derive(Debug)]
pub enum CliError {
    Spawn(std::io::Error),
    NotFound,
    ProcessExited,
    SyncPairs(String),
}

/// The message of a CLI error, for the kinds whose message does not quote
/// an I/O error.
pub open spec fn cli_error_text(e: CliError) -> Option<Seq<char>> {
    match e {
        CliError::NotFound => Some("CLI not found. Please install filen-cli"@),
        CliError::ProcessExited => Some("CLI process exited unexpectedly"@),
        CliError::SyncPairs(s) => Some("Failed to write sync pairs: "@ + s@),
        _ => None,
    }
}

impl CliError {
    /// The error's message (what `Display` prints).
    pub fn message(&self) -> (r: String)
        ensures
            cli_error_text(*self) matches Some(t) ==> r@ == t,
    {
        match self {
            CliError::Spawn(e) => concat("Failed to spawn CLI process: ", io_error_text(e).as_str()),
            CliError::NotFound => String::from_str("CLI not found. Please install filen-cli"),
            CliError::ProcessExited => String::from_str("CLI process exited unexpectedly"),
            CliError::SyncPairs(s) => concat("Failed to write sync pairs: ", s.as_str()),
        }
    }
}

/// Credential/authentication errors
#[derive(Debug)]
pub enum CredentialError {
    NotFound,
    Io(std::io::Error),
}

/// The message of a credential error that does not quote an I/O error.
pub open spec fn credential_error_text(e: CredentialError) -> Option<Seq<char>> {
    match e {
        CredentialError::NotFound => Some("Credentials not found"@),
        _ => None,
    }
}

impl CredentialError {
    /// The error's message (what `Display` prints).
    pub fn message(&self) -> (r: String)
        ensures
            credential_error_text(*self) matches Some(t) ==> r@ == t,
    {
        match self {
            CredentialError::NotFound => String::from_str("Credentials not found"),
            CredentialError::Io(e) => concat("IO error: ", io_error_text(e).as_str()),
        }
    }
}

/// Unified application error type
#[derive(Debug)]
pub enum AppError {
    Config(ConfigError),
    Cli(CliError),
    Credential(CredentialError),
    Io(std::io::Error),
    Json(serde_json::Error),
}

impl AppError {
    /// The error's message (what `Display` prints): the kind, then the source's message.
    pub fn message(&self) -> (r: String)
        ensures
            self matches AppError::Config(e) ==> (config_error_text(*e) matches Some(t) ==> r@
                == "Configuration error: "@ + t),
            self matches AppError::Cli(e) ==> (cli_error_text(*e) matches Some(t) ==> r@
                == "CLI error: "@ + t),
            self matches AppError::Credential(e) ==> (credential_error_text(*e) matches Some(t)
                ==> r@ == "Credential error: "@ + t),
    {
        match self {
            AppError::Config(e) => concat("Configuration error: ", e.message().as_str()),
            AppError::Cli(e) => concat("CLI error: ", e.message().as_str()),
            AppError::Credential(e) => concat("Credential error: ", e.message().as_str()),
            AppError::Io(e) => concat("IO error: ", io_error_text(e).as_str()),
            AppError::Json(e) => concat("JSON error: ", json_error_text(e).as_str()),
        }
    }
}

impl From<ConfigError> for AppError {
    fn from(e: ConfigError) -> (r: Self) {
        AppError::Config(e)
    }
}

impl vstd::std_specs::convert::FromSpecImpl<ConfigError> for AppError {
    open spec fn obeys_from_spec() -> bool {
        true
    }

    open spec fn from_spec(e: ConfigError) -> AppError {
        AppError::Config(e)
    }
}

impl From<CliError> for AppError {
    fn from(e: CliError) -> (r: Self) {
        AppError::Cli(e)
    }
}

impl vstd::std_specs::convert::FromSpecImpl<CliError> for AppError {
    open spec fn obeys_from_spec() -> bool {
        true
    }

    open spec fn from_spec(e: CliError) -> AppError {
        AppError::Cli(e)
    }
}

impl From<CredentialError> for AppError {
    fn from(e: CredentialError) -> (r: Self) {
        AppError::Credential(e)
    }
}

impl vstd::std_specs::convert::FromSpecImpl<CredentialError> for AppError {
    open spec fn obeys_from_spec() -> bool {
        true
    }

    open spec fn from_spec(e: CredentialError) -> AppError {
        AppError::Credential(e)
    }
}

} // verus!
