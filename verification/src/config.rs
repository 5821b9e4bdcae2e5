//! Application configuration values: sync mode, log level, the configuration
//! record itself and the sync pair handed to the Filen CLI. Reading and
//! writing the files is done by the application.

use crate::cli::network::{is_ascii_lowercase_word, lowercase, to_lowercase};
use crate::error::ConfigError;
use crate::paths::{config_dir_text, home_dir_text, join_path, join_spec};
use crate::text::str_eq;
use vstd::prelude::*;

verus! {

/// Synchronization mode for the Filen CLI.
#[derive(Debug, Clone, Copy, PartialEq, Eq, Structural)]
pub enum SyncMode {
    /// Two-way sync: changes in either direction are synced
    TwoWay,
    /// Local to cloud: only upload local changes
    LocalToCloud,
    /// Cloud to local: only download cloud changes
    CloudToLocal,
    /// Local backup: upload local files, never delete from cloud
    LocalBackup,
    /// Cloud backup: download cloud files, never delete locally
    CloudBackup,
}

pub open spec fn sync_mode_name(m: SyncMode) -> Seq<char> {
    match m {
        SyncMode::TwoWay => "twoWay"@,
        SyncMode::LocalToCloud => "localToCloud"@,
        SyncMode::CloudToLocal => "cloudToLocal"@,
        SyncMode::LocalBackup => "localBackup"@,
        SyncMode::CloudBackup => "cloudBackup"@,
    }
}

/// The mode a CLI name denotes, if any (names are case-sensitive).
pub open spec fn sync_mode_named(s: Seq<char>) -> Option<SyncMode> {
    if s == "twoWay"@ {
        Some(SyncMode::TwoWay)
    } else if s == "localToCloud"@ {
        Some(SyncMode::LocalToCloud)
    } else if s == "cloudToLocal"@ {
        Some(SyncMode::CloudToLocal)
    } else if s == "localBackup"@ {
        Some(SyncMode::LocalBackup)
    } else if s == "cloudBackup"@ {
        Some(SyncMode::CloudBackup)
    } else {
        None
    }
}

impl SyncMode {
    /// The CLI-compatible name.
    pub fn as_str(&self) -> (r: &'static str)
        ensures
            r@ == sync_mode_name(*self),
    {
        match self {
            SyncMode::TwoWay => "twoWay",
            SyncMode::LocalToCloud => "localToCloud",
            SyncMode::CloudToLocal => "cloudToLocal",
            SyncMode::LocalBackup => "localBackup",
            SyncMode::CloudBackup => "cloudBackup",
        }
    }

    /// The CLI-compatible name as an owned string (what `Display` prints).
    pub fn to_string(&self) -> (r: String)
        ensures
            r@ == sync_mode_name(*self),
    {
        String::from_str(self.as_str())
    }

    /// Parse a CLI name; anything else is `InvalidSyncMode` with the input.
    pub fn parse(s: &str) -> (r: Result<SyncMode, ConfigError>)
        ensures
            match sync_mode_named(s@) {
                Some(m) => r == Ok::<SyncMode, ConfigError>(m),
                None => r matches Err(ConfigError::InvalidSyncMode(t)) && t@ == s@,
            },
    {
        proof {
            reveal_strlit("twoWay");
            reveal_strlit("localToCloud");
            reveal_strlit("cloudToLocal");
            reveal_strlit("localBackup");
            reveal_strlit("cloudBackup");
        }
        if str_eq(s, "twoWay") {
            Ok(SyncMode::TwoWay)
        } else if str_eq(s, "localToCloud") {
            Ok(SyncMode::LocalToCloud)
        } else if str_eq(s, "cloudToLocal") {
            Ok(SyncMode::CloudToLocal)
        } else if str_eq(s, "localBackup") {
            Ok(SyncMode::LocalBackup)
        } else if str_eq(s, "cloudBackup") {
            Ok(SyncMode::CloudBackup)
        } else {
            Err(ConfigError::InvalidSyncMode(String::from_str(s)))
        }
    }
}

/// Every sync mode's name parses back to that mode, and no two modes share
/// a name.
pub proof fn lemma_sync_mode_names_round_trip(m: SyncMode)
    ensures
        sync_mode_named(sync_mode_name(m)) == Some(m),
{
    reveal_strlit("twoWay");
    reveal_strlit("localToCloud");
    reveal_strlit("cloudToLocal");
    reveal_strlit("localBackup");
    reveal_strlit("cloudBackup");
    assert("twoWay"@.len() != "localToCloud"@.len());
    assert("twoWay"@.len() != "localBackup"@.len());
    assert("localToCloud"@[0] != "cloudToLocal"@[0]);
    assert("localToCloud"@.len() != "localBackup"@.len());
    assert("localToCloud"@.len() != "cloudBackup"@.len());
    assert("cloudToLocal"@.len() != "localBackup"@.len());
    assert("cloudToLocal"@.len() != "cloudBackup"@.len());
    assert("localBackup"@[0] != "cloudBackup"@[0]);
    assert("twoWay"@.len() != "cloudToLocal"@.len());
    assert("twoWay"@.len() != "cloudBackup"@.len());
}

impl Default for SyncMode {
    fn default() -> (r: Self)
        ensures
            r == SyncMode::TwoWay,
    {
        SyncMode::TwoWay
    }
}

impl std::str::FromStr for SyncMode {
    type Err = ConfigError;

    fn from_str(s: &str) -> (r: Result<Self, Self::Err>)
        ensures
            match sync_mode_named(s@) {
                Some(m) => r == Ok::<SyncMode, ConfigError>(m),
                None => r matches Err(ConfigError::InvalidSyncMode(t)) && t@ == s@,
            },
    {
        SyncMode::parse(s)
    }
}

/// Log level for the application.
#[derive(Debug, Clone, Copy, PartialEq, Eq, Structural)]
pub enum LogLevel {
    /// Most verbose: all messages including trace-level debugging
    Trace,
    /// Detailed debugging information
    Debug,
    /// Normal operational messages
    Info,
    /// Warning messages for potentially problematic situations
    Warn,
    /// Error messages only
    Error,
}

pub open spec fn log_level_name(l: LogLevel) -> Seq<char> {
    match l {
        LogLevel::Trace => "trace"@,
        LogLevel::Debug => "debug"@,
        LogLevel::Info => "info"@,
        LogLevel::Warn => "warn"@,
        LogLevel::Error => "error"@,
    }
}

/// The level a lowercase name denotes, if any.
pub open spec fn log_level_named(s: Seq<char>) -> Option<LogLevel> {
    if s == "trace"@ {
        Some(LogLevel::Trace)
    } else if s == "debug"@ {
        Some(LogLevel::Debug)
    } else if s == "info"@ {
        Some(LogLevel::Info)
    } else if s == "warn"@ {
        Some(LogLevel::Warn)
    } else if s == "error"@ {
        Some(LogLevel::Error)
    } else {
        None
    }
}

impl LogLevel {
    /// The name used in configuration files.
    pub fn as_str(&self) -> (r: &'static str)
        ensures
            r@ == log_level_name(*self),
    {
        match self {
            LogLevel::Trace => "trace",
            LogLevel::Debug => "debug",
            LogLevel::Info => "info",
            LogLevel::Warn => "warn",
            LogLevel::Error => "error",
        }
    }

    /// The name as an owned string (what `Display` prints).
    pub fn to_string(&self) -> (r: String)
        ensures
            r@ == log_level_name(*self),
    {
        String::from_str(self.as_str())
    }

    /// Parse an already-lowercased name; anything else is `InvalidLogLevel`
    /// carrying that text.
    pub fn parse_lowercase(lower: &str) -> (r: Result<LogLevel, ConfigError>)
        ensures
            match log_level_named(lower@) {
                Some(l) => r == Ok::<LogLevel, ConfigError>(l),
                None => r matches Err(ConfigError::InvalidLogLevel(t)) && t@ == lower@,
            },
    {
        proof {
            reveal_strlit("trace");
            reveal_strlit("debug");
            reveal_strlit("info");
            reveal_strlit("warn");
            reveal_strlit("error");
        }
        if str_eq(lower, "trace") {
            Ok(LogLevel::Trace)
        } else if str_eq(lower, "debug") {
            Ok(LogLevel::Debug)
        } else if str_eq(lower, "info") {
            Ok(LogLevel::Info)
        } else if str_eq(lower, "warn") {
            Ok(LogLevel::Warn)
        } else if str_eq(lower, "error") {
            Ok(LogLevel::Error)
        } else {
            Err(ConfigError::InvalidLogLevel(String::from_str(lower)))
        }
    }

    /// Parse a level name case-insensitively (by Unicode lowercasing).
    pub fn parse(s: &str) -> (r: Result<LogLevel, ConfigError>)
        ensures
            match log_level_named(lowercase(s@)) {
                Some(l) => r == Ok::<LogLevel, ConfigError>(l),
                None => r matches Err(ConfigError::InvalidLogLevel(t)) && t@ == lowercase(s@),
            },
            is_ascii_lowercase_word(s@) ==> lowercase(s@) == s@,
    {
        let lower = to_lowercase(s);
        LogLevel::parse_lowercase(lower.as_str())
    }
}

/// Every log level's name is lowercase ASCII (so case-insensitive parsing
/// leaves it as it is) and parses back to that level.
pub proof fn lemma_log_level_names_round_trip(l: LogLevel)
    ensures
        is_ascii_lowercase_word(log_level_name(l)),
        log_level_named(log_level_name(l)) == Some(l),
{
    reveal_strlit("trace");
    reveal_strlit("debug");
    reveal_strlit("info");
    reveal_strlit("warn");
    reveal_strlit("error");
    assert("trace"@[0] != "debug"@[0]);
    assert("trace"@[0] != "info"@[0]);
    assert("trace"@[0] != "warn"@[0]);
    assert("trace"@[0] != "error"@[0]);
    assert("debug"@[0] != "info"@[0]);
    assert("debug"@[0] != "warn"@[0]);
    assert("debug"@[0] != "error"@[0]);
    assert("info"@[0] != "warn"@[0]);
    assert("info"@[0] != "error"@[0]);
    assert("warn"@[0] != "error"@[0]);
}

impl Default for LogLevel {
    fn default() -> (r: Self)
        ensures
            r == LogLevel::Info,
    {
        LogLevel::Info
    }
}

impl std::str::FromStr for LogLevel {
    type Err = ConfigError;

    fn from_str(s: &str) -> (r: Result<Self, Self::Err>)
        ensures
            match log_level_named(lowercase(s@)) {
                Some(l) => r == Ok::<LogLevel, ConfigError>(l),
                None => r matches Err(ConfigError::InvalidLogLevel(t)) && t@ == lowercase(s@),
            },
            is_ascii_lowercase_word(s@) ==> lowercase(s@) == s@,
    {
        LogLevel::parse(s)
    }
}

/// The effective log level: a parseable `RUST_LOG` value takes precedence
/// over the configured level, which defaults to `Info`.
pub fn resolve_log_level(env_value: Option<&str>, configured: Option<LogLevel>) -> (r: LogLevel)
    ensures
        r == match env_value {
            Some(v) => match log_level_named(lowercase(v@)) {
                Some(l) => l,
                None => match configured {
                    Some(c) => c,
                    None => LogLevel::Info,
                },
            },
            None => match configured {
                Some(c) => c,
                None => LogLevel::Info,
            },
        },
{
    let from_env = match env_value {
        Some(v) => match LogLevel::parse(v) {
            Ok(l) => Some(l),
            Err(_) => None,
        },
        None => None,
    };
    match from_env {
        Some(l) => l,
        None => match configured {
            Some(c) => c,
            None => LogLevel::Info,
        },
    }
}

/// Application configuration.
#[derive(Debug, Clone)]
pub struct Config {
    /// Local path to sync
    pub local_path: String,
    /// Remote path on Filen (usually "/")
    pub remote_path: String,
    /// Sync mode
    pub sync_mode: SyncMode,
    /// Auto-start sync on launch
    pub auto_start: bool,
    /// Locale override (e.g., "en", "de"). If None, uses system locale.
    pub locale: Option<String>,
    /// Enable file logging. Default: false (disabled)
    pub logging_enabled: bool,
    /// Log level. Only used when logging_enabled is true.
    pub log_level: Option<LogLevel>,
    /// Patterns to ignore during sync (e.g., ["Photos", "*.tmp", "node_modules"])
    pub ignore: Vec<String>,
    /// Exclude dot files (files/folders starting with .)
    pub exclude_dot_files: bool,
}

/// The default configuration's fields other than the local path.
pub open spec fn default_settings(c: Config) -> bool {
    &&& c.remote_path@ == "/"@
    &&& c.sync_mode == SyncMode::TwoWay
    &&& c.auto_start
    &&& c.locale is None
    &&& !c.logging_enabled
    &&& c.log_level is None
    &&& c.ignore@.len() == 0
    &&& !c.exclude_dot_files
}

impl Config {
    /// The default configuration syncing `local_path`.
    pub fn with_local_path(local_path: String) -> (r: Config)
        ensures
            default_settings(r),
            r.local_path == local_path,
    {
        Config {
            local_path,
            remote_path: String::from_str("/"),
            sync_mode: SyncMode::TwoWay,
            auto_start: true,
            locale: None,
            logging_enabled: false,
            log_level: None,
            ignore: Vec::new(),
            exclude_dot_files: false,
        }
    }

    /// The default local folder: `Filen` in the home directory, or `~/Filen`
    /// when the home directory is unknown.
    pub fn default_local_path(home: Option<String>) -> (r: String)
        ensures
            r@ == match home {
                Some(h) => join_spec(h@, "Filen"@),
                None => "~/Filen"@,
            },
    {
        match home {
            Some(h) => join_path(h.as_str(), "Filen"),
            None => String::from_str("~/Filen"),
        }
    }

    /// Path of the configuration file below the configuration directory.
    pub fn config_path_in(config_dir: &str) -> (r: String)
        ensures
            r@ == join_spec(join_spec(config_dir@, "filen-menubar"@), "config.json"@),
    {
        let app = join_path(config_dir, "filen-menubar");
        join_path(app.as_str(), "config.json")
    }

    /// Path of the configuration file.
    pub fn config_path() -> (r: Result<String, ConfigError>)
        ensures
            r matches Err(e) ==> e is NoConfigDir,
            r matches Ok(p) ==> exists|d: Seq<char>|
                p@ == join_spec(join_spec(d, "filen-menubar"@), "config.json"@),
    {
        match config_dir_text() {
            Some(dir) => Ok(Config::config_path_in(dir.as_str())),
            None => Err(ConfigError::NoConfigDir),
        }
    }

    /// Path of the generated `syncPairs.json` below the configuration directory,
    /// kept apart from the CLI's own configuration.
    pub fn sync_pairs_path_in(config_dir: &str) -> (r: String)
        ensures
            r@ == join_spec(join_spec(config_dir@, "filen-menubar"@), "syncPairs.json"@),
    {
        let app = join_path(config_dir, "filen-menubar");
        join_path(app.as_str(), "syncPairs.json")
    }

    /// Path of the generated `syncPairs.json`.
    pub fn sync_pairs_path() -> (r: Result<String, ConfigError>)
        ensures
            r matches Err(e) ==> e is NoConfigDir,
            r matches Ok(p) ==> exists|d: Seq<char>|
                p@ == join_spec(join_spec(d, "filen-menubar"@), "syncPairs.json"@),
    {
        match config_dir_text() {
            Some(dir) => Ok(Config::sync_pairs_path_in(dir.as_str())),
            None => Err(ConfigError::NoConfigDir),
        }
    }

    /// The single sync pair written to `syncPairs.json` for this configuration.
    pub fn sync_pair(&self) -> (r: SyncPair)
        ensures
            r.local@ == self.local_path@,
            r.remote@ == self.remote_path@,
            r.sync_mode == self.sync_mode,
            r.alias matches Some(a) && a@ == "filen-menubar"@,
            !r.disable_local_trash,
            r.ignore@.len() == self.ignore@.len(),
            forall|i: int| 0 <= i < r.ignore@.len() ==> #[trigger] r.ignore@[i]@ == self.ignore@[i]@,
            r.exclude_dot_files == self.exclude_dot_files,
    {
        let mut ignore: Vec<String> = Vec::new();
        let mut i: usize = 0;
        while i < self.ignore.len()
            invariant
                0 <= i <= self.ignore@.len(),
                ignore@.len() == i,
                forall|j: int| 0 <= j < i ==> #[trigger] ignore@[j]@ == self.ignore@[j]@,
            decreases self.ignore@.len() - i,
        {
            ignore.push(self.ignore[i].clone());
            i = i + 1;
        }
        SyncPair {
            local: self.local_path.clone(),
            remote: self.remote_path.clone(),
            sync_mode: self.sync_mode,
            alias: Some(String::from_str("filen-menubar")),
            disable_local_trash: false,
            ignore,
            exclude_dot_files: self.exclude_dot_files,
        }
    }
}

impl Default for Config {
    fn default() -> (r: Self)
        ensures
            default_settings(r),
            r.local_path@ == "~/Filen"@ || exists|h: Seq<char>| r.local_path@ == join_spec(h, "Filen"@),
    {
        let local = Config::default_local_path(home_dir_text());
        Config::with_local_path(local)
    }
}

/// Sync pair configuration in the Filen CLI's `syncPairs.json` format.
#[derive(Debug, Clone)]
pub struct SyncPair {
    /// Local absolute path to sync
    pub local: String,
    /// Remote path in Filen Drive
    pub remote: String,
    /// Synchronization mode
    pub sync_mode: SyncMode,
    /// Alias name for this sync pair
    pub alias: Option<String>,
    /// If true, bypass local trash when deleting files
    pub disable_local_trash: bool,
    /// Patterns to ignore during sync
    pub ignore: Vec<String>,
    /// If true, exclude hidden files (starting with dot)
    pub exclude_dot_files: bool,
}

} // verus!
