//! Where the session log lives. The log is a single file, overwritten on each
//! launch; opening it and installing the logger is the application's part.

use crate::paths::{join_path, join_spec};
use vstd::prelude::*;

verus! {

/// Name of the session log file.
pub const LOG_FILE_NAME: &'static str = "filen.log";

/// Log directory used when no platform directory is known.
pub const FALLBACK_LOG_DIR: &'static str = "/tmp/filen-menubar/logs";

/// The log file inside `log_dir` (single file, overwritten each launch).
pub fn get_log_file_path(log_dir: &str) -> (r: String)
    ensures
        r@ == join_spec(log_dir@, LOG_FILE_NAME@),
{
    join_path(log_dir, LOG_FILE_NAME)
}

/// The Linux log directory: under the local data directory when known, else
/// under `~/.local/share`, else the fallback directory.
pub open spec fn linux_log_dir_spec(data_local: Option<Seq<char>>, home: Option<Seq<char>>) -> Seq<
    char,
> {
    match data_local {
        Some(d) => join_spec(d, "filen-menubar/logs"@),
        None => match home {
            Some(h) => join_spec(h, ".local/share/filen-menubar/logs"@),
            None => FALLBACK_LOG_DIR@,
        },
    }
}

/// The log directory on Linux, given the platform directories.
pub fn linux_log_dir(data_local: Option<&str>, home: Option<&str>) -> (r: String)
    ensures
        r@ == linux_log_dir_spec(crate::text::opt_str(data_local), crate::text::opt_str(home)),
{
    match data_local {
        Some(d) => join_path(d, "filen-menubar/logs"),
        None => match home {
            Some(h) => join_path(h, ".local/share/filen-menubar/logs"),
            None => String::from_str(FALLBACK_LOG_DIR),
        },
    }
}

/// The macOS log directory: `~/Library/Logs/io.filen.menubar`, else the
/// fallback directory.
pub open spec fn macos_log_dir_spec(home: Option<Seq<char>>) -> Seq<char> {
    match home {
        Some(h) => join_spec(h, "Library/Logs/io.filen.menubar"@),
        None => FALLBACK_LOG_DIR@,
    }
}

/// The log directory on macOS, given the home directory.
pub fn macos_log_dir(home: Option<&str>) -> (r: String)
    ensures
        r@ == macos_log_dir_spec(crate::text::opt_str(home)),
{
    match home {
        Some(h) => join_path(h, "Library/Logs/io.filen.menubar"),
        None => String::from_str(FALLBACK_LOG_DIR),
    }
}

} // verus!
