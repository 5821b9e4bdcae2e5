//! Detection of the Filen CLI's stored session.

use crate::cli::events::opt_text;
use crate::paths::{join_path, join_spec, path_exists};
use crate::text::opt_str;
use vstd::prelude::*;

verus! {

/// Name of the file in which the CLI keeps a "stay logged in" session.
pub const SESSION_FILE_NAME: &'static str = ".filen-cli-keep-me-logged-in";

/// Name of the data directory that the CLI's install script creates in the
/// user's home directory.
pub const HOME_DATA_DIR_NAME: &'static str = ".filen-cli";

/// Name of the data directory under the platform's data or config directory.
pub const PLATFORM_DATA_DIR_NAME: &'static str = "filen-cli";

/// Credential manager that detects the Filen CLI's stored session
#[derive(Debug, Clone)]
pub struct CredentialManager {
    data_dir: String,
}

impl CredentialManager {
    pub closed spec fn data_dir_spec(&self) -> Seq<char> {
        self.data_dir@
    }

    pub fn new(data_dir: String) -> (r: Self)
        ensures
            r.data_dir_spec() == data_dir@,
    {
        CredentialManager { data_dir }
    }

    /// The data directory this manager looks in.
    pub fn data_dir(&self) -> (r: &str)
        ensures
            r@ == self.data_dir_spec(),
    {
        self.data_dir.as_str()
    }

    /// Where the CLI keeps its session: inside this manager's data directory.
    pub fn session_file(&self) -> (r: String)
        ensures
            r@ == join_spec(self.data_dir_spec(), SESSION_FILE_NAME@),
    {
        join_path(self.data_dir.as_str(), SESSION_FILE_NAME)
    }

    /// Check whether the Filen CLI has a stored session: whether the session
    /// file exists. What it finds depends on the file system, so nothing is
    /// promised of the answer.
    pub fn cli_session_exists(&self) -> (r: bool) {
        let session_file = self.session_file();
        path_exists(session_file.as_str())
    }
}

/// The classic CLI's data directory, from what the caller found on this
/// machine: `home/.filen-cli` when the home directory is known and that
/// directory exists (`home_dotdir_exists`), else `filen-cli` under the
/// platform's data directory when there is one, else none.
pub open spec fn data_dir_choice_spec(
    home: Option<Seq<char>>,
    home_dotdir_exists: bool,
    platform_base: Option<Seq<char>>,
) -> Option<Seq<char>> {
    match home {
        Some(h) if home_dotdir_exists => Some(join_spec(h, HOME_DATA_DIR_NAME@)),
        _ => match platform_base {
            Some(b) => Some(join_spec(b, PLATFORM_DATA_DIR_NAME@)),
            None => None,
        },
    }
}

/// Resolve the classic CLI's normal data directory, so that existing users
/// keep their login and sync state with the bundled backend.
pub fn data_dir_choice(
    home: Option<&str>,
    home_dotdir_exists: bool,
    platform_base: Option<&str>,
) -> (r: Option<String>)
    ensures
        opt_text(r) == data_dir_choice_spec(opt_str(home), home_dotdir_exists, opt_str(platform_base)),
{
    if let Some(h) = home {
        if home_dotdir_exists {
            return Some(join_path(h, HOME_DATA_DIR_NAME));
        }
    }
    match platform_base {
        Some(b) => Some(join_path(b, PLATFORM_DATA_DIR_NAME)),
        None => None,
    }
}

} // verus!
