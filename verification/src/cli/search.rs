//! Where a separately installed Filen CLI may live, and the `PATH` it needs.
//!
//! GUI applications started from a file manager do not inherit the shell's
//! `PATH`, so the usual installation places are searched: system and user
//! `bin` directories, npm prefixes, and the fnm, nvm and volta node version
//! managers. Probing the file system is the application's part; this module
//! says which places, in which order, and what the result is.

use crate::paths::{join_path, join_spec};
use vstd::prelude::*;

verus! {

/// System directories appended to the `PATH` of the CLI.
pub const SYSTEM_PATHS: &'static str = "/usr/local/bin:/usr/bin:/bin:/usr/sbin:/sbin";

/// Name of the CLI's executable.
pub const FILEN_BINARY: &'static str = "filen";

/// Name of Node's executable.
pub const NODE_BINARY: &'static str = "node";

/// The CLI to run and the `PATH` to run it with.
#[derive(Debug, Clone, PartialEq, Eq)]
pub struct FilenCliInfo {
    /// Path to the filen binary
    pub command: String,
    /// PATH environment variable to use (includes node binary directory)
    pub path_env: Option<String>,
}

/// The `PATH` for a CLI in `bin_dir`: that directory first, then the
/// directory of a node found by a version manager when `bin_dir` holds no
/// node of its own, then the system directories.
pub open spec fn path_env_spec(bin_dir: Seq<char>, bin_has_node: bool, node_bin_dir: Option<Seq<char>>) -> Seq<char> {
    if bin_has_node {
        bin_dir + ":"@ + SYSTEM_PATHS@
    } else {
        match node_bin_dir {
            Some(n) => bin_dir + ":"@ + n + ":"@ + SYSTEM_PATHS@,
            None => bin_dir + ":"@ + SYSTEM_PATHS@,
        }
    }
}

/// Build a `PATH` value that includes `bin_dir`, the node binary location
/// (when `bin_dir` has none, the one a version manager provides), and the
/// essential system paths.
pub fn build_path_env(bin_dir: &str, bin_has_node: bool, node_bin_dir: Option<&str>) -> (r: String)
    ensures
        r@ == path_env_spec(bin_dir@, bin_has_node, crate::text::opt_str(node_bin_dir)),
{
    let mut out = String::from_str(bin_dir);
    out.append(":");
    if !bin_has_node {
        if let Some(n) = node_bin_dir {
            out.append(n);
            out.append(":");
        }
    }
    out.append(SYSTEM_PATHS);
    out
}

/// The fixed places searched first, in order, as (binary, its directory):
/// the system `bin` directories, `~/.local/bin`, and the npm prefixes.
pub open spec fn standard_locations_spec(home: Seq<char>) -> Seq<(Seq<char>, Seq<char>)> {
    seq![
        ("/usr/local/bin/filen"@, "/usr/local/bin"@),
        ("/opt/homebrew/bin/filen"@, "/opt/homebrew/bin"@),
        (join_spec(home, ".local/bin/filen"@), join_spec(home, ".local/bin"@)),
        (join_spec(home, ".npm/bin/filen"@), join_spec(home, ".npm/bin"@)),
        (join_spec(home, ".npm-global/bin/filen"@), join_spec(home, ".npm-global/bin"@)),
    ]
}

/// The places searched first, in order, as (binary, its directory).
pub fn standard_cli_locations(home: &str) -> (r: Vec<(String, String)>)
    ensures
        r@.len() == 5,
        forall|i: int|
            0 <= i < 5 ==> (#[trigger] r@[i]).0@ == standard_locations_spec(home@)[i].0 && r@[i].1@
                == standard_locations_spec(home@)[i].1,
{
    let mut r: Vec<(String, String)> = Vec::new();
    r.push((String::from_str("/usr/local/bin/filen"), String::from_str("/usr/local/bin")));
    r.push((String::from_str("/opt/homebrew/bin/filen"), String::from_str("/opt/homebrew/bin")));
    r.push((join_path(home, ".local/bin/filen"), join_path(home, ".local/bin")));
    r.push((join_path(home, ".npm/bin/filen"), join_path(home, ".npm/bin")));
    r.push((join_path(home, ".npm-global/bin/filen"), join_path(home, ".npm-global/bin")));
    r
}

/// Directory holding fnm's node versions, one subdirectory each.
pub fn fnm_versions_dir(home: &str) -> (r: String)
    ensures
        r@ == join_spec(home@, ".local/share/fnm/node-versions"@),
{
    join_path(home, ".local/share/fnm/node-versions")
}

/// The `bin` directory of one fnm node version.
pub fn fnm_bin_dir(version_dir: &str) -> (r: String)
    ensures
        r@ == join_spec(version_dir@, "installation/bin"@),
{
    join_path(version_dir, "installation/bin")
}

/// Directory holding nvm's node versions, one subdirectory each.
pub fn nvm_versions_dir(home: &str) -> (r: String)
    ensures
        r@ == join_spec(home@, ".nvm/versions/node"@),
{
    join_path(home, ".nvm/versions/node")
}

/// The `bin` directory of one nvm node version.
pub fn nvm_bin_dir(version_dir: &str) -> (r: String)
    ensures
        r@ == join_spec(version_dir@, "bin"@),
{
    join_path(version_dir, "bin")
}

/// Volta's `bin` directory.
pub fn volta_bin_dir(home: &str) -> (r: String)
    ensures
        r@ == join_spec(home@, ".volta/bin"@),
{
    join_path(home, ".volta/bin")
}

/// The CLI binary inside a `bin` directory.
pub fn filen_in(bin_dir: &str) -> (r: String)
    ensures
        r@ == join_spec(bin_dir@, FILEN_BINARY@),
{
    join_path(bin_dir, FILEN_BINARY)
}

/// The node binary inside a `bin` directory.
pub fn node_in(bin_dir: &str) -> (r: String)
    ensures
        r@ == join_spec(bin_dir@, NODE_BINARY@),
{
    join_path(bin_dir, NODE_BINARY)
}

/// The CLI found in `bin_dir`, run with the `PATH` for that directory.
pub fn found_in(bin_dir: &str, bin_has_node: bool, node_bin_dir: Option<&str>) -> (r: FilenCliInfo)
    ensures
        r.command@ == join_spec(bin_dir@, FILEN_BINARY@),
        r.path_env matches Some(p) && p@ == path_env_spec(
            bin_dir@,
            bin_has_node,
            crate::text::opt_str(node_bin_dir),
        ),
{
    FilenCliInfo {
        command: filen_in(bin_dir),
        path_env: Some(build_path_env(bin_dir, bin_has_node, node_bin_dir)),
    }
}

/// When no installation is found (or the home directory is unknown): run
/// `filen` from whatever `PATH` the application has.
pub fn fallback_cli() -> (r: FilenCliInfo)
    ensures
        r.command@ == FILEN_BINARY@,
        r.path_env is None,
{
    FilenCliInfo { command: String::from_str(FILEN_BINARY), path_env: None }
}

/// The index of the first candidate that exists, probing in order.
pub fn first_existing(exists: &Vec<bool>) -> (r: Option<usize>)
    ensures
        match r {
            Some(i) => i < exists@.len() && exists@[i as int] && forall|j: int|
                0 <= j < i ==> !exists@[j],
            None => forall|j: int| 0 <= j < exists@.len() ==> !exists@[j],
        },
{
    let mut i: usize = 0;
    while i < exists.len()
        invariant
            0 <= i <= exists@.len(),
            forall|j: int| 0 <= j < i ==> !exists@[j],
        decreases exists@.len() - i,
    {
        if exists[i] {
            return Some(i);
        }
        i = i + 1;
    }
    None
}

/// Where the CLI is taken from.
#[derive(Debug, Clone, Copy, PartialEq, Eq, Structural)]
pub enum CliLocation {
    /// The standard location with this index (see `standard_cli_locations`).
    Standard(usize),
    /// The version-manager `bin` directory with this index.
    Managed(usize),
    /// Neither: run `filen` from `PATH`.
    Fallback,
}

/// The search order: the standard locations first, then the version
/// managers' installations, then the `PATH` fallback; within each, the first
/// candidate probed that holds the CLI. `standard_found` and `managed_found`
/// are the probe results in candidate order (probing may stop at the first hit).
pub fn cli_search_choice(standard_found: &Vec<bool>, managed_found: &Vec<bool>) -> (r: CliLocation)
    ensures
        match r {
            CliLocation::Standard(i) => i < standard_found@.len() && standard_found@[i as int]
                && forall|j: int| 0 <= j < i ==> !standard_found@[j],
            CliLocation::Managed(i) => (forall|j: int|
                0 <= j < standard_found@.len() ==> !standard_found@[j]) && i < managed_found@.len()
                && managed_found@[i as int] && forall|j: int| 0 <= j < i ==> !managed_found@[j],
            CliLocation::Fallback => (forall|j: int|
                0 <= j < standard_found@.len() ==> !standard_found@[j]) && (forall|j: int|
                0 <= j < managed_found@.len() ==> !managed_found@[j]),
        },
{
    match first_existing(standard_found) {
        Some(i) => CliLocation::Standard(i),
        None => match first_existing(managed_found) {
            Some(i) => CliLocation::Managed(i),
            None => CliLocation::Fallback,
        },
    }
}

} // verus!
