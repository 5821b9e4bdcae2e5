//! The Filen CLI bundled with the application: its pinned version and the
//! command lines that run it.
//!
//! The backend is an app-private resource, not a command discovered on PATH.
//! One immutable runtime description makes version checks, login, session
//! detection and syncing all address the same executable and data directory.

use crate::cli::stream::strings_view;
use crate::text::{str_eq, trim, trim_str};
use vstd::prelude::*;

verus! {

/// Contents of the version manifest shipped with the bundled CLI.
pub const BUNDLED_CLI_VERSION_MANIFEST: &'static str = "v0.0.39-menubar.2\n";

/// The pinned version of the bundled CLI: the manifest without surrounding
/// whitespace.
pub fn bundled_cli_version() -> (r: &'static str)
    ensures
        r@ == trim(BUNDLED_CLI_VERSION_MANIFEST@),
{
    trim_str(BUNDLED_CLI_VERSION_MANIFEST)
}

/// What `--version` prints for the bundled CLI.
pub open spec fn version_output_spec() -> Seq<char> {
    "Filen CLI "@ + trim(BUNDLED_CLI_VERSION_MANIFEST@)
}

/// The exact `--version` output expected from the bundled CLI.
pub fn bundled_cli_version_output() -> (r: String)
    ensures
        r@ == version_output_spec(),
{
    let mut out = String::from_str("Filen CLI ");
    out.append(bundled_cli_version());
    out
}

/// Whether a `--version` probe found the bundled CLI: the helper exited
/// successfully and printed exactly the pinned version (surrounding
/// whitespace aside).
pub fn is_expected_version(exit_success: bool, stdout_text: &str) -> (r: bool)
    ensures
        r == (exit_success && trim(stdout_text@) == version_output_spec()),
{
    let expected = bundled_cli_version_output();
    exit_success && str_eq(trim_str(stdout_text), expected.as_str())
}

/// Arguments shared by every invocation: the entrypoint script run by Node,
/// with the updater skipped and the data directory fixed.
pub open spec fn common_args_spec(entrypoint: Seq<char>, data_dir: Seq<char>) -> Seq<Seq<char>> {
    seq![
        "--disable-warning=DEP0169"@,
        entrypoint,
        "--skip-update"@,
        "--data-dir"@,
        data_dir,
    ]
}

/// The exact Node executable, CLI entrypoint, and writable data directory used
/// by the bundled backend.
#[derive(Debug, Clone, PartialEq, Eq)]
pub struct FilenCliRuntime {
    command: String,
    entrypoint: String,
    data_dir: String,
}

impl FilenCliRuntime {
    pub closed spec fn command_spec(&self) -> Seq<char> {
        self.command@
    }

    pub closed spec fn entrypoint_spec(&self) -> Seq<char> {
        self.entrypoint@
    }

    pub closed spec fn data_dir_spec(&self) -> Seq<char> {
        self.data_dir@
    }

    pub fn new(command: String, entrypoint: String, data_dir: String) -> (r: Self)
        ensures
            r.command_spec() == command@,
            r.entrypoint_spec() == entrypoint@,
            r.data_dir_spec() == data_dir@,
    {
        FilenCliRuntime { command, entrypoint, data_dir }
    }

    /// The Node executable.
    pub fn command(&self) -> (r: &str)
        ensures
            r@ == self.command_spec(),
    {
        self.command.as_str()
    }

    /// The writable data directory handed to the CLI.
    pub fn data_dir(&self) -> (r: &str)
        ensures
            r@ == self.data_dir_spec(),
    {
        self.data_dir.as_str()
    }

    /// The CLI entrypoint script.
    pub fn entrypoint(&self) -> (r: &str)
        ensures
            r@ == self.entrypoint_spec(),
    {
        self.entrypoint.as_str()
    }

    /// Arguments shared by every invocation. The patched backend also has its
    /// updater disabled at compile time; `--skip-update` is defense in depth.
    pub fn common_args(&self) -> (r: [String; 5])
        ensures
            strings_view(r@) == common_args_spec(self.entrypoint_spec(), self.data_dir_spec()),
    {
        let r = [
            String::from_str("--disable-warning=DEP0169"),
            self.entrypoint.clone(),
            String::from_str("--skip-update"),
            String::from_str("--data-dir"),
            self.data_dir.clone(),
        ];
        assert(strings_view(r@) =~= common_args_spec(self.entrypoint_spec(), self.data_dir_spec()));
        r
    }

    /// Arguments of the version probe: the common arguments and `--version`.
    pub fn version_args(&self) -> (r: Vec<String>)
        ensures
            strings_view(r@) == common_args_spec(self.entrypoint_spec(), self.data_dir_spec()).push(
                "--version"@,
            ),
    {
        let mut r = self.common_arg_vec();
        r.push(String::from_str("--version"));
        assert(strings_view(r@) =~= common_args_spec(self.entrypoint_spec(), self.data_dir_spec()).push(
            "--version"@,
        ));
        r
    }

    /// Arguments of the continuous sync process over the given sync pairs file.
    pub fn sync_args(&self, sync_pairs_path: &str) -> (r: Vec<String>)
        ensures
            strings_view(r@) == common_args_spec(self.entrypoint_spec(), self.data_dir_spec()) + seq![
                "--verbose"@,
                "sync"@,
                sync_pairs_path@,
                "--continuous"@,
            ],
    {
        let mut r = self.common_arg_vec();
        r.push(String::from_str("--verbose"));
        r.push(String::from_str("sync"));
        r.push(String::from_str(sync_pairs_path));
        r.push(String::from_str("--continuous"));
        assert(strings_view(r@) =~= common_args_spec(self.entrypoint_spec(), self.data_dir_spec()) + seq![
            "--verbose"@,
            "sync"@,
            sync_pairs_path@,
            "--continuous"@,
        ]);
        r
    }

    fn common_arg_vec(&self) -> (r: Vec<String>)
        ensures
            strings_view(r@) == common_args_spec(self.entrypoint_spec(), self.data_dir_spec()),
    {
        let mut r: Vec<String> = Vec::new();
        r.push(String::from_str("--disable-warning=DEP0169"));
        r.push(self.entrypoint.clone());
        r.push(String::from_str("--skip-update"));
        r.push(String::from_str("--data-dir"));
        r.push(self.data_dir.clone());
        assert(strings_view(r@) =~= common_args_spec(self.entrypoint_spec(), self.data_dir_spec()));
        r
    }
}

} // verus!
