//! What the Recent Activity window shows of the activity history. The window
//! itself, and the translation of message keys, are the application's part.

use crate::activity::{ActivityEntry, ActivityOperation, ActivityOutcome};
use vstd::prelude::*;

verus! {

/// Texts of the Recent Activity window, in the interface language.
#[derive(Debug, Clone, PartialEq, Eq)]
pub struct ActivityCopy {
    pub locale: String,
    pub platform: String,
    pub window_title: String,
    pub title: String,
    pub intro: String,
    pub search_label: String,
    pub search_placeholder: String,
    pub filter_label: String,
    pub filter_all: String,
    pub filter_uploads: String,
    pub filter_downloads: String,
    pub filter_changes: String,
    pub filter_errors: String,
    pub clear_button: String,
    pub clear_confirm_prompt: String,
    pub clear_confirm_button: String,
    pub clear_cancel_button: String,
    pub loading: String,
    pub load_failed_title: String,
    pub load_failed_description: String,
    pub retry_button: String,
    pub empty_title: String,
    pub empty_description: String,
    pub no_results_title: String,
    pub no_results_description: String,
    pub list_label: String,
    pub category_upload: String,
    pub category_download: String,
    pub category_change: String,
    pub outcome_success: String,
    pub outcome_failed: String,
    pub count_one: String,
    pub count_many: String,
    pub size_b: String,
    pub size_kb: String,
    pub size_mb: String,
    pub size_gb: String,
    pub size_tb: String,
}

/// One row of the Recent Activity window.
#[derive(Debug, Clone, PartialEq, Eq)]
pub struct ActivityViewEntry {
    pub id: u64,
    pub observed_at_ms: i64,
    pub category: &'static str,
    pub outcome: &'static str,
    /// The translated label of the operation and its outcome.
    pub action: String,
    pub relative_path: String,
    pub size: Option<u64>,
}

/// The filter category of an operation: copies to and from the cloud are
/// uploads and downloads; every other operation is a change.
pub open spec fn category_spec(operation: ActivityOperation) -> Seq<char> {
    match operation {
        ActivityOperation::UploadFile => "upload"@,
        ActivityOperation::DownloadFile => "download"@,
        _ => "change"@,
    }
}

/// The filter category of an operation.
pub fn category_for(operation: &ActivityOperation) -> (r: &'static str)
    ensures
        r@ == category_spec(*operation),
{
    match operation {
        ActivityOperation::UploadFile => "upload",
        ActivityOperation::DownloadFile => "download",
        ActivityOperation::CreateLocalDirectory
        | ActivityOperation::CreateRemoteDirectory
        | ActivityOperation::DeleteLocalFile
        | ActivityOperation::DeleteLocalDirectory
        | ActivityOperation::DeleteRemoteFile
        | ActivityOperation::DeleteRemoteDirectory
        | ActivityOperation::RenameLocalFile
        | ActivityOperation::RenameLocalDirectory
        | ActivityOperation::RenameRemoteFile
        | ActivityOperation::RenameRemoteDirectory => "change",
    }
}

/// The name of an outcome in the window's data.
pub open spec fn outcome_spec(outcome: ActivityOutcome) -> Seq<char> {
    match outcome {
        ActivityOutcome::Success => "success"@,
        ActivityOutcome::Failed => "failed"@,
    }
}

/// The name of an outcome in the window's data.
pub fn outcome_name(outcome: &ActivityOutcome) -> (r: &'static str)
    ensures
        r@ == outcome_spec(*outcome),
{
    match outcome {
        ActivityOutcome::Success => "success",
        ActivityOutcome::Failed => "failed",
    }
}

/// The message key of an operation's label.
pub open spec fn operation_key_spec(operation: ActivityOperation) -> Seq<char> {
    match operation {
        ActivityOperation::UploadFile => "activity.operation.upload_file"@,
        ActivityOperation::DownloadFile => "activity.operation.download_file"@,
        ActivityOperation::CreateRemoteDirectory => "activity.operation.create_remote_directory"@,
        ActivityOperation::CreateLocalDirectory => "activity.operation.create_local_directory"@,
        ActivityOperation::DeleteRemoteFile => "activity.operation.delete_remote_file"@,
        ActivityOperation::DeleteRemoteDirectory => "activity.operation.delete_remote_directory"@,
        ActivityOperation::DeleteLocalFile => "activity.operation.delete_local_file"@,
        ActivityOperation::DeleteLocalDirectory => "activity.operation.delete_local_directory"@,
        ActivityOperation::RenameRemoteFile => "activity.operation.rename_remote_file"@,
        ActivityOperation::RenameRemoteDirectory => "activity.operation.rename_remote_directory"@,
        ActivityOperation::RenameLocalFile => "activity.operation.rename_local_file"@,
        ActivityOperation::RenameLocalDirectory => "activity.operation.rename_local_directory"@,
    }
}

/// The message key of the label shown for an operation with an outcome: the
/// operation's key, with `_failed` appended for a failure.
pub open spec fn label_key_spec(operation: ActivityOperation, outcome: ActivityOutcome) -> Seq<
    char,
> {
    match outcome {
        ActivityOutcome::Success => operation_key_spec(operation),
        ActivityOutcome::Failed => operation_key_spec(operation) + "_failed"@,
    }
}

/// The message key of the label shown for an operation with an outcome.
pub fn operation_label_key(operation: &ActivityOperation, outcome: &ActivityOutcome) -> (r:
    &'static str)
    ensures
        r@ == label_key_spec(*operation, *outcome),
{
    proof {
        reveal_strlit("activity.operation.upload_file");
        reveal_strlit("activity.operation.upload_file_failed");
        reveal_strlit("activity.operation.download_file");
        reveal_strlit("activity.operation.download_file_failed");
        reveal_strlit("activity.operation.create_remote_directory");
        reveal_strlit("activity.operation.create_remote_directory_failed");
        reveal_strlit("activity.operation.create_local_directory");
        reveal_strlit("activity.operation.create_local_directory_failed");
        reveal_strlit("activity.operation.delete_remote_file");
        reveal_strlit("activity.operation.delete_remote_file_failed");
        reveal_strlit("activity.operation.delete_remote_directory");
        reveal_strlit("activity.operation.delete_remote_directory_failed");
        reveal_strlit("activity.operation.delete_local_file");
        reveal_strlit("activity.operation.delete_local_file_failed");
        reveal_strlit("activity.operation.delete_local_directory");
        reveal_strlit("activity.operation.delete_local_directory_failed");
        reveal_strlit("activity.operation.rename_remote_file");
        reveal_strlit("activity.operation.rename_remote_file_failed");
        reveal_strlit("activity.operation.rename_remote_directory");
        reveal_strlit("activity.operation.rename_remote_directory_failed");
        reveal_strlit("activity.operation.rename_local_file");
        reveal_strlit("activity.operation.rename_local_file_failed");
        reveal_strlit("activity.operation.rename_local_directory");
        reveal_strlit("activity.operation.rename_local_directory_failed");
        reveal_strlit("_failed");
    }
    let r = match (operation, outcome) {
        (ActivityOperation::UploadFile, ActivityOutcome::Success) => "activity.operation.upload_file",
        (ActivityOperation::UploadFile, ActivityOutcome::Failed) => "activity.operation.upload_file_failed",
        (ActivityOperation::DownloadFile, ActivityOutcome::Success) => "activity.operation.download_file",
        (ActivityOperation::DownloadFile, ActivityOutcome::Failed) => "activity.operation.download_file_failed",
        (ActivityOperation::CreateRemoteDirectory, ActivityOutcome::Success) => "activity.operation.create_remote_directory",
        (ActivityOperation::CreateRemoteDirectory, ActivityOutcome::Failed) => "activity.operation.create_remote_directory_failed",
        (ActivityOperation::CreateLocalDirectory, ActivityOutcome::Success) => "activity.operation.create_local_directory",
        (ActivityOperation::CreateLocalDirectory, ActivityOutcome::Failed) => "activity.operation.create_local_directory_failed",
        (ActivityOperation::DeleteRemoteFile, ActivityOutcome::Success) => "activity.operation.delete_remote_file",
        (ActivityOperation::DeleteRemoteFile, ActivityOutcome::Failed) => "activity.operation.delete_remote_file_failed",
        (ActivityOperation::DeleteRemoteDirectory, ActivityOutcome::Success) => "activity.operation.delete_remote_directory",
        (ActivityOperation::DeleteRemoteDirectory, ActivityOutcome::Failed) => "activity.operation.delete_remote_directory_failed",
        (ActivityOperation::DeleteLocalFile, ActivityOutcome::Success) => "activity.operation.delete_local_file",
        (ActivityOperation::DeleteLocalFile, ActivityOutcome::Failed) => "activity.operation.delete_local_file_failed",
        (ActivityOperation::DeleteLocalDirectory, ActivityOutcome::Success) => "activity.operation.delete_local_directory",
        (ActivityOperation::DeleteLocalDirectory, ActivityOutcome::Failed) => "activity.operation.delete_local_directory_failed",
        (ActivityOperation::RenameRemoteFile, ActivityOutcome::Success) => "activity.operation.rename_remote_file",
        (ActivityOperation::RenameRemoteFile, ActivityOutcome::Failed) => "activity.operation.rename_remote_file_failed",
        (ActivityOperation::RenameRemoteDirectory, ActivityOutcome::Success) => "activity.operation.rename_remote_directory",
        (ActivityOperation::RenameRemoteDirectory, ActivityOutcome::Failed) => "activity.operation.rename_remote_directory_failed",
        (ActivityOperation::RenameLocalFile, ActivityOutcome::Success) => "activity.operation.rename_local_file",
        (ActivityOperation::RenameLocalFile, ActivityOutcome::Failed) => "activity.operation.rename_local_file_failed",
        (ActivityOperation::RenameLocalDirectory, ActivityOutcome::Success) => "activity.operation.rename_local_directory",
        (ActivityOperation::RenameLocalDirectory, ActivityOutcome::Failed) => "activity.operation.rename_local_directory_failed",
    };
    assert(r@ =~= label_key_spec(*operation, *outcome));
    r
}

impl ActivityViewEntry {
    /// The row for a history entry, given the translated label of its
    /// operation and outcome.
    pub fn from_entry(entry: ActivityEntry, action: String) -> (r: Self)
        ensures
            r.id == entry.id,
            r.observed_at_ms == entry.observed_at_ms,
            r.category@ == category_spec(entry.operation),
            r.outcome@ == outcome_spec(entry.outcome),
            r.action == action,
            r.relative_path == entry.relative_path,
            r.size == entry.size,
    {
        let category = category_for(&entry.operation);
        let outcome = outcome_name(&entry.outcome);
        ActivityViewEntry {
            id: entry.id,
            observed_at_ms: entry.observed_at_ms,
            category,
            outcome,
            action,
            relative_path: entry.relative_path,
            size: entry.size,
        }
    }
}

} // verus!
