//! CLI event types emitted by the Filen CLI in `--verbose` mode.
//!
//! Events are JSON objects; the app parses them and hands the library these
//! plain values. The progress figures of the legacy progress events are not
//! read by any decision and are not carried.

use crate::state::{StorageInfo, SyncState};
use vstd::prelude::*;

verus! {

/// Nested data for a `deltasCount` event
#[derive(Debug, Clone, PartialEq, Eq, Structural)]
pub struct DeltasCountData {
    pub count: u32,
}

/// Nested data for a `transfer` event
#[derive(Debug, Clone, PartialEq, Eq)]
pub struct TransferData {
    /// The operation type (`of`): "upload", "download", "uploadFile", ...
    pub operation: Option<String>,
    /// The status (`type`): "queued", "started", "progress", "finished", "success", "error"
    pub transfer_type: Option<String>,
    /// The relative path of the file
    pub relative_path: Option<String>,
    /// Bytes transferred so far (for progress events)
    pub bytes: Option<u64>,
    /// Total file size in bytes
    pub size: Option<u64>,
}

/// CLI event types emitted in `--verbose` mode
#[derive(Debug, Clone, PartialEq, Eq)]
#[allow(inconsistent_fields)]
pub enum CliEvent {
    /// A sync cycle has started
    CycleStarted,
    /// Started scanning local and remote file trees
    CycleGettingTreesStarted,
    /// Finished scanning file trees
    CycleGettingTreesDone,
    /// Started processing sync tasks (uploads/downloads)
    CycleProcessingTasksStarted,
    /// Sync cycle completed successfully
    CycleSuccess,
    /// Sync cycle failed with an error
    CycleError { error: Option<String> },
    /// Number of deltas (changes) to sync
    DeltasCount { data: DeltasCountData },
    /// File transfer event (upload/download progress)
    Transfer { data: Option<TransferData> },
    /// File operation completed successfully
    Success { path: Option<String> },
    /// Upload progress (legacy event format)
    UploadProgress { path: Option<String> },
    /// Download progress (legacy event format)
    DownloadProgress { path: Option<String> },
    /// Unknown event type (ignored)
    Unknown,
}

/// CLI error event structure for stderr parsing
#[derive(Debug, Clone, PartialEq, Eq)]
pub struct CliErrorEvent {
    pub event_type: Option<String>,
    pub error: Option<String>,
    pub message: Option<String>,
}

/// The text of an optional string.
pub open spec fn opt_text(s: Option<String>) -> Option<Seq<char>> {
    match s {
        Some(t) => Some(t@),
        None => None,
    }
}

/// Messages sent from the CLI process monitor
#[derive(Debug, Clone, PartialEq, Eq)]
pub enum CliMessage {
    StateChanged(SyncState),
    StorageUpdated(StorageInfo),
    Error(String),
}

} // verus!
