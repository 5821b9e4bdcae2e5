//! Bounded history of completed file operations.
//!
//! Activity recording is independent from the tray state: tray state is
//! short-lived and highly reactive, while the activity history is a bounded
//! user-facing record that can survive application restarts. Loading and
//! writing the snapshot file is done by the application; this module holds the
//! history itself and the rules for restoring it.

use crate::cli::events::TransferData;
use crate::paths::{data_local_dir_text, join_path, join_spec};
use crate::text::str_eq;
use std::collections::VecDeque;
use vstd::prelude::*;

verus! {

/// Maximum number of completed activities retained on disk and in memory.
pub const MAX_ACTIVITY_ENTRIES: usize = 500;

/// Version of the persisted snapshot format this build reads and writes.
pub const ACTIVITY_SNAPSHOT_VERSION: u32 = 1;

/// The first identifier a history hands out.
pub const FIRST_ACTIVITY_ID: u64 = 1;

/// A canonical task-level operation emitted by the Filen CLI.
///
/// Raw transfer-progress operations such as `upload` and `download` are not
/// represented: keeping only task-level events avoids recording a transfer twice.
#[derive(Debug, Clone, Copy, PartialEq, Eq, Hash, Structural)]
pub enum ActivityOperation {
    UploadFile,
    DownloadFile,
    CreateLocalDirectory,
    CreateRemoteDirectory,
    DeleteLocalFile,
    DeleteLocalDirectory,
    DeleteRemoteFile,
    DeleteRemoteDirectory,
    RenameLocalFile,
    RenameLocalDirectory,
    RenameRemoteFile,
    RenameRemoteDirectory,
}

/// The operation a CLI operation name denotes, if it is canonical.
pub open spec fn operation_named(name: Seq<char>) -> Option<ActivityOperation> {
    if name == "uploadFile"@ {
        Some(ActivityOperation::UploadFile)
    } else if name == "downloadFile"@ {
        Some(ActivityOperation::DownloadFile)
    } else if name == "createLocalDirectory"@ {
        Some(ActivityOperation::CreateLocalDirectory)
    } else if name == "createRemoteDirectory"@ {
        Some(ActivityOperation::CreateRemoteDirectory)
    } else if name == "deleteLocalFile"@ {
        Some(ActivityOperation::DeleteLocalFile)
    } else if name == "deleteLocalDirectory"@ {
        Some(ActivityOperation::DeleteLocalDirectory)
    } else if name == "deleteRemoteFile"@ {
        Some(ActivityOperation::DeleteRemoteFile)
    } else if name == "deleteRemoteDirectory"@ {
        Some(ActivityOperation::DeleteRemoteDirectory)
    } else if name == "renameLocalFile"@ {
        Some(ActivityOperation::RenameLocalFile)
    } else if name == "renameLocalDirectory"@ {
        Some(ActivityOperation::RenameLocalDirectory)
    } else if name == "renameRemoteFile"@ {
        Some(ActivityOperation::RenameRemoteFile)
    } else if name == "renameRemoteDirectory"@ {
        Some(ActivityOperation::RenameRemoteDirectory)
    } else {
        None
    }
}

impl ActivityOperation {
    /// The canonical operation for a CLI operation name, or `None`.
    pub fn from_cli_operation(operation: &str) -> (r: Option<Self>)
        ensures
            r == operation_named(operation@),
    {
        proof {
            reveal_strlit("uploadFile");
            reveal_strlit("downloadFile");
            reveal_strlit("createLocalDirectory");
            reveal_strlit("createRemoteDirectory");
            reveal_strlit("deleteLocalFile");
            reveal_strlit("deleteLocalDirectory");
            reveal_strlit("deleteRemoteFile");
            reveal_strlit("deleteRemoteDirectory");
            reveal_strlit("renameLocalFile");
            reveal_strlit("renameLocalDirectory");
            reveal_strlit("renameRemoteFile");
            reveal_strlit("renameRemoteDirectory");
        }
        if str_eq(operation, "uploadFile") {
            Some(Self::UploadFile)
        } else if str_eq(operation, "downloadFile") {
            Some(Self::DownloadFile)
        } else if str_eq(operation, "createLocalDirectory") {
            Some(Self::CreateLocalDirectory)
        } else if str_eq(operation, "createRemoteDirectory") {
            Some(Self::CreateRemoteDirectory)
        } else if str_eq(operation, "deleteLocalFile") {
            Some(Self::DeleteLocalFile)
        } else if str_eq(operation, "deleteLocalDirectory") {
            Some(Self::DeleteLocalDirectory)
        } else if str_eq(operation, "deleteRemoteFile") {
            Some(Self::DeleteRemoteFile)
        } else if str_eq(operation, "deleteRemoteDirectory") {
            Some(Self::DeleteRemoteDirectory)
        } else if str_eq(operation, "renameLocalFile") {
            Some(Self::RenameLocalFile)
        } else if str_eq(operation, "renameLocalDirectory") {
            Some(Self::RenameLocalDirectory)
        } else if str_eq(operation, "renameRemoteFile") {
            Some(Self::RenameRemoteFile)
        } else if str_eq(operation, "renameRemoteDirectory") {
            Some(Self::RenameRemoteDirectory)
        } else {
            None
        }
    }
}

/// Terminal outcome reported for a canonical file operation.
#[derive(Debug, Clone, Copy, PartialEq, Eq, Hash, Structural)]
pub enum ActivityOutcome {
    Success,
    Failed,
}

/// The outcome a transfer status denotes, if it is terminal.
pub open spec fn outcome_named(name: Seq<char>) -> Option<ActivityOutcome> {
    if name == "success"@ {
        Some(ActivityOutcome::Success)
    } else if name == "error"@ {
        Some(ActivityOutcome::Failed)
    } else {
        None
    }
}

impl ActivityOutcome {
    /// `success` and `error` are terminal; every other status is not.
    pub fn from_transfer_type(transfer_type: &str) -> (r: Option<Self>)
        ensures
            r == outcome_named(transfer_type@),
    {
        proof {
            reveal_strlit("success");
            reveal_strlit("error");
        }
        if str_eq(transfer_type, "success") {
            Some(Self::Success)
        } else if str_eq(transfer_type, "error") {
            Some(Self::Failed)
        } else {
            None
        }
    }
}

/// One completed task-level operation as observed from the CLI event stream.
#[derive(Debug, Clone, PartialEq, Eq)]
pub struct ActivityEntry {
    /// Monotonically increasing identifier local to this history.
    pub id: u64,
    /// UTC receipt time expressed as Unix epoch milliseconds.
    pub observed_at_ms: i64,
    pub operation: ActivityOperation,
    pub outcome: ActivityOutcome,
    /// Path relative to the configured sync root, exactly as reported by the CLI.
    pub relative_path: String,
    pub size: Option<u64>,
}

impl ActivityEntry {
    /// An equal copy of this entry.
    pub fn duplicate(&self) -> (r: Self)
        ensures
            r == *self,
    {
        ActivityEntry {
            id: self.id,
            observed_at_ms: self.observed_at_ms,
            operation: self.operation,
            outcome: self.outcome,
            relative_path: self.relative_path.clone(),
            size: self.size,
        }
    }
}

/// Where the history is kept below the platform's local data directory.
pub fn activity_path_in(data_local_dir: &str) -> (r: String)
    ensures
        r@ == join_spec(join_spec(data_local_dir@, "filen-menubar"@), "activity-history.json"@),
{
    let app = join_path(data_local_dir, "filen-menubar");
    join_path(app.as_str(), "activity-history.json")
}

/// Where the history is kept: below the platform's local data directory,
/// when there is one.
pub fn default_activity_path() -> (r: Option<String>)
    ensures
        r matches Some(p) ==> exists|d: Seq<char>|
            p@ == join_spec(join_spec(d, "filen-menubar"@), "activity-history.json"@),
{
    match data_local_dir_text() {
        Some(dir) => Some(activity_path_in(dir.as_str())),
        None => None,
    }
}

/// The identifier handed out after `id`; wraps back to the first identifier.
pub open spec fn next_id_spec(id: u64) -> u64 {
    if id == u64::MAX {
        FIRST_ACTIVITY_ID
    } else {
        (id + 1) as u64
    }
}

/// The identifier handed out after `id`.
pub fn next_id_after(id: u64) -> (r: u64)
    ensures
        r == next_id_spec(id),
{
    if id == u64::MAX {
        FIRST_ACTIVITY_ID
    } else {
        id + 1
    }
}

/// Milliseconds between the Unix epoch and now, and whether now is before the
/// epoch, from `SystemTime::now().duration_since(UNIX_EPOCH)`. Nothing is
/// claimed about the value: it is the machine's clock.
#[verifier::external_body]
fn epoch_offset_millis() -> (r: (u128, bool)) {
    match std::time::SystemTime::now().duration_since(std::time::UNIX_EPOCH) {
        Ok(duration) => (duration.as_millis(), false),
        Err(error) => (error.duration().as_millis(), true),
    }
}

/// Signed epoch milliseconds for an offset from the epoch, saturating at `i64::MAX`.
pub open spec fn signed_millis(millis: u128, before_epoch: bool) -> int {
    let v: int = if millis > i64::MAX {
        i64::MAX as int
    } else {
        millis as int
    };
    if before_epoch {
        -v
    } else {
        v
    }
}

/// Signed epoch milliseconds for an offset from the epoch, saturating at `i64::MAX`.
pub fn millis_to_i64(millis: u128, before_epoch: bool) -> (r: i64)
    ensures
        r == signed_millis(millis, before_epoch),
{
    let v: i64 = if millis > 9223372036854775807u128 {
        i64::MAX
    } else {
        millis as i64
    };
    if before_epoch {
        -v
    } else {
        v
    }
}

/// The current UTC time as Unix epoch milliseconds.
pub fn utc_now_ms() -> (r: i64)
    ensures
        exists|m: u128, b: bool| r == signed_millis(m, b),
{
    let (m, b) = epoch_offset_millis();
    millis_to_i64(m, b)
}

/// The entry a transfer event records at time `at`, given the id to use:
/// only canonical operations with a terminal outcome and a path qualify.
pub open spec fn entry_for(transfer: TransferData, id: u64, at: i64) -> Option<ActivityEntry> {
    match (transfer.operation, transfer.transfer_type, transfer.relative_path) {
        (Some(op), Some(tt), Some(path)) => match (operation_named(op@), outcome_named(tt@)) {
            (Some(operation), Some(outcome)) => Some(
                ActivityEntry {
                    id,
                    observed_at_ms: at,
                    operation,
                    outcome,
                    relative_path: path,
                    size: transfer.size,
                },
            ),
            _ => None,
        },
        _ => None,
    }
}

/// `entries` with `entry` appended, dropping the oldest entry when full.
pub open spec fn append_bounded(entries: Seq<ActivityEntry>, entry: ActivityEntry) -> Seq<
    ActivityEntry,
> {
    if entries.len() >= MAX_ACTIVITY_ENTRIES {
        entries.drop_first().push(entry)
    } else {
        entries.push(entry)
    }
}

/// The persisted form of a history: entries oldest first.
#[derive(Debug, Clone, PartialEq, Eq)]
pub struct PersistedActivitySnapshot {
    pub version: u32,
    pub next_id: u64,
    pub entries: Vec<ActivityEntry>,
}

/// Why a persisted snapshot cannot be used.
#[derive(Debug, Clone, Copy, PartialEq, Eq, Structural)]
pub struct UnsupportedVersion {
    pub found: u32,
    pub supported: u32,
}

/// History of completed operations, oldest entry first, at most
/// [`MAX_ACTIVITY_ENTRIES`] long.
pub struct ActivityHistory {
    path: Option<String>,
    entries: VecDeque<ActivityEntry>,
    next_id: u64,
    revision: u64,
}

/// Abstract state of an [`ActivityHistory`].
pub struct HistoryModel {
    pub path: Option<Seq<char>>,
    pub entries: Seq<ActivityEntry>,
    pub next_id: u64,
    pub revision: u64,
}

impl View for ActivityHistory {
    type V = HistoryModel;

    closed spec fn view(&self) -> HistoryModel {
        HistoryModel {
            path: match self.path {
                Some(p) => Some(p@),
                None => None,
            },
            entries: self.entries@,
            next_id: self.next_id,
            revision: self.revision,
        }
    }
}

/// The largest `next_id_spec(e.id)` over `entries`, or the first id when empty.
pub open spec fn max_next_id(entries: Seq<ActivityEntry>) -> u64
    decreases entries.len(),
{
    if entries.len() == 0 {
        FIRST_ACTIVITY_ID
    } else {
        let rest = max_next_id(entries.drop_last());
        let here = next_id_spec(entries.last().id);
        if entries.len() == 1 {
            here
        } else if here > rest {
            here
        } else {
            rest
        }
    }
}

/// The last (newest) `MAX_ACTIVITY_ENTRIES` entries.
pub open spec fn retained(entries: Seq<ActivityEntry>) -> Seq<ActivityEntry> {
    if entries.len() > MAX_ACTIVITY_ENTRIES {
        entries.skip(entries.len() - MAX_ACTIVITY_ENTRIES)
    } else {
        entries
    }
}

/// The next id of a history restored from `next_id` and retained `entries`.
pub open spec fn restored_next_id(next_id: u64, entries: Seq<ActivityEntry>) -> u64 {
    let m = max_next_id(entries);
    let a = if next_id > m {
        next_id
    } else {
        m
    };
    if a > FIRST_ACTIVITY_ID {
        a
    } else {
        FIRST_ACTIVITY_ID
    }
}

/// How recording `r` changes a history: nothing for `None`, otherwise the
/// entry is appended (evicting the oldest when full) and the id and revision advance.
pub open spec fn recorded(before: HistoryModel, after: HistoryModel, r: Option<ActivityEntry>) -> bool {
    match r {
        None => after == before,
        Some(e) => after == (HistoryModel {
            path: before.path,
            entries: append_bounded(before.entries, e),
            next_id: next_id_spec(before.next_id),
            revision: before.revision.wrapping_add(1),
        }),
    }
}

impl ActivityHistory {
    /// The history holds at most [`MAX_ACTIVITY_ENTRIES`] entries, and the
    /// next identifier is never 0.
    pub closed spec fn wf(&self) -> bool {
        &&& self.entries@.len() <= MAX_ACTIVITY_ENTRIES
        &&& self.next_id >= FIRST_ACTIVITY_ID
    }

    /// A non-persistent, empty history.
    pub fn in_memory() -> (r: Self)
        ensures
            r.wf(),
            r@ == (HistoryModel {
                path: None,
                entries: Seq::empty(),
                next_id: FIRST_ACTIVITY_ID,
                revision: 0,
            }),
            next_id_covers(r@),
            ids_ordered(r@),
    {
        ActivityHistory { path: None, entries: VecDeque::new(), next_id: FIRST_ACTIVITY_ID, revision: 0 }
    }

    /// An empty history that the application persists at `path`.
    pub fn empty_at(path: String) -> (r: Self)
        ensures
            r.wf(),
            r@ == (HistoryModel {
                path: Some(path@),
                entries: Seq::empty(),
                next_id: FIRST_ACTIVITY_ID,
                revision: 0,
            }),
            next_id_covers(r@),
            ids_ordered(r@),
    {
        ActivityHistory {
            path: Some(path),
            entries: VecDeque::new(),
            next_id: FIRST_ACTIVITY_ID,
            revision: 0,
        }
    }

    /// Restore a history from a persisted snapshot: only the newest
    /// [`MAX_ACTIVITY_ENTRIES`] entries are kept, and the next id is never
    /// below one that a retained entry implies.
    pub fn from_persisted(path: Option<String>, snapshot: PersistedActivitySnapshot) -> (r: Self)
        ensures
            r.wf(),
            r@.path == (match path {
                Some(p) => Some(p@),
                None => None,
            }),
            r@.entries == retained(snapshot.entries@),
            r@.next_id == restored_next_id(snapshot.next_id, retained(snapshot.entries@)),
            r@.revision == 0,
            r@.next_id >= FIRST_ACTIVITY_ID,
            forall|i: int|
                0 <= i < r@.entries.len() && #[trigger] r@.entries[i].id < u64::MAX ==> r@.entries[i].id
                    < r@.next_id,
            next_id_covers(r@),
    {
        let all = snapshot.entries;
        let n = all.len();
        let start = if n > MAX_ACTIVITY_ENTRIES {
            n - MAX_ACTIVITY_ENTRIES
        } else {
            0
        };
        let mut entries: VecDeque<ActivityEntry> = VecDeque::new();
        let mut i = start;
        while i < n
            invariant
                n == all@.len(),
                start <= i <= n,
                start == (if n > MAX_ACTIVITY_ENTRIES { n - MAX_ACTIVITY_ENTRIES } else { 0 }),
                entries@ == all@.subrange(start as int, i as int),
            decreases n - i,
        {
            entries.push_back(all[i].duplicate());
            i = i + 1;
        }
        assert(entries@ =~= retained(all@));
        let mut best: u64 = FIRST_ACTIVITY_ID;
        let mut j: usize = 0;
        while j < entries.len()
            invariant
                0 <= j <= entries@.len(),
                best == max_next_id(entries@.take(j as int)),
            decreases entries@.len() - j,
        {
            assert(entries@.take(j + 1).drop_last() =~= entries@.take(j as int));
            let here = next_id_after(entries[j].id);
            if j == 0 || here > best {
                best = here;
            }
            j = j + 1;
        }
        assert(entries@.take(entries@.len() as int) =~= entries@);
        let a = if snapshot.next_id > best {
            snapshot.next_id
        } else {
            best
        };
        let next_id = if a > FIRST_ACTIVITY_ID {
            a
        } else {
            FIRST_ACTIVITY_ID
        };
        proof {
            assert forall|i: int|
                0 <= i < entries@.len() && #[trigger] entries@[i].id < u64::MAX implies entries@[i].id
                < next_id by {
                lemma_max_next_id_covers(entries@, i);
            }
        }
        ActivityHistory { path, entries, next_id, revision: 0 }
    }

    /// Check a loaded snapshot's format version and restore it.
    pub fn restore(path: Option<String>, snapshot: PersistedActivitySnapshot) -> (r: Result<
        Self,
        UnsupportedVersion,
    >)
        ensures
            snapshot.version != ACTIVITY_SNAPSHOT_VERSION <==> r is Err,
            r matches Err(e) ==> e == (UnsupportedVersion {
                found: snapshot.version,
                supported: ACTIVITY_SNAPSHOT_VERSION,
            }),
            r matches Ok(h) ==> h.wf() && h@.entries == retained(snapshot.entries@) && h@.next_id
                == restored_next_id(snapshot.next_id, retained(snapshot.entries@)) && h@.revision
                == 0,
    {
        if snapshot.version != ACTIVITY_SNAPSHOT_VERSION {
            return Err(
                UnsupportedVersion {
                    found: snapshot.version,
                    supported: ACTIVITY_SNAPSHOT_VERSION,
                },
            );
        }
        Ok(Self::from_persisted(path, snapshot))
    }

    /// The snapshot the application writes to disk.
    pub fn persisted_snapshot(&self) -> (r: PersistedActivitySnapshot)
        ensures
            r.version == ACTIVITY_SNAPSHOT_VERSION,
            r.next_id == self@.next_id,
            r.entries@ == self@.entries,
    {
        let mut entries: Vec<ActivityEntry> = Vec::new();
        let mut i: usize = 0;
        while i < self.entries.len()
            invariant
                0 <= i <= self.entries@.len(),
                entries@ == self.entries@.take(i as int),
            decreases self.entries@.len() - i,
        {
            entries.push(self.entries[i].duplicate());
            assert(entries@ =~= self.entries@.take(i + 1));
            i = i + 1;
        }
        assert(self.entries@.take(self.entries@.len() as int) =~= self.entries@);
        PersistedActivitySnapshot {
            version: ACTIVITY_SNAPSHOT_VERSION,
            next_id: self.next_id,
            entries,
        }
    }

    /// Record a canonical terminal event observed at `observed_at_ms`.
    ///
    /// Returns the inserted entry, or `None` (and leaves the history as it
    /// was) for progress events, raw upload/download events, unknown
    /// operations, and incomplete payloads.
    pub fn record_transfer_at(&mut self, transfer: &TransferData, observed_at_ms: i64) -> (r:
        Option<ActivityEntry>)
        requires
            old(self).wf(),
        ensures
            final(self).wf(),
            r == entry_for(*transfer, old(self)@.next_id, observed_at_ms),
            recorded(old(self)@, final(self)@, r),
            next_id_covers(old(self)@) && old(self)@.next_id < u64::MAX ==> next_id_covers(
                final(self)@,
            ),
            ids_ordered(old(self)@) && old(self)@.next_id < u64::MAX ==> ids_ordered(final(self)@),
    {
        let ghost start_model = self@;
        let operation = match &transfer.operation {
            Some(op) => match ActivityOperation::from_cli_operation(op.as_str()) {
                Some(o) => o,
                None => return None,
            },
            None => return None,
        };
        let outcome = match &transfer.transfer_type {
            Some(tt) => match ActivityOutcome::from_transfer_type(tt.as_str()) {
                Some(o) => o,
                None => return None,
            },
            None => return None,
        };
        let relative_path = match &transfer.relative_path {
            Some(p) => p.clone(),
            None => return None,
        };
        let id = self.next_id;
        self.next_id = next_id_after(id);
        let entry = ActivityEntry {
            id,
            observed_at_ms,
            operation,
            outcome,
            relative_path,
            size: transfer.size,
        };
        let ghost before = self.entries@;
        if self.entries.len() >= MAX_ACTIVITY_ENTRIES {
            let _ = self.entries.pop_front();
            assert(self.entries@ =~= before.drop_first());
        }
        self.entries.push_back(entry.duplicate());
        self.revision = self.revision.wrapping_add(1);
        proof {
            let r = Some(entry);
            assert(recorded(start_model, self@, r));
            if next_id_covers(start_model) && start_model.next_id < u64::MAX {
                lemma_record_keeps_next_id_covering(start_model, self@, entry);
            }
            if ids_ordered(start_model) && start_model.next_id < u64::MAX {
                lemma_record_keeps_ids_ordered(start_model, self@, *transfer, observed_at_ms, r);
            }
        }
        Some(entry)
    }

    /// Record a canonical terminal event with the current UTC receipt time.
    pub fn record_transfer(&mut self, transfer: &TransferData) -> (r: Option<ActivityEntry>)
        requires
            old(self).wf(),
        ensures
            final(self).wf(),
            exists|at: i64|
                r == entry_for(*transfer, old(self)@.next_id, at) && #[trigger] recorded(
                    old(self)@,
                    final(self)@,
                    r,
                ),
    {
        let at = utc_now_ms();
        self.record_transfer_at(transfer, at)
    }

    /// A point-in-time copy of the entries, newest first.
    pub fn snapshot_newest_first(&self) -> (r: Vec<ActivityEntry>)
        ensures
            r@ == self@.entries.reverse(),
    {
        let n = self.entries.len();
        let mut out: Vec<ActivityEntry> = Vec::new();
        let mut i: usize = 0;
        while i < n
            invariant
                n == self.entries@.len(),
                0 <= i <= n,
                out@ == self.entries@.reverse().take(i as int),
            decreases n - i,
        {
            out.push(self.entries[n - 1 - i].duplicate());
            assert(out@ =~= self.entries@.reverse().take(i + 1));
            i = i + 1;
        }
        assert(self.entries@.reverse().take(n as int) =~= self.entries@.reverse());
        out
    }

    /// Remove all retained entries.
    pub fn clear(&mut self)
        requires
            old(self).wf(),
        ensures
            final(self).wf(),
            final(self)@ == (HistoryModel {
                entries: Seq::empty(),
                revision: old(self)@.revision.wrapping_add(1),
                ..old(self)@
            }),
            next_id_covers(final(self)@),
            ids_ordered(final(self)@),
    {
        self.entries = VecDeque::new();
        self.revision = self.revision.wrapping_add(1);
    }

    /// The snapshot of the cleared history, written before the entries are dropped.
    pub fn cleared_snapshot(&self) -> (r: PersistedActivitySnapshot)
        ensures
            r.version == ACTIVITY_SNAPSHOT_VERSION,
            r.next_id == self@.next_id,
            r.entries@.len() == 0,
    {
        PersistedActivitySnapshot {
            version: ACTIVITY_SNAPSHOT_VERSION,
            next_id: self.next_id,
            entries: Vec::new(),
        }
    }

    /// Number of retained entries.
    pub fn len(&self) -> (r: usize)
        ensures
            r == self@.entries.len(),
    {
        self.entries.len()
    }

    /// Whether no entry is retained.
    pub fn is_empty(&self) -> (r: bool)
        ensures
            r == (self@.entries.len() == 0),
    {
        self.entries.len() == 0
    }

    /// Where the application persists this history, if anywhere.
    pub fn path(&self) -> (r: Option<&str>)
        ensures
            match r {
                Some(p) => self@.path == Some(p@),
                None => self@.path is None,
            },
    {
        match &self.path {
            Some(p) => Some(p.as_str()),
            None => None,
        }
    }

    /// Content revision, bumped by every change; subscribers watch it.
    pub fn revision(&self) -> (r: u64)
        ensures
            r == self@.revision,
    {
        self.revision
    }

    /// The id the next recorded entry receives.
    pub fn next_id(&self) -> (r: u64)
        ensures
            r == self@.next_id,
    {
        self.next_id
    }
}

/// The next identifier of a history is at least the one after each kept
/// entry (and never 0): restoring the history's own snapshot keeps it.
pub open spec fn next_id_covers(m: HistoryModel) -> bool {
    &&& m.next_id >= FIRST_ACTIVITY_ID
    &&& max_next_id(m.entries) <= m.next_id
}

/// Identifiers of a history are strictly increasing from oldest to newest,
/// all below the next identifier, which is never 0.
pub open spec fn ids_ordered(m: HistoryModel) -> bool {
    &&& m.next_id >= FIRST_ACTIVITY_ID
    &&& forall|i: int, j: int|
        0 <= i < j < m.entries.len() ==> #[trigger] m.entries[i].id < #[trigger] m.entries[j].id
    &&& forall|i: int| 0 <= i < m.entries.len() ==> #[trigger] m.entries[i].id < m.next_id
}

/// Reading back after a record: the recorded entry comes first in the
/// newest-first view, followed by the entries that were newest before, of
/// which the history keeps all when it had room and all but the oldest when
/// it was full.
pub proof fn lemma_record_then_read_newest_first(entries: Seq<ActivityEntry>, e: ActivityEntry)
    requires
        entries.len() <= MAX_ACTIVITY_ENTRIES,
    ensures
        append_bounded(entries, e).len() <= MAX_ACTIVITY_ENTRIES,
        append_bounded(entries, e).reverse()[0] == e,
        entries.len() < MAX_ACTIVITY_ENTRIES ==> append_bounded(entries, e).reverse() == seq![e]
            + entries.reverse(),
        entries.len() == MAX_ACTIVITY_ENTRIES ==> append_bounded(entries, e).reverse() == seq![e]
            + entries.reverse().take(MAX_ACTIVITY_ENTRIES - 1),
{
    let a = append_bounded(entries, e);
    if entries.len() < MAX_ACTIVITY_ENTRIES {
        assert(a.reverse() =~= seq![e] + entries.reverse());
    } else {
        assert(a.reverse() =~= seq![e] + entries.reverse().take(MAX_ACTIVITY_ENTRIES - 1));
    }
}

/// Recording keeps identifiers unique and ordered (so repeated events are
/// kept as distinct entries), as long as identifiers have not run out.
pub proof fn lemma_record_keeps_ids_ordered(
    before: HistoryModel,
    after: HistoryModel,
    transfer: TransferData,
    at: i64,
    r: Option<ActivityEntry>,
)
    requires
        ids_ordered(before),
        before.entries.len() <= MAX_ACTIVITY_ENTRIES,
        before.next_id < u64::MAX,
        r == entry_for(transfer, before.next_id, at),
        recorded(before, after, r),
    ensures
        ids_ordered(after),
        after.entries.len() <= MAX_ACTIVITY_ENTRIES,
{
    if let Some(e) = r {
        let kept = if before.entries.len() >= MAX_ACTIVITY_ENTRIES {
            before.entries.drop_first()
        } else {
            before.entries
        };
        assert(after.entries =~= kept.push(e));
        assert forall|i: int, j: int| 0 <= i < j < after.entries.len() implies #[trigger] after.entries[i].id
            < #[trigger] after.entries[j].id by {
            if before.entries.len() >= MAX_ACTIVITY_ENTRIES {
                if j < kept.len() {
                    assert(after.entries[i] == before.entries[i + 1]);
                    assert(after.entries[j] == before.entries[j + 1]);
                } else {
                    assert(after.entries[i] == before.entries[i + 1]);
                }
            } else {
                if j < kept.len() {
                    assert(after.entries[i] == before.entries[i]);
                    assert(after.entries[j] == before.entries[j]);
                } else {
                    assert(after.entries[i] == before.entries[i]);
                }
            }
        }
        assert forall|i: int| 0 <= i < after.entries.len() implies #[trigger] after.entries[i].id
            < after.next_id by {
            if i < kept.len() {
                if before.entries.len() >= MAX_ACTIVITY_ENTRIES {
                    assert(after.entries[i] == before.entries[i + 1]);
                } else {
                    assert(after.entries[i] == before.entries[i]);
                }
            }
        }
    }
}

proof fn lemma_max_next_id_bounded(entries: Seq<ActivityEntry>, bound: u64)
    requires
        bound >= FIRST_ACTIVITY_ID,
        forall|i: int| 0 <= i < entries.len() ==> #[trigger] entries[i].id < bound,
    ensures
        max_next_id(entries) <= bound,
    decreases entries.len(),
{
    if entries.len() > 0 {
        let rest = entries.drop_last();
        assert forall|i: int| 0 <= i < rest.len() implies #[trigger] rest[i].id < bound by {
            assert(rest[i] == entries[i]);
        }
        lemma_max_next_id_bounded(rest, bound);
        assert(entries[entries.len() - 1].id < bound);
    }
}

/// The largest next identifier of a list of entries is at least the one
/// after each of them.
proof fn lemma_max_next_id_covers(entries: Seq<ActivityEntry>, i: int)
    requires
        0 <= i < entries.len(),
    ensures
        max_next_id(entries) >= next_id_spec(entries[i].id),
    decreases entries.len(),
{
    if i < entries.len() - 1 {
        lemma_max_next_id_covers(entries.drop_last(), i);
        assert(entries.drop_last()[i] == entries[i]);
    }
}

/// `max_next_id` is at most any bound that covers every entry.
proof fn lemma_max_next_id_at_most(entries: Seq<ActivityEntry>, bound: u64)
    requires
        bound >= FIRST_ACTIVITY_ID,
        forall|i: int| 0 <= i < entries.len() ==> next_id_spec(#[trigger] entries[i].id) <= bound,
    ensures
        max_next_id(entries) <= bound,
    decreases entries.len(),
{
    if entries.len() > 0 {
        let rest = entries.drop_last();
        assert forall|i: int| 0 <= i < rest.len() implies next_id_spec(#[trigger] rest[i].id)
            <= bound by {
            assert(rest[i] == entries[i]);
        }
        lemma_max_next_id_at_most(rest, bound);
        assert(next_id_spec(entries[entries.len() - 1].id) <= bound);
    }
}

/// Recording an entry keeps the next identifier covering the kept entries,
/// as long as identifiers have not run out.
proof fn lemma_record_keeps_next_id_covering(before: HistoryModel, after: HistoryModel, e: ActivityEntry)
    requires
        next_id_covers(before),
        before.next_id < u64::MAX,
        e.id == before.next_id,
        after.entries == append_bounded(before.entries, e),
        after.next_id == next_id_spec(before.next_id),
    ensures
        next_id_covers(after),
{
    let kept = if before.entries.len() >= MAX_ACTIVITY_ENTRIES {
        before.entries.drop_first()
    } else {
        before.entries
    };
    assert(after.entries =~= kept.push(e));
    assert forall|i: int| 0 <= i < after.entries.len() implies next_id_spec(
        #[trigger] after.entries[i].id,
    ) <= after.next_id by {
        if i < kept.len() {
            let j = if before.entries.len() >= MAX_ACTIVITY_ENTRIES {
                i + 1
            } else {
                i
            };
            assert(after.entries[i] == before.entries[j]);
            lemma_max_next_id_covers(before.entries, j);
        }
    }
    lemma_max_next_id_at_most(after.entries, after.next_id);
}

/// Saving a history and loading the saved snapshot back restores the same
/// entries and the same next identifier: `snapshot` is what
/// `persisted_snapshot` writes for the history `h`, and the restored values
/// are those `restore`/`from_persisted` produce from it. This holds for every
/// history whose next identifier covers its entries: every new, cleared or
/// restored history, and every history recorded into since, as long as
/// identifiers have not run out (see `record_transfer_at`).
pub proof fn lemma_save_then_reload(h: HistoryModel, snapshot: PersistedActivitySnapshot)
    requires
        next_id_covers(h),
        h.entries.len() <= MAX_ACTIVITY_ENTRIES,
        snapshot.version == ACTIVITY_SNAPSHOT_VERSION,
        snapshot.next_id == h.next_id,
        snapshot.entries@ == h.entries,
    ensures
        retained(snapshot.entries@) == h.entries,
        restored_next_id(snapshot.next_id, retained(snapshot.entries@)) == h.next_id,
{
}

/// Persisting a history and restoring the snapshot gives back the same
/// entries and the same next identifier.
pub proof fn lemma_persist_restore_round_trip(m: HistoryModel)
    requires
        ids_ordered(m),
        m.entries.len() <= MAX_ACTIVITY_ENTRIES,
    ensures
        retained(m.entries) == m.entries,
        restored_next_id(m.next_id, retained(m.entries)) == m.next_id,
{
    lemma_max_next_id_bounded(m.entries, m.next_id);
}

/// Clearing and restoring the cleared snapshot gives an empty history whose
/// next identifier is unchanged, so identifiers are not handed out twice.
pub proof fn lemma_cleared_restore_keeps_next_id(next_id: u64)
    requires
        next_id >= FIRST_ACTIVITY_ID,
    ensures
        retained(Seq::<ActivityEntry>::empty()) == Seq::<ActivityEntry>::empty(),
        restored_next_id(next_id, Seq::<ActivityEntry>::empty()) == next_id,
{
}

} // verus!
