use filen_menubar::activity::{
    next_id_after, ActivityEntry, ActivityHistory, ActivityOperation, ActivityOutcome,
    PersistedActivitySnapshot, UnsupportedVersion, ACTIVITY_SNAPSHOT_VERSION, FIRST_ACTIVITY_ID,
    MAX_ACTIVITY_ENTRIES,
};
use filen_menubar::activity_view::{
    category_for, operation_label_key, outcome_name, ActivityViewEntry,
};
use filen_menubar::cli::events::TransferData;

fn transfer(
    operation: Option<&str>,
    transfer_type: Option<&str>,
    relative_path: Option<&str>,
    size: Option<u64>,
) -> TransferData {
    TransferData {
        operation: operation.map(str::to_string),
        transfer_type: transfer_type.map(str::to_string),
        relative_path: relative_path.map(str::to_string),
        bytes: None,
        size,
    }
}

#[test]
fn maps_every_canonical_operation_and_terminal_outcome() {
    let mappings = [
        ("uploadFile", ActivityOperation::UploadFile),
        ("downloadFile", ActivityOperation::DownloadFile),
        ("createLocalDirectory", ActivityOperation::CreateLocalDirectory),
        ("createRemoteDirectory", ActivityOperation::CreateRemoteDirectory),
        ("deleteLocalFile", ActivityOperation::DeleteLocalFile),
        ("deleteLocalDirectory", ActivityOperation::DeleteLocalDirectory),
        ("deleteRemoteFile", ActivityOperation::DeleteRemoteFile),
        ("deleteRemoteDirectory", ActivityOperation::DeleteRemoteDirectory),
        ("renameLocalFile", ActivityOperation::RenameLocalFile),
        ("renameLocalDirectory", ActivityOperation::RenameLocalDirectory),
        ("renameRemoteFile", ActivityOperation::RenameRemoteFile),
        ("renameRemoteDirectory", ActivityOperation::RenameRemoteDirectory),
    ];
    let outcomes = [("success", ActivityOutcome::Success), ("error", ActivityOutcome::Failed)];

    for (operation_name, expected_operation) in mappings {
        for (transfer_type, expected_outcome) in outcomes {
            let mut history = ActivityHistory::in_memory();
            let event = transfer(
                Some(operation_name),
                Some(transfer_type),
                Some("nested/file.txt"),
                Some(42),
            );
            let entry = history
                .record_transfer_at(&event, 1_700_000_000_123)
                .expect("canonical terminal event should be recorded");

            assert_eq!(entry.id, FIRST_ACTIVITY_ID);
            assert_eq!(entry.observed_at_ms, 1_700_000_000_123);
            assert_eq!(entry.operation, expected_operation);
            assert_eq!(entry.outcome, expected_outcome);
            assert_eq!(entry.relative_path, "nested/file.txt");
            assert_eq!(entry.size, Some(42));
        }
    }
}

#[test]
fn ignores_nonterminal_raw_unknown_and_incomplete_events() {
    let ignored = [
        transfer(Some("upload"), Some("finished"), Some("raw.txt"), None),
        transfer(Some("download"), Some("success"), Some("raw.txt"), None),
        transfer(Some("uploadFile"), Some("finished"), Some("file.txt"), None),
        transfer(Some("uploadFile"), Some("progress"), Some("file.txt"), None),
        transfer(Some("futureOperation"), Some("success"), Some("file.txt"), None),
        transfer(None, Some("success"), Some("file.txt"), None),
        transfer(Some("uploadFile"), None, Some("file.txt"), None),
        transfer(Some("uploadFile"), Some("success"), None, None),
    ];
    let mut history = ActivityHistory::in_memory();

    for event in ignored {
        assert!(history.record_transfer(&event).is_none());
    }
    assert!(history.is_empty());
    assert_eq!(history.revision(), 0);
    assert_eq!(history.next_id(), FIRST_ACTIVITY_ID);
}

#[test]
fn repeated_canonical_terminal_events_are_retained_as_distinct_actions() {
    let mut history = ActivityHistory::in_memory();
    let event = transfer(Some("uploadFile"), Some("success"), Some("same.txt"), None);

    let first = history.record_transfer_at(&event, 100).unwrap();
    let second = history.record_transfer_at(&event, 101).unwrap();

    assert_ne!(first.id, second.id);
    assert_eq!(history.len(), 2);
    assert_eq!(
        history
            .snapshot_newest_first()
            .iter()
            .map(|entry| entry.observed_at_ms)
            .collect::<Vec<_>>(),
        vec![101, 100]
    );
}

#[test]
fn retains_only_newest_five_hundred_in_newest_first_order() {
    let mut history = ActivityHistory::in_memory();

    for index in 0..505 {
        let path = format!("file-{index}.txt");
        let event = transfer(Some("uploadFile"), Some("success"), Some(&path), None);
        history.record_transfer_at(&event, index).unwrap();
    }

    let entries = history.snapshot_newest_first();
    assert_eq!(entries.len(), MAX_ACTIVITY_ENTRIES);
    assert_eq!(entries.first().unwrap().relative_path, "file-504.txt");
    assert_eq!(entries.first().unwrap().id, 505);
    assert_eq!(entries.last().unwrap().relative_path, "file-5.txt");
    assert_eq!(entries.last().unwrap().id, 6);
}

#[test]
fn preserves_unicode_relative_paths_and_optional_size() {
    let mut history = ActivityHistory::in_memory();
    let event = transfer(
        Some("downloadFile"),
        Some("success"),
        Some("Fotos/Frühling/東京 🗼.jpg"),
        None,
    );

    let entry = history.record_transfer_at(&event, 7).unwrap();
    assert_eq!(entry.relative_path, "Fotos/Frühling/東京 🗼.jpg");
    assert_eq!(entry.size, None);
}

#[test]
fn clear_updates_snapshot_and_notifies_subscribers() {
    let mut history = ActivityHistory::in_memory();
    let event = transfer(Some("deleteRemoteFile"), Some("success"), Some("old.txt"), None);

    history.record_transfer_at(&event, 8).unwrap();
    let after_record = history.revision();

    history.clear();
    let after_clear = history.revision();

    assert!(after_clear > after_record);
    assert!(history.snapshot_newest_first().is_empty());
    assert!(history.is_empty());
    // Identifiers are not reused after a clear.
    assert_eq!(history.record_transfer_at(&event, 9).unwrap().id, 2);
}

#[test]
fn persistent_round_trip_preserves_entries_and_next_id() {
    let mut history = ActivityHistory::empty_at("/data/activity.json".to_string());
    let first = transfer(Some("createRemoteDirectory"), Some("success"), Some("Dokumente"), None);
    let second = transfer(
        Some("uploadFile"),
        Some("error"),
        Some("Dokumente/fehlgeschlagen.txt"),
        Some(123),
    );
    history.record_transfer_at(&first, 10).unwrap();
    history.record_transfer_at(&second, 11).unwrap();
    let snapshot = history.persisted_snapshot();
    assert_eq!(snapshot.version, ACTIVITY_SNAPSHOT_VERSION);

    let mut loaded =
        ActivityHistory::restore(Some("/data/activity.json".to_string()), snapshot).unwrap();
    let loaded_entries = loaded.snapshot_newest_first();
    assert_eq!(loaded_entries.len(), 2);
    assert_eq!(loaded_entries[0].outcome, ActivityOutcome::Failed);
    assert_eq!(loaded_entries[1].operation, ActivityOperation::CreateRemoteDirectory);
    assert_eq!(loaded.path(), Some("/data/activity.json"));

    let third = transfer(Some("deleteLocalFile"), Some("success"), Some("old.txt"), None);
    assert_eq!(loaded.record_transfer_at(&third, 12).unwrap().id, 3);
}

fn entry(id: u64) -> ActivityEntry {
    ActivityEntry {
        id,
        observed_at_ms: id as i64,
        operation: ActivityOperation::UploadFile,
        outcome: ActivityOutcome::Success,
        relative_path: format!("file-{id}.txt"),
        size: None,
    }
}

#[test]
fn load_trims_oversized_snapshot_to_newest_entries() {
    let entries = (1..=510).map(entry).collect();
    let snapshot = PersistedActivitySnapshot {
        version: ACTIVITY_SNAPSHOT_VERSION,
        next_id: 511,
        entries,
    };

    let history = ActivityHistory::restore(None, snapshot).unwrap();
    let retained = history.snapshot_newest_first();
    assert_eq!(retained.len(), MAX_ACTIVITY_ENTRIES);
    assert_eq!(retained.first().unwrap().id, 510);
    assert_eq!(retained.last().unwrap().id, 11);
    assert_eq!(history.next_id(), 511);
}

#[test]
fn unsupported_snapshot_version_fails_open() {
    let snapshot = PersistedActivitySnapshot {
        version: ACTIVITY_SNAPSHOT_VERSION + 1,
        next_id: FIRST_ACTIVITY_ID,
        entries: Vec::new(),
    };
    match ActivityHistory::restore(None, snapshot) {
        Err(e) => assert_eq!(
            e,
            UnsupportedVersion { found: ACTIVITY_SNAPSHOT_VERSION + 1, supported: ACTIVITY_SNAPSHOT_VERSION }
        ),
        Ok(_) => panic!("a newer snapshot format must be refused"),
    }
}

// A stale next_id in a snapshot is raised above every retained entry.
#[test]
fn restore_never_reuses_identifiers() {
    let snapshot = PersistedActivitySnapshot {
        version: ACTIVITY_SNAPSHOT_VERSION,
        next_id: 2,
        entries: vec![entry(7), entry(4)],
    };
    let mut history = ActivityHistory::from_persisted(None, snapshot);
    assert_eq!(history.next_id(), 8);
    let event = transfer(Some("uploadFile"), Some("success"), Some("x"), None);
    assert_eq!(history.record_transfer_at(&event, 1).unwrap().id, 8);
    let zero = PersistedActivitySnapshot { version: 1, next_id: 0, entries: Vec::new() };
    assert_eq!(ActivityHistory::from_persisted(None, zero).next_id(), FIRST_ACTIVITY_ID);
}

#[test]
fn identifiers_wrap_to_the_first_one() {
    assert_eq!(next_id_after(41), 42);
    assert_eq!(next_id_after(u64::MAX), FIRST_ACTIVITY_ID);
}

#[test]
fn cleared_snapshot_keeps_next_id() {
    let mut history = ActivityHistory::in_memory();
    let event = transfer(Some("uploadFile"), Some("success"), Some("x"), None);
    history.record_transfer_at(&event, 1).unwrap();
    let cleared = history.cleared_snapshot();
    assert!(cleared.entries.is_empty());
    assert_eq!(cleared.next_id, 2);
    assert_eq!(history.len(), 1);
}

#[test]
fn categorizes_copy_operations_and_other_changes() {
    assert_eq!(category_for(&ActivityOperation::UploadFile), "upload");
    assert_eq!(category_for(&ActivityOperation::DownloadFile), "download");
    assert_eq!(category_for(&ActivityOperation::DeleteRemoteFile), "change");
}

#[test]
fn produces_distinct_success_and_failure_labels() {
    let success = operation_label_key(&ActivityOperation::UploadFile, &ActivityOutcome::Success);
    let failed = operation_label_key(&ActivityOperation::UploadFile, &ActivityOutcome::Failed);
    assert_eq!(success, "activity.operation.upload_file");
    assert_eq!(failed, "activity.operation.upload_file_failed");
    assert_eq!(
        operation_label_key(&ActivityOperation::RenameLocalDirectory, &ActivityOutcome::Failed),
        "activity.operation.rename_local_directory_failed"
    );
}

#[test]
fn view_entry_carries_the_entry_fields() {
    let mut e = entry(3);
    e.outcome = ActivityOutcome::Failed;
    e.size = Some(9);
    let row = ActivityViewEntry::from_entry(e, "Upload to cloud failed".to_string());
    assert_eq!(row.id, 3);
    assert_eq!(row.observed_at_ms, 3);
    assert_eq!(row.category, "upload");
    assert_eq!(row.outcome, "failed");
    assert_eq!(row.action, "Upload to cloud failed");
    assert_eq!(row.relative_path, "file-3.txt");
    assert_eq!(row.size, Some(9));
    assert_eq!(outcome_name(&ActivityOutcome::Success), "success");
}

// The clock-based record uses a plausible current time.
#[test]
fn record_transfer_uses_the_current_time() {
    let mut history = ActivityHistory::in_memory();
    let event = transfer(Some("uploadFile"), Some("success"), Some("now.txt"), None);
    let entry = history.record_transfer(&event).unwrap();
    assert!(entry.observed_at_ms > 1_600_000_000_000);
}

#[test]
fn history_file_location() {
    assert_eq!(
        filen_menubar::activity::activity_path_in("/home/u/.local/share"),
        "/home/u/.local/share/filen-menubar/activity-history.json"
    );
}
