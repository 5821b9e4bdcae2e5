use filen_menubar::state::{
    AppState, CurrentTransfer, InvalidTransition, StateSnapshot, StorageInfo, SyncState,
    TransferDirection,
};

const ALL_STATES: [SyncState; 9] = [
    SyncState::Starting,
    SyncState::NotLoggedIn,
    SyncState::Synced,
    SyncState::Scanning,
    SyncState::Syncing,
    SyncState::Paused,
    SyncState::Error,
    SyncState::CliNotFound,
    SyncState::Offline,
];

#[test]
fn test_display_text_upload_arrow() {
    let transfer = CurrentTransfer::new(TransferDirection::Upload, "file.txt".to_string(), 100);
    let text = transfer.display_text(50);
    assert!(text.starts_with("↑"));
}

#[test]
fn test_display_text_download_arrow() {
    let transfer = CurrentTransfer::new(TransferDirection::Download, "file.txt".to_string(), 100);
    let text = transfer.display_text(50);
    assert!(text.starts_with("↓"));
}

#[test]
fn test_display_text_truncation() {
    let transfer = CurrentTransfer::new(
        TransferDirection::Upload,
        "very_long_filename_that_exceeds_limit.txt".to_string(),
        100,
    );
    let text = transfer.display_text(10);
    assert!(text.contains("…"));
    assert!(text.len() < "very_long_filename_that_exceeds_limit.txt".len() + 10);
}

#[test]
fn test_display_text_short_filename_no_truncation() {
    let transfer = CurrentTransfer::new(TransferDirection::Upload, "file.txt".to_string(), 100);
    let text = transfer.display_text(50);
    assert!(text.contains("file.txt"));
    assert!(!text.contains("…"));
}

#[test]
fn test_display_text_no_percentage() {
    let mut transfer = CurrentTransfer::new(TransferDirection::Upload, "file.txt".to_string(), 100);
    transfer.bytes = 45;
    let text = transfer.display_text(50);
    assert!(!text.contains("%"));
    assert!(text.contains("file.txt"));
}

// Truncation keeps the first max-1 bytes of the name, then the ellipsis.
#[test]
fn display_text_exact_values() {
    let transfer = CurrentTransfer::new(
        TransferDirection::Upload,
        "very_long_filename_that_exceeds_limit.txt".to_string(),
        100,
    );
    assert_eq!(transfer.display_text(10), "↑ very_long…");
    let fits = CurrentTransfer::new(TransferDirection::Download, "exactly10!".to_string(), 1);
    assert_eq!(fits.display_text(10), "↓ exactly10!");
    let unicode = CurrentTransfer::new(TransferDirection::Upload, "äöü.txt".to_string(), 1);
    // "äö" is four bytes; the name is cut after them.
    assert_eq!(unicode.display_text(5), "↑ äö…");
}

#[test]
fn test_sync_state_icon_suffix_valid_values() {
    let idle_states = [
        SyncState::Starting,
        SyncState::NotLoggedIn,
        SyncState::Synced,
        SyncState::Paused,
        SyncState::Offline,
    ];
    for state in idle_states {
        assert_eq!(state.icon_suffix(), "idle", "Expected 'idle' for {:?}", state);
    }

    assert_eq!(SyncState::Scanning.icon_suffix(), "syncing");
    assert_eq!(SyncState::Syncing.icon_suffix(), "syncing");
    assert_eq!(SyncState::Error.icon_suffix(), "error");
    assert_eq!(SyncState::CliNotFound.icon_suffix(), "error");
}

#[test]
fn test_starting_valid_transitions() {
    let state = SyncState::Starting;
    assert!(state.can_transition_to(SyncState::Scanning));
    assert!(state.can_transition_to(SyncState::NotLoggedIn));
    assert!(state.can_transition_to(SyncState::CliNotFound));
    assert!(state.can_transition_to(SyncState::Starting));
}

#[test]
fn test_starting_invalid_transition() {
    let state = SyncState::Starting;
    assert!(!state.can_transition_to(SyncState::Error));
    assert!(!state.can_transition_to(SyncState::Offline));
    assert!(!state.can_transition_to(SyncState::Paused));
}

#[test]
fn test_scanning_valid_transitions() {
    let state = SyncState::Scanning;
    assert!(state.can_transition_to(SyncState::Syncing));
    assert!(state.can_transition_to(SyncState::Synced));
    assert!(state.can_transition_to(SyncState::Error));
    assert!(state.can_transition_to(SyncState::Offline));
}

#[test]
fn test_syncing_valid_transitions() {
    let state = SyncState::Syncing;
    assert!(state.can_transition_to(SyncState::Synced));
    assert!(state.can_transition_to(SyncState::Scanning));
    assert!(state.can_transition_to(SyncState::Error));
    assert!(state.can_transition_to(SyncState::Offline));
}

#[test]
fn test_synced_valid_transitions() {
    let state = SyncState::Synced;
    assert!(state.can_transition_to(SyncState::Scanning));
    assert!(state.can_transition_to(SyncState::Syncing));
    assert!(state.can_transition_to(SyncState::NotLoggedIn));
    assert!(state.can_transition_to(SyncState::Paused));
}

#[test]
fn test_offline_can_retry() {
    let state = SyncState::Offline;
    assert!(state.can_transition_to(SyncState::Scanning));
}

#[test]
fn test_try_transition_success() {
    let state = SyncState::Starting;
    let result = state.try_transition(SyncState::Scanning);
    assert!(result.is_ok());
    assert_eq!(result.unwrap(), SyncState::Scanning);
}

#[test]
fn test_try_transition_failure() {
    let state = SyncState::Starting;
    let result = state.try_transition(SyncState::Paused);
    assert!(result.is_err());
    let err = result.unwrap_err();
    assert_eq!(err.from, SyncState::Starting);
    assert_eq!(err.to, SyncState::Paused);
}

#[test]
fn test_try_transition_same_state() {
    let state = SyncState::Syncing;
    let result = state.try_transition(SyncState::Syncing);
    assert!(result.is_ok());
    assert_eq!(result.unwrap(), SyncState::Syncing);
}

#[test]
fn test_invalid_transition_display() {
    let err = InvalidTransition { from: SyncState::Starting, to: SyncState::Paused };
    let display = err.message();
    assert!(display.contains("Starting"));
    assert!(display.contains("Paused"));
    assert_eq!(display, "Invalid state transition: Starting -> Paused");
}

#[test]
fn test_is_active() {
    assert!(SyncState::Scanning.is_active());
    assert!(SyncState::Syncing.is_active());
    assert!(!SyncState::Synced.is_active());
    assert!(!SyncState::Starting.is_active());
    assert!(!SyncState::Error.is_active());
}

#[test]
fn test_is_error() {
    assert!(SyncState::Error.is_error());
    assert!(SyncState::CliNotFound.is_error());
    assert!(SyncState::Offline.is_error());
    assert!(!SyncState::Synced.is_error());
    assert!(!SyncState::Syncing.is_error());
}

#[test]
fn test_all_states_have_valid_transitions() {
    for state in ALL_STATES {
        let transitions = state.valid_transitions();
        assert!(
            !transitions.is_empty(),
            "{:?} should have at least one valid transition",
            state
        );
    }
}

// No state lists itself, and every listed target is accepted.
#[test]
fn transition_lists_match_can_transition_to() {
    for from in ALL_STATES {
        let targets = from.valid_transitions();
        assert!(!targets.contains(&from));
        for to in ALL_STATES {
            assert_eq!(from.can_transition_to(to), from == to || targets.contains(&to));
        }
    }
    assert_eq!(SyncState::CliNotFound.valid_transitions(), &[SyncState::Starting]);
    assert!(!SyncState::CliNotFound.can_transition_to(SyncState::NotLoggedIn));
}

#[test]
fn test_state_snapshot_default() {
    let snapshot = StateSnapshot::initial();
    assert_eq!(snapshot.sync_state, SyncState::Starting);
    assert_eq!(snapshot.pending_count, 0);
    assert!(snapshot.current_transfer.is_none());
}

#[test]
fn test_app_state_initial_values() {
    let state = AppState::new();
    assert_eq!(state.get_sync_state(), SyncState::Starting);
    assert_eq!(state.get_pending_count(), 0);
    assert!(state.get_current_transfer().is_none());
    assert_eq!(state.get_storage_info(), StorageInfo::zero());
    assert!(!state.is_logged_in());
    assert_eq!(state.get_last_synced(), None);
}

#[test]
fn test_set_logged_in_false_changes_state() {
    let mut state = AppState::new();
    state.set_sync_state(SyncState::Synced);
    state.set_logged_in(false);
    assert_eq!(state.get_sync_state(), SyncState::NotLoggedIn);
}

#[test]
fn test_pending_count_roundtrip() {
    let mut state = AppState::new();
    state.set_pending_count(42);
    assert_eq!(state.get_pending_count(), 42);
}

#[test]
fn test_current_transfer_roundtrip() {
    let mut state = AppState::new();
    let transfer =
        CurrentTransfer::new(TransferDirection::Upload, "document.pdf".to_string(), 1024);
    state.set_current_transfer(Some(transfer.clone()));

    let retrieved = state.get_current_transfer();
    assert!(retrieved.is_some());
    let retrieved = retrieved.unwrap();
    assert_eq!(retrieved.filename, "document.pdf");
    assert_eq!(retrieved.size, 1024);
}

#[test]
fn test_current_transfer_clear() {
    let mut state = AppState::new();
    let transfer = CurrentTransfer::new(TransferDirection::Upload, "file.txt".to_string(), 100);
    state.set_current_transfer(Some(transfer));
    state.set_current_transfer(None);
    assert!(state.get_current_transfer().is_none());
}

#[test]
fn test_transition_to_valid() {
    let mut state = AppState::new();
    let result = state.transition_to(SyncState::Scanning);
    assert!(result.is_ok());
    assert_eq!(state.get_sync_state(), SyncState::Scanning);
}

#[test]
fn test_transition_to_invalid() {
    let mut state = AppState::new();
    let result = state.transition_to(SyncState::Paused);
    assert!(result.is_err());
    assert_eq!(state.get_sync_state(), SyncState::Starting);
}

#[test]
fn test_transition_to_same_state() {
    let mut state = AppState::new();
    let result = state.transition_to(SyncState::Starting);
    assert!(result.is_ok());
    assert_eq!(state.get_sync_state(), SyncState::Starting);
}

#[test]
fn test_transition_to_unchecked_allows_invalid() {
    let mut state = AppState::new();
    let was_valid = state.transition_to_unchecked(SyncState::Paused);
    assert!(!was_valid);
    assert_eq!(state.get_sync_state(), SyncState::Paused);
}

#[test]
fn test_subscribe_receives_initial_state() {
    let state = AppState::new();
    let snapshot = state.snapshot();
    assert_eq!(snapshot.sync_state, SyncState::Starting);
    assert_eq!(snapshot.pending_count, 0);
    assert!(snapshot.current_transfer.is_none());
}

#[test]
fn test_subscribe_notified_on_sync_state_change() {
    let mut state = AppState::new();
    let seen = state.notifications();
    state.set_sync_state(SyncState::Scanning);
    assert_ne!(state.notifications(), seen);
    assert_eq!(state.snapshot().sync_state, SyncState::Scanning);
}

#[test]
fn test_subscribe_notified_on_pending_count_change() {
    let mut state = AppState::new();
    let seen = state.notifications();
    state.set_pending_count(5);
    assert_ne!(state.notifications(), seen);
    assert_eq!(state.snapshot().pending_count, 5);
}

#[test]
fn test_subscribe_not_notified_on_same_value() {
    let mut state = AppState::new();
    let seen = state.notifications();
    state.set_sync_state(SyncState::Starting);
    state.set_pending_count(0);
    assert_eq!(state.notifications(), seen);
}

// A refused transition publishes nothing; an accepted one publishes once.
#[test]
fn refused_transition_publishes_nothing() {
    let mut state = AppState::new();
    let seen = state.notifications();
    assert!(state.transition_to(SyncState::Offline).is_err());
    assert_eq!(state.notifications(), seen);
    assert!(state.transition_to(SyncState::Scanning).is_ok());
    assert_eq!(state.notifications(), seen + 1);
}

// Logging in does not touch the sync state; logging out forces NotLoggedIn.
#[test]
fn login_flag_and_last_synced() {
    let mut state = AppState::new();
    state.set_logged_in(true);
    assert!(state.is_logged_in());
    assert_eq!(state.get_sync_state(), SyncState::Starting);
    state.set_last_synced(1_700_000_000_000);
    assert_eq!(state.get_last_synced(), Some(1_700_000_000_000));
    assert_eq!(state.snapshot().last_synced, Some(1_700_000_000_000));
    state.set_storage_info(StorageInfo { used: 5, total: 10 });
    assert_eq!(state.get_storage_info(), StorageInfo { used: 5, total: 10 });
}

// Progress updates only touch an existing transfer.
#[test]
fn transfer_progress_updates_bytes() {
    let mut state = AppState::new();
    state.update_transfer_progress(10);
    assert!(state.get_current_transfer().is_none());
    state.set_current_transfer(Some(CurrentTransfer::new(
        TransferDirection::Download,
        "a.bin".to_string(),
        100,
    )));
    state.update_transfer_progress(40);
    assert_eq!(state.get_current_transfer().unwrap().bytes, 40);
}

#[test]
fn test_progress_percent_zero_size_file() {
    let transfer = CurrentTransfer::new(TransferDirection::Upload, "file.txt".to_string(), 0);
    assert_eq!(transfer.progress_percent(), 0);
}

#[test]
fn test_progress_percent_partial() {
    let mut transfer =
        CurrentTransfer::new(TransferDirection::Upload, "file.txt".to_string(), 1000);
    transfer.bytes = 500;
    assert_eq!(transfer.progress_percent(), 50);
}

#[test]
fn test_progress_percent_complete() {
    let mut transfer =
        CurrentTransfer::new(TransferDirection::Upload, "file.txt".to_string(), 1000);
    transfer.bytes = 1000;
    assert_eq!(transfer.progress_percent(), 100);
}

#[test]
fn test_progress_percent_overflow_capped() {
    let mut transfer =
        CurrentTransfer::new(TransferDirection::Upload, "file.txt".to_string(), 1000);
    transfer.bytes = 2000; // More than total size
    assert_eq!(transfer.progress_percent(), 100);
}

#[test]
fn progress_percent_is_the_whole_percent() {
    let mut transfer = CurrentTransfer::new(TransferDirection::Download, "f".to_string(), 100);
    transfer.bytes = 29;
    assert_eq!(transfer.progress_percent(), 29);
    transfer.size = 3;
    transfer.bytes = 2;
    assert_eq!(transfer.progress_percent(), 66);
    transfer.size = u64::MAX;
    transfer.bytes = u64::MAX;
    assert_eq!(transfer.progress_percent(), 100);
}
