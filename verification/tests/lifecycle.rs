use filen_menubar::cli::lifecycle::SyncLifecycle;
use filen_menubar::state::SyncState;

// A stop requested after a start was decided keeps the start from launching.
#[test]
fn stop_queued_after_start_prevents_a_late_process_launch() {
    let mut lifecycle = SyncLifecycle::new();
    let permit = lifecycle.request_sync_start();
    assert!(lifecycle.permit_is_current(permit));
    lifecycle.request_stop();
    assert!(!lifecycle.permit_is_current(permit));
    // A later explicit start issues a fresh permit; the old one stays stale.
    let fresh = lifecycle.request_sync_start();
    assert!(lifecycle.permit_is_current(fresh));
    assert!(!lifecycle.permit_is_current(permit));
}

// An automatic retry never overrides a pause.
#[test]
fn startup_start_captured_before_state_publication_cannot_override_pause() {
    let mut lifecycle = SyncLifecycle::new();
    assert!(lifecycle.retry_sync_permit().is_none());
    let startup = lifecycle.request_sync_start();
    let retry = lifecycle.retry_sync_permit().unwrap();
    assert!(lifecycle.permit_is_current(retry));
    lifecycle.request_stop();
    assert!(lifecycle.retry_sync_permit().is_none());
    assert!(!lifecycle.permit_is_current(startup));
    assert!(!lifecycle.permit_is_current(retry));
}

// Relaunching deactivates the previous process's output.
#[test]
fn concurrent_starts_join_stale_monitors_and_leave_one_process() {
    let mut lifecycle = SyncLifecycle::new();
    lifecycle.request_sync_start();
    assert!(!lifecycle.stop_current());
    let first = lifecycle.launched();
    assert!(lifecycle.is_active(first));
    assert!(lifecycle.is_running());
    assert!(lifecycle.stop_current());
    assert!(!lifecycle.is_active(first));
    let second = lifecycle.launched();
    assert_ne!(first, second);
    assert!(lifecycle.is_active(second));
    assert!(!lifecycle.is_active(first));
    assert!(!lifecycle.is_active(0));
}

// A crash of the active process is an error (unless offline); stale or
// intentional exits change nothing.
#[test]
fn natural_child_exit_is_reaped_and_clears_running() {
    let mut lifecycle = SyncLifecycle::new();
    let generation = lifecycle.launched();
    assert_eq!(lifecycle.process_exited(generation, false, SyncState::Syncing), Some(SyncState::Error));
    assert!(!lifecycle.is_running());
    assert!(!lifecycle.is_active(generation));

    let generation = lifecycle.launched();
    assert_eq!(lifecycle.process_exited(generation, false, SyncState::Offline), None);
    assert!(!lifecycle.is_active(generation));

    let old = lifecycle.launched();
    lifecycle.stop_current();
    let current = lifecycle.launched();
    assert_eq!(lifecycle.process_exited(old, false, SyncState::Syncing), None);
    assert!(lifecycle.is_active(current));
    assert_eq!(lifecycle.process_exited(current, true, SyncState::Syncing), None);
    assert!(lifecycle.is_active(current));
}
