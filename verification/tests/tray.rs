use filen_menubar::state::SyncState;
use filen_menubar::tray::{
    get_animated_dots, get_pending_text, initial_state, is_animated_state, needs_timer_tick,
    pause_resume_enabled, pause_resume_label_key, starts_sync, status_text_key, PendingText,
    StatusTimers, TrayAction,
};
use filen_menubar::tray_menu::{
    icon_for_state, icon_redraw_needed, menu_layout, needs_attention, pause_toggle_for,
    pending_line_refresh_needed, tooltip_title, MenuEntry, MenuLabel, PauseToggle, TooltipTitle,
    TrayIcon,
};

#[test]
fn test_get_animated_dots_cycles() {
    assert_eq!(get_animated_dots(0), ".");
    assert_eq!(get_animated_dots(1), "..");
    assert_eq!(get_animated_dots(2), "...");
    assert_eq!(get_animated_dots(3), ".");
    assert_eq!(get_animated_dots(4), "..");
    assert_eq!(get_animated_dots(5), "...");
}

#[test]
fn test_get_pending_text_offline() {
    assert_eq!(get_pending_text(SyncState::Offline, 5, 0, None), PendingText::NoInternet);
}

#[test]
fn test_get_pending_text_scanning_shows_dots() {
    assert_eq!(get_pending_text(SyncState::Scanning, 0, 0, None), PendingText::Dots("."));
    assert_eq!(get_pending_text(SyncState::Scanning, 0, 1, None), PendingText::Dots(".."));
    assert_eq!(get_pending_text(SyncState::Scanning, 0, 2, None), PendingText::Dots("..."));
}

#[test]
fn test_get_pending_text_starting_shows_dots() {
    assert_eq!(get_pending_text(SyncState::Starting, 0, 0, None), PendingText::Dots("."));
}

#[test]
fn test_get_pending_text_synced_zero_files() {
    assert_eq!(get_pending_text(SyncState::Synced, 0, 0, None), PendingText::UpToDate);
}

#[test]
fn test_get_pending_text_synced_shows_last_synced_time() {
    assert_eq!(
        get_pending_text(SyncState::Synced, 0, 0, Some("14:23")),
        PendingText::UpToDateAt("14:23".to_string())
    );
}

#[test]
fn test_get_pending_text_paused_shows_hint() {
    assert_eq!(get_pending_text(SyncState::Paused, 0, 0, None), PendingText::PausedHint);
}

#[test]
fn test_get_pending_text_syncing_with_files() {
    assert_eq!(get_pending_text(SyncState::Syncing, 5, 0, None), PendingText::FilesRemaining(5));
    assert_eq!(get_pending_text(SyncState::Syncing, 1, 0, None), PendingText::FileRemaining);
    assert_eq!(get_pending_text(SyncState::Error, 0, 0, Some("09:00")), PendingText::UpToDate);
}

#[test]
fn test_pause_resume_label() {
    assert_ne!(pause_resume_label_key(SyncState::Paused), pause_resume_label_key(SyncState::Syncing));
    assert_eq!(pause_resume_label_key(SyncState::Paused), "menu.resume");
    assert_eq!(pause_resume_label_key(SyncState::Error), "menu.pause");
}

#[test]
fn test_pause_resume_enabled_only_when_logged_in() {
    assert!(!pause_resume_enabled(SyncState::Syncing, Some(false)));
    assert!(!pause_resume_enabled(SyncState::Syncing, None));
    assert!(pause_resume_enabled(SyncState::Syncing, Some(true)));
    assert!(pause_resume_enabled(SyncState::Paused, Some(true)));
    assert!(!pause_resume_enabled(SyncState::NotLoggedIn, Some(true)));
    assert!(!pause_resume_enabled(SyncState::CliNotFound, Some(true)));
}

#[test]
fn status_keys_and_animation_states() {
    assert_eq!(status_text_key(SyncState::CliNotFound), "status.cli_not_found");
    assert_eq!(status_text_key(SyncState::NotLoggedIn), "status.not_logged_in");
    assert!(is_animated_state(SyncState::Starting));
    assert!(!is_animated_state(SyncState::Offline));
    assert!(needs_timer_tick(SyncState::Offline));
    assert!(needs_timer_tick(SyncState::Error));
    assert!(!needs_timer_tick(SyncState::Synced));
    assert!(!needs_timer_tick(SyncState::Paused));
}

// Offline: a reconnect is attempted every 60 ticks (30 seconds).
#[test]
fn offline_retry_every_sixty_ticks() {
    let mut timers = StatusTimers::new();
    for _ in 0..59 {
        assert!(!timers.on_tick(SyncState::Offline).restart_sync);
    }
    assert!(timers.on_tick(SyncState::Offline).restart_sync);
    assert_eq!(timers.offline_ticks, 0);
}

// Error: restarts after 5s, 10s, 20s, 40s, then every 60s; Synced resets the back-off.
#[test]
fn error_restart_backs_off_and_resets_on_synced() {
    let mut timers = StatusTimers::new();
    let mut delays = Vec::new();
    for _ in 0..6 {
        let mut ticks = 0;
        loop {
            ticks += 1;
            if timers.on_tick(SyncState::Error).restart_sync {
                break;
            }
        }
        delays.push(ticks / 2);
    }
    assert_eq!(delays, vec![5, 10, 20, 40, 60, 60]);
    timers.on_state_change(SyncState::Syncing);
    assert_eq!(timers.error_restart_delay_secs, 60);
    timers.on_state_change(SyncState::Synced);
    assert_eq!(timers.error_restart_delay_secs, 5);
}

#[test]
fn animation_frames_and_icon_updates() {
    let mut timers = StatusTimers::new();
    let a = timers.on_tick(SyncState::Syncing);
    assert!(a.update_icon && !a.restart_sync);
    assert_eq!(timers.animation_frame, 1);
    for _ in 0..3 {
        timers.on_tick(SyncState::Offline);
    }
    assert_eq!(timers.animation_frame, 0);
    assert!(!timers.on_tick(SyncState::Offline).update_icon);
}

#[test]
fn startup_state_choice() {
    assert_eq!(initial_state(None, true), (SyncState::NotLoggedIn, Some(false)));
    assert_eq!(initial_state(Some((false, true)), true), (SyncState::CliNotFound, None));
    assert_eq!(initial_state(Some((true, true)), true), (SyncState::Scanning, Some(true)));
    assert_eq!(initial_state(Some((true, true)), false), (SyncState::Synced, Some(true)));
    assert_eq!(initial_state(Some((true, false)), true), (SyncState::NotLoggedIn, Some(false)));
    assert!(starts_sync(SyncState::Scanning));
    assert!(!starts_sync(SyncState::Synced));
}

#[test]
fn menu_for_logged_in_user_with_transfer() {
    let menu = menu_layout(SyncState::Syncing, Some(true), true);
    assert_eq!(menu.len(), 15);
    assert_eq!(menu[0], MenuEntry::Info(MenuLabel::Status));
    assert_eq!(menu[1], MenuEntry::Info(MenuLabel::PendingText));
    assert_eq!(menu[2], MenuEntry::Info(MenuLabel::Transfer));
    assert_eq!(menu[3], MenuEntry::Separator);
    assert_eq!(
        menu[4],
        MenuEntry::Item { label: MenuLabel::OpenLocalFolder, action: TrayAction::OpenFolder, enabled: true }
    );
    assert_eq!(
        menu[7],
        MenuEntry::Item { label: MenuLabel::PauseResume, action: TrayAction::TogglePause, enabled: true }
    );
    assert_eq!(
        menu[8],
        MenuEntry::Item { label: MenuLabel::Logout, action: TrayAction::Logout, enabled: true }
    );
    assert_eq!(
        menu[14],
        MenuEntry::Item { label: MenuLabel::Quit, action: TrayAction::Quit, enabled: true }
    );
}

#[test]
fn menu_hides_account_items_while_login_state_unknown() {
    let menu = menu_layout(SyncState::Starting, None, false);
    assert_eq!(menu.len(), 13);
    assert!(!menu.iter().any(|e| matches!(
        e,
        MenuEntry::Item { label: MenuLabel::Login | MenuLabel::Logout, .. }
    )));
    assert_eq!(
        menu[3],
        MenuEntry::Item { label: MenuLabel::OpenLocalFolder, action: TrayAction::OpenFolder, enabled: false }
    );
    let logged_out = menu_layout(SyncState::NotLoggedIn, Some(false), false);
    assert_eq!(
        logged_out[7],
        MenuEntry::Item { label: MenuLabel::Login, action: TrayAction::Login, enabled: true }
    );
    assert_eq!(
        logged_out[6],
        MenuEntry::Item { label: MenuLabel::PauseResume, action: TrayAction::TogglePause, enabled: false }
    );
}

#[test]
fn icons_tooltips_and_redraws() {
    assert_eq!(icon_for_state(SyncState::CliNotFound, 3), TrayIcon::Error);
    assert_eq!(icon_for_state(SyncState::Scanning, 6), TrayIcon::Syncing(2));
    assert_eq!(icon_for_state(SyncState::Offline, 1), TrayIcon::Idle);
    assert!(needs_attention(SyncState::Error));
    assert!(!needs_attention(SyncState::Offline));
    assert_eq!(tooltip_title(0), TooltipTitle::Status);
    assert_eq!(tooltip_title(1), TooltipTitle::SyncingFile);
    assert_eq!(tooltip_title(7), TooltipTitle::SyncingFiles(7));
    assert!(icon_redraw_needed(SyncState::Synced, 0, SyncState::Paused, 0));
    assert!(icon_redraw_needed(SyncState::Syncing, 0, SyncState::Syncing, 1));
    assert!(!icon_redraw_needed(SyncState::Synced, 0, SyncState::Synced, 1));
    assert!(pending_line_refresh_needed(SyncState::Scanning, 0, SyncState::Scanning, 1));
    assert!(!pending_line_refresh_needed(SyncState::Syncing, 0, SyncState::Syncing, 1));
    assert_eq!(pause_toggle_for(SyncState::Paused), PauseToggle::Resume);
    assert_eq!(pause_toggle_for(SyncState::Error), PauseToggle::Pause);
}

#[test]
fn about_text_and_settings_editors() {
    let text = filen_menubar::tray_menu::about_text("0.1.23");
    assert!(text.starts_with("Version 0.1.23\n\nA lightweight menubar app"));
    assert!(text.ends_with("https://github.com/philippgerard/filen-menubar"));
    assert_eq!(filen_menubar::tray_menu::LINUX_SETTINGS_EDITORS[0], "xdg-open");
}
