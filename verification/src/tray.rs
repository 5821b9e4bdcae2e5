//! Decisions behind the tray menu and icon: which text to show, when the
//! pause/resume item is enabled, the status loop's animation, offline retry
//! and error back-off timers, and the state chosen at startup.
//!
//! The application draws the tray and looks up translated texts; the
//! translation keys it needs are returned here.

use crate::state::SyncState;
use vstd::prelude::*;

verus! {

/// Tray menu action
#[derive(Debug, Clone, Copy, PartialEq, Eq, Structural)]
pub enum TrayAction {
    OpenFolder,
    OpenWebUI,
    Login,
    /// The in-app login window reported success
    LoginCompleted,
    Logout,
    /// Pause syncing when active, resume when paused
    TogglePause,
    Settings,
    ShowLogs,
    About,
    CheckForUpdates,
    Quit,
}

pub open spec fn dots_for(frame: u8) -> Seq<char> {
    if frame % 3 == 0 {
        "."@
    } else if frame % 3 == 1 {
        ".."@
    } else {
        "..."@
    }
}

/// The animated dots for loading states: ".", "..", "..." cycling with the frame.
pub fn get_animated_dots(animation_frame: u8) -> (r: &'static str)
    ensures
        r@ == dots_for(animation_frame),
{
    match animation_frame % 3 {
        0 => ".",
        1 => "..",
        _ => "...",
    }
}

/// The line shown below the status in the tray menu.
#[derive(Debug, Clone, PartialEq, Eq)]
pub enum PendingText {
    /// "No internet connection"
    NoInternet,
    /// "Syncing is paused"
    PausedHint,
    /// Loading animation while the pending count is unknown
    Dots(&'static str),
    /// "1 file remaining"
    FileRemaining,
    /// "{count} files remaining"
    FilesRemaining(u32),
    /// "Up to date (at {time})"
    UpToDateAt(String),
    /// "Up to date"
    UpToDate,
}

/// Which pending-count line applies.
pub open spec fn pending_text_spec(
    sync_state: SyncState,
    pending_count: u32,
    animation_frame: u8,
    last_synced: Option<Seq<char>>,
) -> PendingTextView {
    if sync_state == SyncState::Offline {
        PendingTextView::NoInternet
    } else if sync_state == SyncState::Paused {
        PendingTextView::PausedHint
    } else if sync_state == SyncState::Scanning || sync_state == SyncState::Starting {
        PendingTextView::Dots(dots_for(animation_frame))
    } else if pending_count > 0 {
        if pending_count == 1 {
            PendingTextView::FileRemaining
        } else {
            PendingTextView::FilesRemaining(pending_count)
        }
    } else if sync_state == SyncState::Synced {
        match last_synced {
            Some(t) => PendingTextView::UpToDateAt(t),
            None => PendingTextView::UpToDate,
        }
    } else {
        PendingTextView::UpToDate
    }
}

/// Abstract value of a [`PendingText`].
pub enum PendingTextView {
    NoInternet,
    PausedHint,
    Dots(Seq<char>),
    FileRemaining,
    FilesRemaining(u32),
    UpToDateAt(Seq<char>),
    UpToDate,
}

impl View for PendingText {
    type V = PendingTextView;

    open spec fn view(&self) -> PendingTextView {
        match self {
            PendingText::NoInternet => PendingTextView::NoInternet,
            PendingText::PausedHint => PendingTextView::PausedHint,
            PendingText::Dots(d) => PendingTextView::Dots(d@),
            PendingText::FileRemaining => PendingTextView::FileRemaining,
            PendingText::FilesRemaining(n) => PendingTextView::FilesRemaining(*n),
            PendingText::UpToDateAt(t) => PendingTextView::UpToDateAt(t@),
            PendingText::UpToDate => PendingTextView::UpToDate,
        }
    }
}

/// The pending-count line for this state: offline and paused notices,
/// animated dots while the count is unknown (scanning, starting), the number
/// of files remaining, or "up to date" (with the last sync time when synced
/// and known).
pub fn get_pending_text(
    sync_state: SyncState,
    pending_count: u32,
    animation_frame: u8,
    last_synced: Option<&str>,
) -> (r: PendingText)
    ensures
        r@ == pending_text_spec(
            sync_state,
            pending_count,
            animation_frame,
            match last_synced {
                Some(t) => Some(t@),
                None => None,
            },
        ),
{
    if sync_state == SyncState::Offline {
        return PendingText::NoInternet;
    }
    if sync_state == SyncState::Paused {
        return PendingText::PausedHint;
    }
    if sync_state == SyncState::Scanning || sync_state == SyncState::Starting {
        return PendingText::Dots(get_animated_dots(animation_frame));
    }
    if pending_count > 0 {
        if pending_count == 1 {
            PendingText::FileRemaining
        } else {
            PendingText::FilesRemaining(pending_count)
        }
    } else if sync_state == SyncState::Synced {
        match last_synced {
            Some(time) => PendingText::UpToDateAt(String::from_str(time)),
            None => PendingText::UpToDate,
        }
    } else {
        PendingText::UpToDate
    }
}

/// Whether the pause/resume menu item is enabled: only when logged in, and
/// while a sync process is (or should be) running, or paused.
pub fn pause_resume_enabled(sync_state: SyncState, login_state: Option<bool>) -> (r: bool)
    ensures
        r == (login_state == Some(true) && (sync_state == SyncState::Synced || sync_state
            == SyncState::Scanning || sync_state == SyncState::Syncing || sync_state
            == SyncState::Paused || sync_state == SyncState::Error || sync_state
            == SyncState::Offline)),
{
    match login_state {
        Some(true) => matches!(
            sync_state,
            SyncState::Synced | SyncState::Scanning | SyncState::Syncing | SyncState::Paused
                | SyncState::Error | SyncState::Offline
        ),
        _ => false,
    }
}

/// Translation key of the pause/resume item's label.
pub fn pause_resume_label_key(sync_state: SyncState) -> (r: &'static str)
    ensures
        sync_state == SyncState::Paused ==> r@ == "menu.resume"@,
        sync_state != SyncState::Paused ==> r@ == "menu.pause"@,
{
    if sync_state == SyncState::Paused {
        "menu.resume"
    } else {
        "menu.pause"
    }
}

/// Translation key of a state's status line.
pub fn status_text_key(state: SyncState) -> (r: &'static str)
    ensures
        r@ == status_key(state),
{
    match state {
        SyncState::Starting => "status.starting",
        SyncState::NotLoggedIn => "status.not_logged_in",
        SyncState::Synced => "status.synced",
        SyncState::Scanning => "status.scanning",
        SyncState::Syncing => "status.syncing",
        SyncState::Paused => "status.paused",
        SyncState::Error => "status.error",
        SyncState::CliNotFound => "status.cli_not_found",
        SyncState::Offline => "status.offline",
    }
}

pub open spec fn status_key(state: SyncState) -> Seq<char> {
    match state {
        SyncState::Starting => "status.starting"@,
        SyncState::NotLoggedIn => "status.not_logged_in"@,
        SyncState::Synced => "status.synced"@,
        SyncState::Scanning => "status.scanning"@,
        SyncState::Syncing => "status.syncing"@,
        SyncState::Paused => "status.paused"@,
        SyncState::Error => "status.error"@,
        SyncState::CliNotFound => "status.cli_not_found"@,
        SyncState::Offline => "status.offline"@,
    }
}

/// States whose tray icon is animated; only these need per-frame icon updates.
pub fn is_animated_state(state: SyncState) -> (r: bool)
    ensures
        r == (state == SyncState::Starting || state == SyncState::Scanning || state
            == SyncState::Syncing),
{
    matches!(state, SyncState::Starting | SyncState::Scanning | SyncState::Syncing)
}

/// States in which the 500ms timer must run: animated icons plus the
/// offline-retry and error-backoff counters. In all other states the app is
/// quiescent at rest.
pub fn needs_timer_tick(state: SyncState) -> (r: bool)
    ensures
        r == (state == SyncState::Starting || state == SyncState::Scanning || state
            == SyncState::Syncing || state == SyncState::Offline || state == SyncState::Error),
{
    is_animated_state(state) || state == SyncState::Offline || state == SyncState::Error
}

/// Ticks (of 500ms) spent offline before a reconnect attempt: about 30 seconds.
pub const OFFLINE_RETRY_TICKS: u32 = 60;

/// First delay before restarting a crashed CLI.
pub const MIN_ERROR_RESTART_DELAY_SECS: u32 = 5;

/// Longest delay between restarts of a crashed CLI.
pub const MAX_ERROR_RESTART_DELAY_SECS: u32 = 60;

/// Counters of the status update loop.
pub struct StatusTimers {
    pub animation_frame: u8,
    pub offline_ticks: u32,
    pub error_ticks: u32,
    pub error_restart_delay_secs: u32,
}

/// What a timer tick asks the application to do.
#[derive(Debug, Clone, Copy, PartialEq, Eq, Structural)]
pub struct TickActions {
    /// Redraw the animated icon with the new frame.
    pub update_icon: bool,
    /// Set `Scanning` and start the sync process again.
    pub restart_sync: bool,
}

/// The next restart delay: doubled, capped.
pub open spec fn next_delay(d: u32) -> u32 {
    if d * 2 > MAX_ERROR_RESTART_DELAY_SECS {
        MAX_ERROR_RESTART_DELAY_SECS
    } else {
        (d * 2) as u32
    }
}

/// Law: the line below the status. Paused always shows the paused hint and
/// offline the no-internet notice, whatever the pending count (pausing does
/// not reset it); scanning and starting show the loading dots; otherwise a
/// positive count shows the files remaining (one or many), and nothing
/// pending shows "up to date", with the last sync time only when synced and
/// known.
pub proof fn lemma_pending_line(
    sync_state: SyncState,
    pending_count: u32,
    animation_frame: u8,
    last_synced: Option<Seq<char>>,
)
    ensures
        ({
            let line = pending_text_spec(sync_state, pending_count, animation_frame, last_synced);
            &&& sync_state == SyncState::Paused ==> line == PendingTextView::PausedHint
            &&& sync_state == SyncState::Offline ==> line == PendingTextView::NoInternet
            &&& (sync_state == SyncState::Scanning || sync_state == SyncState::Starting)
                ==> line is Dots
            &&& (sync_state != SyncState::Paused && sync_state != SyncState::Offline && sync_state
                != SyncState::Scanning && sync_state != SyncState::Starting) ==> {
                &&& pending_count == 1 ==> line == PendingTextView::FileRemaining
                &&& pending_count > 1 ==> line == PendingTextView::FilesRemaining(pending_count)
                &&& pending_count == 0 ==> (if sync_state == SyncState::Synced
                    && last_synced is Some {
                    line == PendingTextView::UpToDateAt(last_synced->0)
                } else {
                    line == PendingTextView::UpToDate
                })
            }
        }),
{
}

/// The delays between restarts after CLI errors run 5s, 10s, 20s, 40s, then
/// stay at 60s: each is at least the previous one and never above 60s.
pub proof fn lemma_restart_delays()
    ensures
        next_delay(5) == 10,
        next_delay(10) == 20,
        next_delay(20) == 40,
        next_delay(40) == 60,
        next_delay(60) == 60,
        forall|d: u32|
            MIN_ERROR_RESTART_DELAY_SECS <= d <= MAX_ERROR_RESTART_DELAY_SECS ==> d <= #[trigger] next_delay(d)
                <= MAX_ERROR_RESTART_DELAY_SECS,
{
}

impl StatusTimers {
    /// The restart delay stays within its bounds and the counters below their triggers.
    pub open spec fn wf(&self) -> bool {
        &&& MIN_ERROR_RESTART_DELAY_SECS <= self.error_restart_delay_secs
            <= MAX_ERROR_RESTART_DELAY_SECS
        &&& self.animation_frame < 4
        &&& self.offline_ticks < OFFLINE_RETRY_TICKS
        &&& self.error_ticks < 2 * self.error_restart_delay_secs
    }

    pub fn new() -> (r: Self)
        ensures
            r.wf(),
            r.animation_frame == 0,
            r.offline_ticks == 0,
            r.error_ticks == 0,
            r.error_restart_delay_secs == MIN_ERROR_RESTART_DELAY_SECS,
    {
        StatusTimers {
            animation_frame: 0,
            offline_ticks: 0,
            error_ticks: 0,
            error_restart_delay_secs: MIN_ERROR_RESTART_DELAY_SECS,
        }
    }

    /// A new state was published: leaving `Offline` or `Error` resets that
    /// counter, and only a completed cycle (`Synced`) resets the back-off.
    pub fn on_state_change(&mut self, state: SyncState)
        requires
            old(self).wf(),
        ensures
            final(self).wf(),
            final(self).animation_frame == old(self).animation_frame,
            final(self).offline_ticks == (if state != SyncState::Offline {
                0
            } else {
                old(self).offline_ticks
            }),
            final(self).error_ticks == (if state != SyncState::Error {
                0
            } else {
                old(self).error_ticks
            }),
            final(self).error_restart_delay_secs == (if state == SyncState::Synced {
                MIN_ERROR_RESTART_DELAY_SECS
            } else {
                old(self).error_restart_delay_secs
            }),
    {
        if state != SyncState::Offline {
            self.offline_ticks = 0;
        }
        if state != SyncState::Error {
            self.error_ticks = 0;
            if state == SyncState::Synced {
                self.error_restart_delay_secs = MIN_ERROR_RESTART_DELAY_SECS;
            }
        }
    }

    /// One 500ms tick while `needs_timer_tick(state)`: advance the animation,
    /// count towards an offline reconnect (every 60 ticks) or an error restart
    /// (after twice the current delay in ticks, doubling the delay up to 60s
    /// for the next attempt).
    pub fn on_tick(&mut self, state: SyncState) -> (r: TickActions)
        requires
            old(self).wf(),
        ensures
            final(self).wf(),
            final(self).animation_frame == (old(self).animation_frame + 1) % 4,
            r.update_icon == (state == SyncState::Starting || state == SyncState::Scanning || state
                == SyncState::Syncing),
            state == SyncState::Offline ==> {
                &&& r.restart_sync == (old(self).offline_ticks + 1 >= OFFLINE_RETRY_TICKS)
                &&& final(self).offline_ticks == (if r.restart_sync {
                    0
                } else {
                    old(self).offline_ticks + 1
                })
                &&& final(self).error_ticks == old(self).error_ticks
                &&& final(self).error_restart_delay_secs == old(self).error_restart_delay_secs
            },
            state == SyncState::Error ==> {
                &&& r.restart_sync == (old(self).error_ticks + 1 >= 2
                    * old(self).error_restart_delay_secs)
                &&& final(self).error_ticks == (if r.restart_sync {
                    0
                } else {
                    old(self).error_ticks + 1
                })
                &&& final(self).error_restart_delay_secs == (if r.restart_sync {
                    next_delay(old(self).error_restart_delay_secs)
                } else {
                    old(self).error_restart_delay_secs
                })
                &&& final(self).offline_ticks == old(self).offline_ticks
            },
            state != SyncState::Offline && state != SyncState::Error ==> {
                &&& !r.restart_sync
                &&& final(self).offline_ticks == old(self).offline_ticks
                &&& final(self).error_ticks == old(self).error_ticks
                &&& final(self).error_restart_delay_secs == old(self).error_restart_delay_secs
            },
    {
        self.animation_frame = (self.animation_frame + 1) % 4;
        let update_icon = is_animated_state(state);
        let mut restart_sync = false;
        if state == SyncState::Offline {
            self.offline_ticks = self.offline_ticks + 1;
            if self.offline_ticks >= OFFLINE_RETRY_TICKS {
                self.offline_ticks = 0;
                restart_sync = true;
            }
        }
        if state == SyncState::Error {
            self.error_ticks = self.error_ticks + 1;
            let delay_ticks = self.error_restart_delay_secs * 2;
            if self.error_ticks >= delay_ticks {
                self.error_ticks = 0;
                let doubled = self.error_restart_delay_secs * 2;
                self.error_restart_delay_secs = if doubled > MAX_ERROR_RESTART_DELAY_SECS {
                    MAX_ERROR_RESTART_DELAY_SECS
                } else {
                    doubled
                };
                restart_sync = true;
            }
        }
        TickActions { update_icon, restart_sync }
    }
}

/// What the startup check found: the state to enter and, when known, whether
/// the user is logged in. `None` for the check means it timed out.
pub fn initial_state(check: Option<(bool, bool)>, auto_start: bool) -> (r: (SyncState, Option<bool>))
    ensures
        r == (match check {
            None => (SyncState::NotLoggedIn, Some(false)),
            Some((cli_available, credentials_exist)) => if !cli_available {
                (SyncState::CliNotFound, None)
            } else if credentials_exist {
                if auto_start {
                    (SyncState::Scanning, Some(true))
                } else {
                    (SyncState::Synced, Some(true))
                }
            } else {
                (SyncState::NotLoggedIn, Some(false))
            },
        }),
{
    match check {
        None => (SyncState::NotLoggedIn, Some(false)),
        Some((cli_available, credentials_exist)) => {
            if !cli_available {
                (SyncState::CliNotFound, None)
            } else if credentials_exist {
                if auto_start {
                    (SyncState::Scanning, Some(true))
                } else {
                    (SyncState::Synced, Some(true))
                }
            } else {
                (SyncState::NotLoggedIn, Some(false))
            }
        },
    }
}

/// After startup, the sync process is started only for an active state.
pub fn starts_sync(state: SyncState) -> (r: bool)
    ensures
        r == (state == SyncState::Scanning || state == SyncState::Syncing),
{
    state == SyncState::Scanning || state == SyncState::Syncing
}

} // verus!
