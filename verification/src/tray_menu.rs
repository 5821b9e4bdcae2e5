//! Layout of the tray menu, choice of the tray icon and tooltip, and the
//! tray interface that each platform implements. Drawing the menu and
//! translating its labels is the platform tray's part.

use crate::state::{CurrentTransfer, SyncState};
use crate::tray::{pause_resume_enabled, TrayAction};
use vstd::prelude::*;

verus! {

/// Platform-agnostic tray interface
pub trait TrayInterface: Send + Sync {
    /// Update the tray icon based on sync state; `animation_frame` animates
    /// the loading indicators.
    fn update_icon(&self, state: SyncState, animation_frame: u8);

    /// Update the status text in the menu
    fn update_status(&self, text: &str);

    /// Update the pending file count (shown below status when syncing)
    fn update_pending_count(&self, count: u32);

    /// Update the storage info in the menu
    fn update_storage(&self, text: &str);

    /// Set the login state: `None` while starting (neither Login nor Logout
    /// shown), `Some(true)` logged in (Logout shown), `Some(false)` not
    /// logged in (Login shown).
    fn set_login_state(&self, state: Option<bool>);

    /// Update the current transfer display (`None` hides it)
    fn update_current_transfer(&self, transfer: Option<&CurrentTransfer>);

    /// Update the time of the last successful sync (`None` when unknown)
    fn update_last_synced(&self, time_text: Option<&str>);
}

/// Texts of the tray menu, translated by the platform tray.
#[derive(Debug, Clone, Copy, PartialEq, Eq, Structural)]
pub enum MenuLabel {
    /// "Status: ..." with the current status text
    Status,
    /// The line below the status (see `get_pending_text`)
    PendingText,
    /// The current transfer's display text
    Transfer,
    OpenLocalFolder,
    OpenWebUi,
    /// "Pause syncing" or "Resume syncing" (see `pause_resume_label_key`)
    PauseResume,
    Login,
    Logout,
    Settings,
    ShowLogs,
    About,
    Quit,
}

/// One entry of the tray menu.
#[derive(Debug, Clone, Copy, PartialEq, Eq, Structural)]
pub enum MenuEntry {
    /// A line of information that cannot be clicked
    Info(MenuLabel),
    Separator,
    /// A clickable item sending `action` when enabled
    Item { label: MenuLabel, action: TrayAction, enabled: bool },
}

/// The tray menu: status and pending lines (and the current transfer when
/// there is one), the folder and web items, the pause/resume item, Login or
/// Logout depending on the login state (neither while it is unknown), then
/// settings, logs, about and quit.
pub open spec fn menu_spec(sync_state: SyncState, login_state: Option<bool>, has_transfer: bool) -> Seq<
    MenuEntry,
> {
    let head = seq![MenuEntry::Info(MenuLabel::Status), MenuEntry::Info(MenuLabel::PendingText)];
    let transfer = if has_transfer {
        seq![MenuEntry::Info(MenuLabel::Transfer)]
    } else {
        Seq::empty()
    };
    let links = seq![
        MenuEntry::Separator,
        MenuEntry::Item {
            label: MenuLabel::OpenLocalFolder,
            action: TrayAction::OpenFolder,
            enabled: login_state == Some(true),
        },
        MenuEntry::Item { label: MenuLabel::OpenWebUi, action: TrayAction::OpenWebUI, enabled: true },
        MenuEntry::Separator,
        MenuEntry::Item {
            label: MenuLabel::PauseResume,
            action: TrayAction::TogglePause,
            enabled: pause_resume_spec(sync_state, login_state),
        },
    ];
    let account = match login_state {
        Some(true) => seq![
            MenuEntry::Item { label: MenuLabel::Logout, action: TrayAction::Logout, enabled: true },
        ],
        Some(false) => seq![
            MenuEntry::Item { label: MenuLabel::Login, action: TrayAction::Login, enabled: true },
        ],
        None => Seq::empty(),
    };
    let tail = seq![
        MenuEntry::Separator,
        MenuEntry::Item { label: MenuLabel::Settings, action: TrayAction::Settings, enabled: true },
        MenuEntry::Item { label: MenuLabel::ShowLogs, action: TrayAction::ShowLogs, enabled: true },
        MenuEntry::Item { label: MenuLabel::About, action: TrayAction::About, enabled: true },
        MenuEntry::Separator,
        MenuEntry::Item { label: MenuLabel::Quit, action: TrayAction::Quit, enabled: true },
    ];
    head + transfer + links + account + tail
}

/// When the pause/resume item is enabled (as `pause_resume_enabled`).
pub open spec fn pause_resume_spec(sync_state: SyncState, login_state: Option<bool>) -> bool {
    login_state == Some(true) && (sync_state == SyncState::Synced || sync_state
        == SyncState::Scanning || sync_state == SyncState::Syncing || sync_state
        == SyncState::Paused || sync_state == SyncState::Error || sync_state == SyncState::Offline)
}

/// The entries of the tray menu, top to bottom.
pub fn menu_layout(sync_state: SyncState, login_state: Option<bool>, has_transfer: bool) -> (r: Vec<
    MenuEntry,
>)
    ensures
        r@ == menu_spec(sync_state, login_state, has_transfer),
{
    let mut items: Vec<MenuEntry> = Vec::new();
    items.push(MenuEntry::Info(MenuLabel::Status));
    items.push(MenuEntry::Info(MenuLabel::PendingText));
    if has_transfer {
        items.push(MenuEntry::Info(MenuLabel::Transfer));
    }
    items.push(MenuEntry::Separator);
    let logged_in = match login_state {
        Some(b) => b,
        None => false,
    };
    items.push(
        MenuEntry::Item {
            label: MenuLabel::OpenLocalFolder,
            action: TrayAction::OpenFolder,
            enabled: logged_in,
        },
    );
    items.push(
        MenuEntry::Item { label: MenuLabel::OpenWebUi, action: TrayAction::OpenWebUI, enabled: true },
    );
    items.push(MenuEntry::Separator);
    let pause_enabled = pause_resume_enabled(sync_state, login_state);
    items.push(
        MenuEntry::Item {
            label: MenuLabel::PauseResume,
            action: TrayAction::TogglePause,
            enabled: pause_enabled,
        },
    );
    match login_state {
        Some(true) => {
            items.push(
                MenuEntry::Item { label: MenuLabel::Logout, action: TrayAction::Logout, enabled: true },
            );
        },
        Some(false) => {
            items.push(
                MenuEntry::Item { label: MenuLabel::Login, action: TrayAction::Login, enabled: true },
            );
        },
        None => {},
    }
    items.push(MenuEntry::Separator);
    items.push(
        MenuEntry::Item { label: MenuLabel::Settings, action: TrayAction::Settings, enabled: true },
    );
    items.push(
        MenuEntry::Item { label: MenuLabel::ShowLogs, action: TrayAction::ShowLogs, enabled: true },
    );
    items.push(MenuEntry::Item { label: MenuLabel::About, action: TrayAction::About, enabled: true });
    items.push(MenuEntry::Separator);
    items.push(MenuEntry::Item { label: MenuLabel::Quit, action: TrayAction::Quit, enabled: true });
    assert(items@ =~= menu_spec(sync_state, login_state, has_transfer));
    items
}

/// The picture shown in the tray.
#[derive(Debug, Clone, Copy, PartialEq, Eq, Structural)]
pub enum TrayIcon {
    Idle,
    Error,
    /// One of the four frames of the syncing animation
    Syncing(u8),
}

/// The tray icon of a state: the error icon for errors that need the user,
/// the animated icon while starting or syncing, else the idle icon.
pub open spec fn icon_spec(state: SyncState, animation_frame: u8) -> TrayIcon {
    match state {
        SyncState::Error | SyncState::CliNotFound => TrayIcon::Error,
        SyncState::Starting | SyncState::Scanning | SyncState::Syncing => TrayIcon::Syncing(
            (animation_frame % 4) as u8,
        ),
        _ => TrayIcon::Idle,
    }
}

/// The tray icon to show for a state and animation frame.
pub fn icon_for_state(state: SyncState, animation_frame: u8) -> (r: TrayIcon)
    ensures
        r == icon_spec(state, animation_frame),
{
    match state {
        SyncState::Error | SyncState::CliNotFound => TrayIcon::Error,
        SyncState::Starting | SyncState::Scanning | SyncState::Syncing => TrayIcon::Syncing(
            animation_frame % 4,
        ),
        _ => TrayIcon::Idle,
    }
}

/// Whether the tray should ask for the user's attention (host highlighting
/// and assistive technology announce it): for errors that need the user.
pub fn needs_attention(state: SyncState) -> (r: bool)
    ensures
        r == (state == SyncState::Error || state == SyncState::CliNotFound),
{
    matches!(state, SyncState::Error | SyncState::CliNotFound)
}

/// Whether an icon update must redraw: the state changed, or the animation
/// frame changed while the state is animated. Every redraw is a round trip
/// to the tray host, so nothing else redraws.
pub fn icon_redraw_needed(
    old_state: SyncState,
    old_frame: u8,
    state: SyncState,
    animation_frame: u8,
) -> (r: bool)
    ensures
        r == (old_state != state || ((state == SyncState::Starting || state == SyncState::Scanning
            || state == SyncState::Syncing) && old_frame != animation_frame)),
{
    let animating = matches!(state, SyncState::Starting | SyncState::Scanning | SyncState::Syncing);
    old_state != state || (animating && old_frame != animation_frame)
}

/// Whether the menu's pending line must be rewritten on an icon update: the
/// state changed, or the frame changed while the line shows animated dots
/// (starting or scanning).
pub fn pending_line_refresh_needed(
    old_state: SyncState,
    old_frame: u8,
    state: SyncState,
    animation_frame: u8,
) -> (r: bool)
    ensures
        r == (old_state != state || (old_frame != animation_frame && (state == SyncState::Scanning
            || state == SyncState::Starting))),
{
    old_state != state || (old_frame != animation_frame && (state == SyncState::Scanning || state
        == SyncState::Starting))
}

/// What the pause/resume item does in the current state.
#[derive(Debug, Clone, Copy, PartialEq, Eq, Structural)]
pub enum PauseToggle {
    /// Set `Scanning` and start the sync process
    Resume,
    /// Stop the sync process and set `Paused`
    Pause,
}

/// Pause syncing when active, resume when paused.
pub fn pause_toggle_for(current: SyncState) -> (r: PauseToggle)
    ensures
        r == (if current == SyncState::Paused {
            PauseToggle::Resume
        } else {
            PauseToggle::Pause
        }),
{
    if current == SyncState::Paused {
        PauseToggle::Resume
    } else {
        PauseToggle::Pause
    }
}

/// The title of the tray tooltip.
#[derive(Debug, Clone, Copy, PartialEq, Eq, Structural)]
pub enum TooltipTitle {
    /// "Syncing 1 file"
    SyncingFile,
    /// "Syncing N files"
    SyncingFiles(u32),
    /// The status text
    Status,
}

/// The tooltip title: the number of files being synced when there are any,
/// else the status.
pub fn tooltip_title(pending_count: u32) -> (r: TooltipTitle)
    ensures
        pending_count == 1 ==> r == TooltipTitle::SyncingFile,
        pending_count > 1 ==> r == TooltipTitle::SyncingFiles(pending_count),
        pending_count == 0 ==> r == TooltipTitle::Status,
{
    if pending_count > 0 {
        if pending_count == 1 {
            TooltipTitle::SyncingFile
        } else {
            TooltipTitle::SyncingFiles(pending_count)
        }
    } else {
        TooltipTitle::Status
    }
}

/// Maximum length, in bytes, of the filename shown for the current transfer.
pub const TRANSFER_NAME_MAX_BYTES: usize = 25;

/// Programs tried in order on Linux to open the settings file, until one starts.
pub const LINUX_SETTINGS_EDITORS: [&'static str; 5] = ["xdg-open", "gedit", "kate", "xed", "nano"];

/// The About dialog's text for a version.
pub open spec fn about_spec(version: Seq<char>) -> Seq<char> {
    "Version "@ + version + "\n\nA lightweight menubar app for Filen cloud sync.\n\nAuthor: Philipp Gerard\nLicense: MIT\n\nhttps://github.com/philippgerard/filen-menubar"@
}

/// The About dialog's text for a version.
pub fn about_text(version: &str) -> (r: String)
    ensures
        r@ == about_spec(version@),
{
    let mut out = String::from_str("Version ");
    out.append(version);
    out.append(
        "\n\nA lightweight menubar app for Filen cloud sync.\n\nAuthor: Philipp Gerard\nLicense: MIT\n\nhttps://github.com/philippgerard/filen-menubar",
    );
    out
}

} // verus!
