//! Sync state machine and the application state that the tray observes.

use vstd::prelude::*;
use vstd::utf8::{decode_utf8, encode_utf8, encode_utf8_decode_utf8, is_char_boundary};

verus! {

/// Represents the current sync state
#[derive(Debug, Clone, Copy, PartialEq, Eq, Structural)]
pub enum SyncState {
    /// Application is starting up
    Starting,
    /// Not logged in
    NotLoggedIn,
    /// Successfully synced, idle
    Synced,
    /// Scanning local and remote file trees to find changes
    Scanning,
    /// Currently syncing files
    Syncing,
    /// Sync paused
    Paused,
    /// Error occurred during sync
    Error,
    /// Filen CLI not found/not installed
    CliNotFound,
    /// No internet connection
    Offline,
}

/// The states that `from` may move to, in the order the state machine lists them:
/// ```text
/// Starting → Scanning, Syncing, Synced, NotLoggedIn, CliNotFound
/// NotLoggedIn → Scanning, Syncing
/// Scanning → Syncing, Synced, Error, Offline, Paused
/// Syncing → Synced, Scanning, Error, Offline, Paused
/// Synced → Scanning, Syncing, NotLoggedIn, Paused
/// Paused → Scanning, Syncing, NotLoggedIn
/// Error → Scanning, NotLoggedIn, CliNotFound, Paused
/// CliNotFound → Starting (retry)
/// Offline → Scanning, Syncing, Error, Paused (retry when online)
/// ```
pub open spec fn transitions(from: SyncState) -> Seq<SyncState> {
    match from {
        SyncState::Starting => seq![
            SyncState::Scanning,
            SyncState::Syncing,
            SyncState::Synced,
            SyncState::NotLoggedIn,
            SyncState::CliNotFound,
        ],
        SyncState::NotLoggedIn => seq![SyncState::Scanning, SyncState::Syncing],
        SyncState::Scanning => seq![
            SyncState::Syncing,
            SyncState::Synced,
            SyncState::Error,
            SyncState::Offline,
            SyncState::Paused,
        ],
        SyncState::Syncing => seq![
            SyncState::Synced,
            SyncState::Scanning,
            SyncState::Error,
            SyncState::Offline,
            SyncState::Paused,
        ],
        SyncState::Synced => seq![
            SyncState::Scanning,
            SyncState::Syncing,
            SyncState::NotLoggedIn,
            SyncState::Paused,
        ],
        SyncState::Paused => seq![SyncState::Scanning, SyncState::Syncing, SyncState::NotLoggedIn],
        SyncState::Error => seq![
            SyncState::Scanning,
            SyncState::NotLoggedIn,
            SyncState::CliNotFound,
            SyncState::Paused,
        ],
        SyncState::CliNotFound => seq![SyncState::Starting],
        SyncState::Offline => seq![
            SyncState::Scanning,
            SyncState::Syncing,
            SyncState::Error,
            SyncState::Paused,
        ],
    }
}

/// A move from `from` to `to` is allowed: staying put, or a listed transition.
pub open spec fn allowed(from: SyncState, to: SyncState) -> bool {
    from == to || transitions(from).contains(to)
}

/// Every state can move on to at least one other state, and no state lists
/// itself among its transitions.
pub proof fn lemma_every_state_can_move(s: SyncState)
    ensures
        transitions(s).len() >= 1,
        !transitions(s).contains(s),
{
    match s {
        SyncState::Starting => assert(transitions(s)[0] != s && transitions(s)[1] != s && transitions(s)[2] != s && transitions(s)[3] != s && transitions(s)[4] != s),
        SyncState::NotLoggedIn => assert(transitions(s)[0] != s && transitions(s)[1] != s),
        SyncState::Scanning => assert(transitions(s)[0] != s && transitions(s)[1] != s && transitions(s)[2] != s && transitions(s)[3] != s && transitions(s)[4] != s),
        SyncState::Syncing => assert(transitions(s)[0] != s && transitions(s)[1] != s && transitions(s)[2] != s && transitions(s)[3] != s && transitions(s)[4] != s),
        SyncState::Synced => assert(transitions(s)[0] != s && transitions(s)[1] != s && transitions(s)[2] != s && transitions(s)[3] != s),
        SyncState::Paused => assert(transitions(s)[0] != s && transitions(s)[1] != s && transitions(s)[2] != s),
        SyncState::Error => assert(transitions(s)[0] != s && transitions(s)[1] != s && transitions(s)[2] != s && transitions(s)[3] != s),
        SyncState::CliNotFound => assert(transitions(s)[0] != s),
        SyncState::Offline => assert(transitions(s)[0] != s && transitions(s)[1] != s && transitions(s)[2] != s && transitions(s)[3] != s),
    }
}

/// Law: the allowed moves of the state machine, state by state. Besides
/// staying put, a state may move exactly to the states listed here:
/// starting up ends in scanning, syncing, synced, logged out or CLI missing;
/// a logged-out app can only start syncing; active syncing (scanning or
/// syncing) may finish, fail, go offline or be paused, and switch between its
/// two phases; a synced or paused app may resume or log out (synced may also
/// pause); an error may be retried, lead to logout, CLI missing or pause; a
/// missing CLI only allows a restart; offline may resume, fail or pause.
pub proof fn lemma_transition_table(from: SyncState, to: SyncState)
    ensures
        allowed(from, to) == (from == to || match from {
            SyncState::Starting => to == SyncState::Scanning || to == SyncState::Syncing || to
                == SyncState::Synced || to == SyncState::NotLoggedIn || to == SyncState::CliNotFound,
            SyncState::NotLoggedIn => to == SyncState::Scanning || to == SyncState::Syncing,
            SyncState::Scanning => to == SyncState::Syncing || to == SyncState::Synced || to
                == SyncState::Error || to == SyncState::Offline || to == SyncState::Paused,
            SyncState::Syncing => to == SyncState::Synced || to == SyncState::Scanning || to
                == SyncState::Error || to == SyncState::Offline || to == SyncState::Paused,
            SyncState::Synced => to == SyncState::Scanning || to == SyncState::Syncing || to
                == SyncState::NotLoggedIn || to == SyncState::Paused,
            SyncState::Paused => to == SyncState::Scanning || to == SyncState::Syncing || to
                == SyncState::NotLoggedIn,
            SyncState::Error => to == SyncState::Scanning || to == SyncState::NotLoggedIn || to
                == SyncState::CliNotFound || to == SyncState::Paused,
            SyncState::CliNotFound => to == SyncState::Starting,
            SyncState::Offline => to == SyncState::Scanning || to == SyncState::Syncing || to
                == SyncState::Error || to == SyncState::Paused,
        }),
{
    let t = transitions(from);
    assert(t.contains(to) == (exists|i: int| 0 <= i < t.len() && t[i] == to));
    if exists|i: int| 0 <= i < t.len() && t[i] == to {
        let i = choose|i: int| 0 <= i < t.len() && t[i] == to;
        assert(t[i] == to);
    } else {
        assert(forall|i: int| 0 <= i < t.len() ==> t[i] != to);
    }
    match from {
        SyncState::Starting => assert(t[0] == SyncState::Scanning && t[1] == SyncState::Syncing && t[2] == SyncState::Synced && t[3] == SyncState::NotLoggedIn && t[4] == SyncState::CliNotFound),
        SyncState::NotLoggedIn => assert(t[0] == SyncState::Scanning && t[1] == SyncState::Syncing),
        SyncState::Scanning => assert(t[0] == SyncState::Syncing && t[1] == SyncState::Synced && t[2] == SyncState::Error && t[3] == SyncState::Offline && t[4] == SyncState::Paused),
        SyncState::Syncing => assert(t[0] == SyncState::Synced && t[1] == SyncState::Scanning && t[2] == SyncState::Error && t[3] == SyncState::Offline && t[4] == SyncState::Paused),
        SyncState::Synced => assert(t[0] == SyncState::Scanning && t[1] == SyncState::Syncing && t[2] == SyncState::NotLoggedIn && t[3] == SyncState::Paused),
        SyncState::Paused => assert(t[0] == SyncState::Scanning && t[1] == SyncState::Syncing && t[2] == SyncState::NotLoggedIn),
        SyncState::Error => assert(t[0] == SyncState::Scanning && t[1] == SyncState::NotLoggedIn && t[2] == SyncState::CliNotFound && t[3] == SyncState::Paused),
        SyncState::CliNotFound => assert(t[0] == SyncState::Starting),
        SyncState::Offline => assert(t[0] == SyncState::Scanning && t[1] == SyncState::Syncing && t[2] == SyncState::Error && t[3] == SyncState::Paused),
    }
}

/// A transition to the same state is always allowed, and `try_transition`
/// then hands the state back unchanged.
pub proof fn lemma_same_state_is_allowed(s: SyncState)
    ensures
        allowed(s, s),
        s.spec_try_transition(s) == Ok::<SyncState, InvalidTransition>(s),
{
}

impl SyncState {
    /// Returns the valid states this state can transition to.
    pub fn valid_transitions(&self) -> (r: &'static [SyncState])
        ensures
            r@ == transitions(*self),
    {
        match self {
            SyncState::Starting => &[
                SyncState::Scanning,
                SyncState::Syncing,
                SyncState::Synced,
                SyncState::NotLoggedIn,
                SyncState::CliNotFound,
            ],
            SyncState::NotLoggedIn => &[SyncState::Scanning, SyncState::Syncing],
            SyncState::Scanning => &[
                SyncState::Syncing,
                SyncState::Synced,
                SyncState::Error,
                SyncState::Offline,
                SyncState::Paused,
            ],
            SyncState::Syncing => &[
                SyncState::Synced,
                SyncState::Scanning,
                SyncState::Error,
                SyncState::Offline,
                SyncState::Paused,
            ],
            SyncState::Synced => &[
                SyncState::Scanning,
                SyncState::Syncing,
                SyncState::NotLoggedIn,
                SyncState::Paused,
            ],
            SyncState::Paused => &[SyncState::Scanning, SyncState::Syncing, SyncState::NotLoggedIn],
            SyncState::Error => &[
                SyncState::Scanning,
                SyncState::NotLoggedIn,
                SyncState::CliNotFound,
                SyncState::Paused,
            ],
            SyncState::CliNotFound => &[SyncState::Starting],
            SyncState::Offline => &[
                SyncState::Scanning,
                SyncState::Syncing,
                SyncState::Error,
                SyncState::Paused,
            ],
        }
    }
}

impl SyncState {
    /// Check if a transition to the given state is valid.
    /// Same state is always "valid" (no-op).
    pub fn can_transition_to(&self, to: SyncState) -> (r: bool)
        ensures
            r == allowed(*self, to),
    {
        if *self == to {
            return true;
        }
        let targets = self.valid_transitions();
        let mut i: usize = 0;
        while i < targets.len()
            invariant
                targets@ == transitions(*self),
                0 <= i <= targets@.len(),
                forall|j: int| 0 <= j < i ==> targets@[j] != to,
            decreases targets@.len() - i,
        {
            if targets[i] == to {
                assert(transitions(*self)[i as int] == to);
                return true;
            }
            i = i + 1;
        }
        proof {
            assert forall|j: int| 0 <= j < transitions(*self).len() implies transitions(*self)[j] != to by {
                assert(targets@[j] != to);
            }
        }
        false
    }

    /// The result of `try_transition`.
    pub open spec fn spec_try_transition(self, to: SyncState) -> Result<SyncState, InvalidTransition> {
        if allowed(self, to) {
            Ok(to)
        } else {
            Err(InvalidTransition { from: self, to })
        }
    }

    /// Attempt a state transition, returning an error if invalid.
    /// Transitions to the same state are always allowed (no-op).
    pub fn try_transition(&self, to: SyncState) -> (r: Result<SyncState, InvalidTransition>)
        ensures
            r == self.spec_try_transition(to),
    {
        if self.can_transition_to(to) {
            Ok(to)
        } else {
            Err(InvalidTransition { from: *self, to })
        }
    }

    /// The variant's name, as `{:?}` prints it.
    pub fn name(&self) -> (r: &'static str)
        ensures
            r@ == state_name(*self),
    {
        match self {
            SyncState::Starting => "Starting",
            SyncState::NotLoggedIn => "NotLoggedIn",
            SyncState::Synced => "Synced",
            SyncState::Scanning => "Scanning",
            SyncState::Syncing => "Syncing",
            SyncState::Paused => "Paused",
            SyncState::Error => "Error",
            SyncState::CliNotFound => "CliNotFound",
            SyncState::Offline => "Offline",
        }
    }

    /// Get the icon name suffix for this state
    pub fn icon_suffix(&self) -> (r: &'static str)
        ensures
            r@ == icon_suffix_of(*self),
    {
        match self {
            SyncState::Starting => "idle",
            SyncState::NotLoggedIn => "idle",
            SyncState::Synced => "idle",
            SyncState::Scanning => "syncing",
            SyncState::Syncing => "syncing",
            SyncState::Paused => "idle",
            SyncState::Error => "error",
            SyncState::CliNotFound => "error",
            SyncState::Offline => "idle",
        }
    }

    /// Check if this state represents an active sync operation
    pub fn is_active(&self) -> (r: bool)
        ensures
            r == (*self == SyncState::Scanning || *self == SyncState::Syncing),
    {
        matches!(self, SyncState::Scanning | SyncState::Syncing)
    }

    /// Check if this state represents an error condition
    pub fn is_error(&self) -> (r: bool)
        ensures
            r == (*self == SyncState::Error || *self == SyncState::CliNotFound || *self
                == SyncState::Offline),
    {
        matches!(self, SyncState::Error | SyncState::CliNotFound | SyncState::Offline)
    }
}

pub open spec fn state_name(s: SyncState) -> Seq<char> {
    match s {
        SyncState::Starting => "Starting"@,
        SyncState::NotLoggedIn => "NotLoggedIn"@,
        SyncState::Synced => "Synced"@,
        SyncState::Scanning => "Scanning"@,
        SyncState::Syncing => "Syncing"@,
        SyncState::Paused => "Paused"@,
        SyncState::Error => "Error"@,
        SyncState::CliNotFound => "CliNotFound"@,
        SyncState::Offline => "Offline"@,
    }
}

pub open spec fn icon_suffix_of(s: SyncState) -> Seq<char> {
    match s {
        SyncState::Scanning | SyncState::Syncing => "syncing"@,
        SyncState::Error | SyncState::CliNotFound => "error"@,
        _ => "idle"@,
    }
}

/// Error returned when an invalid state transition is attempted
#[derive(Debug, Clone, Copy, PartialEq, Eq, Structural)]
pub struct InvalidTransition {
    pub from: SyncState,
    pub to: SyncState,
}

impl InvalidTransition {
    /// Human-readable description: `Invalid state transition: From -> To`.
    pub fn message(&self) -> (r: String)
        ensures
            r@ == "Invalid state transition: "@ + state_name(self.from) + " -> "@ + state_name(
                self.to,
            ),
    {
        let mut s = String::from_str("Invalid state transition: ");
        s.append(self.from.name());
        s.append(" -> ");
        s.append(self.to.name());
        s
    }
}

/// Storage information
#[derive(Debug, Clone, Copy, PartialEq, Eq, Structural)]
pub struct StorageInfo {
    /// Used storage in bytes
    pub used: u64,
    /// Total storage in bytes
    pub total: u64,
}

impl StorageInfo {
    /// No storage known yet.
    pub fn zero() -> (r: Self)
        ensures
            r == (StorageInfo { used: 0, total: 0 }),
    {
        StorageInfo { used: 0, total: 0 }
    }
}

/// Direction of file transfer
#[derive(Debug, Clone, Copy, PartialEq, Eq, Structural)]
pub enum TransferDirection {
    Upload,
    Download,
}

/// Current file transfer information
#[derive(Debug, Clone, PartialEq, Eq)]
pub struct CurrentTransfer {
    /// Upload or download
    pub direction: TransferDirection,
    /// Filename (extracted from path)
    pub filename: String,
    /// Bytes transferred so far
    pub bytes: u64,
    /// Total file size
    pub size: u64,
}

impl CurrentTransfer {
    /// A new transfer with nothing transferred yet.
    pub fn new(direction: TransferDirection, filename: String, size: u64) -> (r: Self)
        ensures
            r == (CurrentTransfer { direction, filename, bytes: 0, size }),
    {
        CurrentTransfer { direction, filename, size, bytes: 0 }
    }

    /// An equal copy of this transfer.
    pub fn duplicate(&self) -> (r: Self)
        ensures
            r == *self,
    {
        CurrentTransfer {
            direction: self.direction,
            filename: self.filename.clone(),
            bytes: self.bytes,
            size: self.size,
        }
    }

    /// Progress as a percentage (0-100): the whole percent of the size
    /// transferred so far, capped at 100; 0 for an empty file.
    pub fn progress_percent(&self) -> (r: u8)
        ensures
            r == percent_of(self.bytes, self.size),
    {
        if self.size == 0 {
            return 0;
        }
        let scaled: u128 = (self.bytes as u128) * 100;
        let p: u128 = scaled / (self.size as u128);
        if p > 100 {
            100
        } else {
            p as u8
        }
    }

    /// Format for display: "↑ filename.pdf" or "↓ filename.pdf". A filename
    /// longer than `max_filename_len` bytes keeps its first
    /// `max_filename_len - 1` bytes and ends with "…".
    pub fn display_text(&self, max_filename_len: usize) -> (r: String)
        requires
            needs_truncation(self.filename@, max_filename_len as nat) ==> max_filename_len >= 1
                && is_char_boundary(encode_utf8(self.filename@), max_filename_len - 1),
        ensures
            r@ == arrow_of(self.direction) + " "@ + shown_filename(
                self.filename@,
                max_filename_len as nat,
            ),
    {
        let arrow = match self.direction {
            TransferDirection::Upload => "↑",
            TransferDirection::Download => "↓",
        };
        let name = self.filename.as_str();
        let mut out = String::from_str(arrow);
        out.append(" ");
        if name.as_bytes().len() > max_filename_len {
            let (head, _tail) = name.split_at(max_filename_len - 1);
            proof {
                encode_utf8_decode_utf8(head@);
            }
            out.append(head);
            out.append("…");
            assert(out@ =~= arrow_of(self.direction) + " "@ + shown_filename(
                self.filename@,
                max_filename_len as nat,
            ));
        } else {
            out.append(name);
            assert(out@ =~= arrow_of(self.direction) + " "@ + shown_filename(
                self.filename@,
                max_filename_len as nat,
            ));
        }
        out
    }
}

/// The whole percent of `size` that `bytes` make, capped at 100 (0 for size 0).
pub open spec fn percent_of(bytes: u64, size: u64) -> int {
    if size == 0 {
        0
    } else {
        let p = (bytes * 100) / (size as int);
        if p > 100 {
            100
        } else {
            p
        }
    }
}

/// The arrow shown before a transfer's filename.
pub open spec fn arrow_of(d: TransferDirection) -> Seq<char> {
    match d {
        TransferDirection::Upload => "↑"@,
        TransferDirection::Download => "↓"@,
    }
}

/// Whether a filename is longer, in UTF-8 bytes, than `max`.
pub open spec fn needs_truncation(name: Seq<char>, max: nat) -> bool {
    encode_utf8(name).len() > max
}

/// The filename as displayed: unchanged when it fits in `max` bytes, else
/// its first `max - 1` bytes followed by "…".
pub open spec fn shown_filename(name: Seq<char>, max: nat) -> Seq<char> {
    if needs_truncation(name, max) {
        decode_utf8(encode_utf8(name).subrange(0, max - 1)) + "…"@
    } else {
        name
    }
}

/// Abstract value of a [`CurrentTransfer`].
pub struct TransferView {
    pub direction: TransferDirection,
    pub filename: Seq<char>,
    pub bytes: u64,
    pub size: u64,
}

impl View for CurrentTransfer {
    type V = TransferView;

    open spec fn view(&self) -> TransferView {
        TransferView {
            direction: self.direction,
            filename: self.filename@,
            bytes: self.bytes,
            size: self.size,
        }
    }
}

/// The view of an optional transfer.
pub open spec fn transfer_view(t: Option<CurrentTransfer>) -> Option<TransferView> {
    match t {
        Some(x) => Some(x@),
        None => None,
    }
}

/// An equal copy of an optional transfer.
pub fn duplicate_transfer(t: &Option<CurrentTransfer>) -> (r: Option<CurrentTransfer>)
    ensures
        r == *t,
{
    match t {
        Some(x) => Some(x.duplicate()),
        None => None,
    }
}

/// Snapshot of state changes for reactive UI updates
#[derive(Debug, Clone)]
pub struct StateSnapshot {
    pub sync_state: SyncState,
    pub pending_count: u32,
    pub current_transfer: Option<CurrentTransfer>,
    /// When the last sync cycle completed successfully (epoch milliseconds)
    pub last_synced: Option<i64>,
}

impl StateSnapshot {
    /// The snapshot of a freshly started application.
    pub fn initial() -> (r: Self)
        ensures
            r.sync_state == SyncState::Starting,
            r.pending_count == 0,
            r.current_transfer is None,
            r.last_synced is None,
    {
        StateSnapshot {
            sync_state: SyncState::Starting,
            pending_count: 0,
            current_transfer: None,
            last_synced: None,
        }
    }
}

/// Application state shared across the app: the values the tray shows, the
/// snapshot last published to subscribers, and how many times it was published.
pub struct AppState {
    sync_state: SyncState,
    storage_info: StorageInfo,
    is_logged_in: bool,
    pending_count: u32,
    current_transfer: Option<CurrentTransfer>,
    last_synced: Option<i64>,
    published: StateSnapshot,
    notifications: u64,
}

/// Abstract value of an [`AppState`].
pub struct AppModel {
    pub sync_state: SyncState,
    pub storage_info: StorageInfo,
    pub is_logged_in: bool,
    pub pending_count: u32,
    pub current_transfer: Option<TransferView>,
    pub last_synced: Option<i64>,
    /// Number of snapshots published to subscribers so far (wrapping).
    pub notifications: u64,
}

impl View for AppState {
    type V = AppModel;

    closed spec fn view(&self) -> AppModel {
        AppModel {
            sync_state: self.sync_state,
            storage_info: self.storage_info,
            is_logged_in: self.is_logged_in,
            pending_count: self.pending_count,
            current_transfer: transfer_view(self.current_transfer),
            last_synced: self.last_synced,
            notifications: self.notifications,
        }
    }
}

/// `set_sync_state`: the new state, published only when it differs.
pub open spec fn with_sync_state(m: AppModel, s: SyncState) -> AppModel {
    if m.sync_state == s {
        m
    } else {
        AppModel { sync_state: s, notifications: m.notifications.wrapping_add(1), ..m }
    }
}

/// `set_pending_count`: the new count, published only when it differs.
pub open spec fn with_pending_count(m: AppModel, c: u32) -> AppModel {
    if m.pending_count == c {
        m
    } else {
        AppModel { pending_count: c, notifications: m.notifications.wrapping_add(1), ..m }
    }
}

/// `set_current_transfer`: the new transfer, always published.
pub open spec fn with_transfer(m: AppModel, t: Option<TransferView>) -> AppModel {
    AppModel { current_transfer: t, notifications: m.notifications.wrapping_add(1), ..m }
}

/// `set_last_synced`: the completion time, always published.
pub open spec fn with_last_synced(m: AppModel, at: i64) -> AppModel {
    AppModel { last_synced: Some(at), notifications: m.notifications.wrapping_add(1), ..m }
}

impl AppState {
    /// The published snapshot always shows the current values.
    pub closed spec fn wf(&self) -> bool {
        &&& self.published.sync_state == self.sync_state
        &&& self.published.pending_count == self.pending_count
        &&& self.published.current_transfer == self.current_transfer
        &&& self.published.last_synced == self.last_synced
    }

    pub fn new() -> (r: Self)
        ensures
            r.wf(),
            r@.sync_state == SyncState::Starting,
            r@.storage_info == (StorageInfo { used: 0, total: 0 }),
            !r@.is_logged_in,
            r@.pending_count == 0,
            r@.current_transfer is None,
            r@.last_synced is None,
            r@.notifications == 0,
    {
        AppState {
            sync_state: SyncState::Starting,
            storage_info: StorageInfo::zero(),
            is_logged_in: false,
            pending_count: 0,
            current_transfer: None,
            last_synced: None,
            published: StateSnapshot::initial(),
            notifications: 0,
        }
    }

    /// Publish the current values to subscribers.
    fn notify(&mut self)
        ensures
            final(self).wf(),
            final(self)@ == (AppModel {
                notifications: old(self)@.notifications.wrapping_add(1),
                ..old(self)@
            }),
    {
        self.published = StateSnapshot {
            sync_state: self.sync_state,
            pending_count: self.pending_count,
            current_transfer: duplicate_transfer(&self.current_transfer),
            last_synced: self.last_synced,
        };
        self.notifications = self.notifications.wrapping_add(1);
    }

    /// The snapshot most recently published to subscribers.
    pub fn snapshot(&self) -> (r: StateSnapshot)
        requires
            self.wf(),
        ensures
            r.sync_state == self@.sync_state,
            r.pending_count == self@.pending_count,
            transfer_view(r.current_transfer) == self@.current_transfer,
            r.last_synced == self@.last_synced,
    {
        StateSnapshot {
            sync_state: self.published.sync_state,
            pending_count: self.published.pending_count,
            current_transfer: duplicate_transfer(&self.published.current_transfer),
            last_synced: self.published.last_synced,
        }
    }

    /// How many snapshots have been published (wrapping); a change tells
    /// subscribers to look again.
    pub fn notifications(&self) -> (r: u64)
        ensures
            r == self@.notifications,
    {
        self.notifications
    }

    pub fn get_sync_state(&self) -> (r: SyncState)
        ensures
            r == self@.sync_state,
    {
        self.sync_state
    }

    /// Set the sync state directly; subscribers are notified only on a change.
    pub fn set_sync_state(&mut self, state: SyncState)
        requires
            old(self).wf(),
        ensures
            final(self).wf(),
            final(self)@ == with_sync_state(old(self)@, state),
    {
        if self.sync_state != state {
            self.sync_state = state;
            self.notify();
        }
    }

    /// Attempt a validated state transition. Same-state transitions are
    /// allowed and change nothing; a refused transition changes nothing.
    pub fn transition_to(&mut self, new_state: SyncState) -> (r: Result<SyncState, InvalidTransition>)
        requires
            old(self).wf(),
        ensures
            final(self).wf(),
            r == old(self)@.sync_state.spec_try_transition(new_state),
            (r is Err || old(self)@.sync_state == new_state) ==> final(self)@ == old(self)@,
            (r is Ok && old(self)@.sync_state != new_state) ==> final(self)@ == (AppModel {
                sync_state: new_state,
                notifications: old(self)@.notifications.wrapping_add(1),
                ..old(self)@
            }),
    {
        let current = self.sync_state;
        if current == new_state {
            return Ok(current);
        }
        let validated = match current.try_transition(new_state) {
            Ok(s) => s,
            Err(e) => return Err(e),
        };
        self.sync_state = validated;
        self.notify();
        Ok(validated)
    }

    /// Transition to a new state whether or not the state machine allows it
    /// (the application logs a warning for the disallowed ones).
    pub fn transition_to_unchecked(&mut self, new_state: SyncState) -> (was_valid: bool)
        requires
            old(self).wf(),
        ensures
            final(self).wf(),
            was_valid == allowed(old(self)@.sync_state, new_state),
            old(self)@.sync_state == new_state ==> final(self)@ == old(self)@,
            old(self)@.sync_state != new_state ==> final(self)@ == (AppModel {
                sync_state: new_state,
                notifications: old(self)@.notifications.wrapping_add(1),
                ..old(self)@
            }),
    {
        let current = self.sync_state;
        if current == new_state {
            return true;
        }
        let valid = current.can_transition_to(new_state);
        self.sync_state = new_state;
        self.notify();
        valid
    }

    pub fn get_storage_info(&self) -> (r: StorageInfo)
        ensures
            r == self@.storage_info,
    {
        self.storage_info
    }

    /// Storage changes are not published to subscribers.
    pub fn set_storage_info(&mut self, info: StorageInfo)
        requires
            old(self).wf(),
        ensures
            final(self).wf(),
            final(self)@ == (AppModel { storage_info: info, ..old(self)@ }),
    {
        self.storage_info = info;
    }

    pub fn is_logged_in(&self) -> (r: bool)
        ensures
            r == self@.is_logged_in,
    {
        self.is_logged_in
    }

    /// Record the login state; logging out forces `NotLoggedIn` and notifies.
    pub fn set_logged_in(&mut self, logged_in: bool)
        requires
            old(self).wf(),
        ensures
            final(self).wf(),
            logged_in ==> final(self)@ == (AppModel { is_logged_in: true, ..old(self)@ }),
            !logged_in ==> final(self)@ == (AppModel {
                is_logged_in: false,
                sync_state: SyncState::NotLoggedIn,
                notifications: old(self)@.notifications.wrapping_add(1),
                ..old(self)@
            }),
    {
        self.is_logged_in = logged_in;
        if !logged_in {
            self.sync_state = SyncState::NotLoggedIn;
            self.notify();
        }
    }

    pub fn get_pending_count(&self) -> (r: u32)
        ensures
            r == self@.pending_count,
    {
        self.pending_count
    }

    /// Set the pending count; subscribers are notified only on a change.
    pub fn set_pending_count(&mut self, count: u32)
        requires
            old(self).wf(),
        ensures
            final(self).wf(),
            final(self)@ == with_pending_count(old(self)@, count),
    {
        if self.pending_count != count {
            self.pending_count = count;
            self.notify();
        }
    }

    pub fn get_current_transfer(&self) -> (r: Option<CurrentTransfer>)
        ensures
            transfer_view(r) == self@.current_transfer,
    {
        duplicate_transfer(&self.current_transfer)
    }

    /// Set (or clear) the current transfer; always notifies.
    pub fn set_current_transfer(&mut self, transfer: Option<CurrentTransfer>)
        requires
            old(self).wf(),
        ensures
            final(self).wf(),
            final(self)@ == with_transfer(old(self)@, transfer_view(transfer)),
    {
        self.current_transfer = transfer;
        self.notify();
    }

    /// Record that a sync cycle just completed successfully, at `at`
    /// (milliseconds since the Unix epoch).
    pub fn set_last_synced(&mut self, at: i64)
        requires
            old(self).wf(),
        ensures
            final(self).wf(),
            final(self)@ == with_last_synced(old(self)@, at),
    {
        self.last_synced = Some(at);
        self.notify();
    }

    /// Record that a sync cycle just completed successfully, now.
    pub fn set_last_synced_now(&mut self)
        requires
            old(self).wf(),
        ensures
            final(self).wf(),
            final(self)@.last_synced is Some,
            final(self)@ == with_last_synced(old(self)@, final(self)@.last_synced->0),
    {
        let now = crate::activity::utc_now_ms();
        self.set_last_synced(now);
    }

    pub fn get_last_synced(&self) -> (r: Option<i64>)
        ensures
            r == self@.last_synced,
    {
        self.last_synced
    }

    /// Update the bytes of the current transfer, if there is one (and notify).
    pub fn update_transfer_progress(&mut self, bytes: u64)
        requires
            old(self).wf(),
        ensures
            final(self).wf(),
            old(self)@.current_transfer is None ==> final(self)@ == old(self)@,
            old(self)@.current_transfer matches Some(t) ==> final(self)@ == (AppModel {
                current_transfer: Some(TransferView { bytes, ..t }),
                notifications: old(self)@.notifications.wrapping_add(1),
                ..old(self)@
            }),
    {
        match self.current_transfer.take() {
            Some(mut t) => {
                t.bytes = bytes;
                self.current_transfer = Some(t);
                self.notify();
            },
            None => {},
        }
    }
}

} // verus!
