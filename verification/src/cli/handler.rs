//! How CLI output changes the application state and the activity history.
//!
//! The CLI emits two completion events for file copies: a low-level
//! `upload`/`download` event with `type="finished"`, followed by the canonical
//! `uploadFile`/`downloadFile` task event with `type="success"`. Only canonical
//! task events affect the pending count and the activity history.

use crate::activity::{entry_for, operation_named, recorded, ActivityHistory, ActivityOperation};
use crate::cli::events::{CliErrorEvent, CliEvent, TransferData};
use crate::cli::network::{contains_chars, contains_infix, is_network_error, lowercase, mentions_network};
use crate::state::{
    with_last_synced, with_pending_count, with_sync_state, with_transfer, AppModel, AppState,
    CurrentTransfer, SyncState, TransferDirection, TransferView,
};
use crate::text::{chars_of, opt_is, slice_chars, string_from_chars};
use vstd::prelude::*;

verus! {

/// Start of the `/`-separated segment that ends at `j`.
pub open spec fn segment_start(s: Seq<char>, j: int) -> int
    decreases j,
{
    if j <= 0 {
        0
    } else if s[j - 1] == '/' {
        j
    } else {
        segment_start(s, j - 1)
    }
}

/// The segment ending at `end` is exactly `.`.
pub open spec fn dot_segment_ends(s: Seq<char>, end: int) -> bool {
    end >= 1 && s[end - 1] == '.' && (end == 1 || s[end - 2] == '/')
}

/// The final component of `s[..end]` as `Path::file_name` finds it on Unix:
/// separators and `.` segments at the end are skipped; the last remaining
/// segment is the name, unless it is `..` or there is none.
pub open spec fn name_before(s: Seq<char>, end: int) -> Option<Seq<char>>
    decreases end,
{
    if end <= 0 || end > s.len() {
        None
    } else if s[end - 1] == '/' || dot_segment_ends(s, end) {
        name_before(s, end - 1)
    } else {
        let seg = s.subrange(segment_start(s, end), end);
        if seg == ".."@ {
            None
        } else {
            Some(seg)
        }
    }
}

/// `Path::file_name` on Unix: the final component of a path, if there is one.
pub open spec fn path_file_name(path: Seq<char>) -> Option<Seq<char>> {
    name_before(path, path.len() as int)
}

/// The final component of `path`, as `Path::new(path).file_name()` gives it
/// on Unix: `None` for a path without one (empty, root only, `.` or ending in
/// `..`).
pub fn file_name_of(path: &str) -> (r: Option<String>)
    ensures
        match r {
            Some(n) => path_file_name(path@) == Some(n@),
            None => path_file_name(path@) is None,
        },
{
    proof {
        reveal_strlit("..");
    }
    let chars = chars_of(path);
    let mut end = chars.len();
    while end > 0 && (chars[end - 1] == '/' || (chars[end - 1] == '.' && (end == 1 || chars[end
        - 2] == '/')))
        invariant
            chars@ == path@,
            end <= chars@.len(),
            name_before(chars@, end as int) == path_file_name(path@),
        decreases end,
    {
        end = end - 1;
    }
    if end == 0 {
        return None;
    }
    let mut k = end;
    while k > 0 && chars[k - 1] != '/'
        invariant
            chars@ == path@,
            0 <= k <= end <= chars@.len(),
            segment_start(chars@, k as int) == segment_start(chars@, end as int),
        decreases k,
    {
        k = k - 1;
    }
    let seg = slice_chars(&chars, k, end);
    if seg.len() == 2 && seg[0] == '.' && seg[1] == '.' {
        assert(seg@ =~= ".."@);
        None
    } else {
        assert(seg@ != ".."@);
        Some(string_from_chars(seg.as_slice()))
    }
}

/// `o` is present and equal to `lit`.
pub open spec fn is_text(o: Option<String>, lit: Seq<char>) -> bool {
    o matches Some(s) && s@ == lit
}

/// The operation names a canonical sync task (not a raw transfer event).
pub open spec fn task_operation(op: Option<String>) -> bool {
    op matches Some(o) && operation_named(o@) is Some
}

/// Whether an operation name identifies a canonical sync task rather than a
/// lower-level upload/download progress event.
pub fn is_task_operation(operation: Option<&str>) -> (r: bool)
    ensures
        r == (operation matches Some(o) && operation_named(o@) is Some),
{
    match operation {
        Some(o) => ActivityOperation::from_cli_operation(o).is_some(),
        None => false,
    }
}

/// The direction shown for an operation: uploads and downloads only.
pub open spec fn direction_of(op: Option<String>) -> Option<TransferDirection> {
    if is_text(op, "upload"@) || is_text(op, "uploadFile"@) {
        Some(TransferDirection::Upload)
    } else if is_text(op, "download"@) || is_text(op, "downloadFile"@) {
        Some(TransferDirection::Download)
    } else {
        None
    }
}

/// The transfer shown while a file is in flight: its direction, the final
/// component of its path (or the whole path when it has none), and sizes.
pub open spec fn progress_view(
    direction: TransferDirection,
    path: Seq<char>,
    size: Option<u64>,
    bytes: Option<u64>,
) -> TransferView {
    TransferView {
        direction,
        filename: match path_file_name(path) {
            Some(n) => n,
            None => path,
        },
        bytes: match bytes {
            Some(b) => b,
            None => 0,
        },
        size: match size {
            Some(s) => s,
            None => 0,
        },
    }
}

/// How a transfer event changes the tray state (before the final "syncing" check).
pub open spec fn transfer_effect(m: AppModel, td: TransferData) -> AppModel {
    let op = td.operation;
    let tt = td.transfer_type;
    let task = task_operation(op);
    if task && is_text(tt, "success"@) {
        let m1 = if m.pending_count > 0 {
            with_pending_count(m, (m.pending_count - 1) as u32)
        } else {
            m
        };
        with_transfer(m1, None)
    } else if task && is_text(tt, "error"@) {
        with_transfer(m, None)
    } else if (is_text(op, "upload"@) || is_text(op, "download"@)) && (is_text(tt, "finished"@)
        || is_text(tt, "success"@) || is_text(tt, "error"@)) {
        with_transfer(m, None)
    } else if is_text(tt, "started"@) || is_text(tt, "progress"@) || is_text(tt, "queued"@) {
        match (direction_of(op), td.relative_path) {
            (Some(dir), Some(path)) => with_transfer(
                m,
                Some(progress_view(dir, path@, td.size, td.bytes)),
            ),
            _ => m,
        }
    } else if is_text(tt, "error"@) {
        with_transfer(m, None)
    } else {
        m
    }
}

/// A terminal canonical task event enters the activity history.
pub open spec fn records_activity(td: TransferData) -> bool {
    task_operation(td.operation) && (is_text(td.transfer_type, "success"@) || is_text(
        td.transfer_type,
        "error"@,
    ))
}

/// Enter the `Syncing` state unless already there.
pub open spec fn ensure_syncing(m: AppModel) -> AppModel {
    if m.sync_state != SyncState::Syncing {
        with_sync_state(m, SyncState::Syncing)
    } else {
        m
    }
}

/// The message a cycle error reports (empty when absent).
pub open spec fn error_text(error: Option<String>) -> Seq<char> {
    match error {
        Some(e) => e@,
        None => Seq::empty(),
    }
}

/// How an event changes the tray state; `synced_at` is the completion time a
/// successful cycle records.
pub open spec fn event_effect(m: AppModel, event: CliEvent, synced_at: i64) -> AppModel {
    match event {
        CliEvent::CycleGettingTreesStarted => if m.sync_state != SyncState::Scanning
            && m.sync_state != SyncState::Syncing {
            with_sync_state(m, SyncState::Scanning)
        } else {
            m
        },
        CliEvent::CycleProcessingTasksStarted => ensure_syncing(m),
        CliEvent::CycleSuccess => with_last_synced(
            with_transfer(with_pending_count(with_sync_state(m, SyncState::Synced), 0), None),
            synced_at,
        ),
        CliEvent::CycleError { error } => {
            let s = if mentions_network(lowercase(error_text(error))) {
                SyncState::Offline
            } else {
                SyncState::Error
            };
            with_transfer(with_pending_count(with_sync_state(m, s), 0), None)
        },
        CliEvent::DeltasCount { data } => {
            let m1 = with_pending_count(m, data.count);
            if data.count > 0 {
                with_sync_state(m1, SyncState::Syncing)
            } else {
                m1
            }
        },
        CliEvent::Transfer { data } => match data {
            Some(td) => ensure_syncing(transfer_effect(m, td)),
            None => ensure_syncing(m),
        },
        CliEvent::UploadProgress { .. } | CliEvent::DownloadProgress { .. } => ensure_syncing(m),
        _ => m,
    }
}

/// The file name shown for an in-flight transfer of `path`.
pub fn progress_transfer(
    direction: TransferDirection,
    path: &String,
    file_name: Option<String>,
    size: Option<u64>,
    bytes: Option<u64>,
) -> (r: CurrentTransfer)
    requires
        match file_name {
            Some(n) => path_file_name(path@) == Some(n@),
            None => path_file_name(path@) is None,
        },
    ensures
        r@ == progress_view(direction, path@, size, bytes),
{
    let filename = match file_name {
        Some(n) => n,
        None => path.clone(),
    };
    let mut t = CurrentTransfer::new(
        direction,
        filename,
        match size {
            Some(s) => s,
            None => 0,
        },
    );
    t.bytes = match bytes {
        Some(b) => b,
        None => 0,
    };
    t
}

fn ensure_syncing_exec(state: &mut AppState)
    requires
        old(state).wf(),
    ensures
        final(state).wf(),
        final(state)@ == ensure_syncing(old(state)@),
{
    if state.get_sync_state() != SyncState::Syncing {
        state.set_sync_state(SyncState::Syncing);
    }
}

fn handle_transfer(state: &mut AppState, activity: &mut ActivityHistory, td: &TransferData, observed_at_ms: i64)
    requires
        old(state).wf(),
        old(activity).wf(),
    ensures
        final(state).wf(),
        final(activity).wf(),
        final(state)@ == transfer_effect(old(state)@, *td),
        records_activity(*td) ==> recorded(
            old(activity)@,
            final(activity)@,
            entry_for(*td, old(activity)@.next_id, observed_at_ms),
        ),
        !records_activity(*td) ==> final(activity)@ == old(activity)@,
{
    proof {
        reveal_strlit("success");
        reveal_strlit("error");
        reveal_strlit("upload");
        reveal_strlit("download");
        reveal_strlit("uploadFile");
        reveal_strlit("downloadFile");
        reveal_strlit("finished");
        reveal_strlit("started");
        reveal_strlit("progress");
        reveal_strlit("queued");
    }
    let op = &td.operation;
    let tt = &td.transfer_type;
    let is_task = match op {
        Some(o) => is_task_operation(Some(o.as_str())),
        None => false,
    };
    let success = opt_is(tt, "success");
    let error = opt_is(tt, "error");
    if is_task && (success || error) {
        let _ = activity.record_transfer_at(td, observed_at_ms);
    }
    let direction = if opt_is(op, "upload") || opt_is(op, "uploadFile") {
        Some(TransferDirection::Upload)
    } else if opt_is(op, "download") || opt_is(op, "downloadFile") {
        Some(TransferDirection::Download)
    } else {
        None
    };
    if is_task && success {
        let current = state.get_pending_count();
        if current > 0 {
            state.set_pending_count(current - 1);
        }
        state.set_current_transfer(None);
    } else if is_task && error {
        state.set_current_transfer(None);
    } else if (opt_is(op, "upload") || opt_is(op, "download")) && (opt_is(tt, "finished")
        || success || error) {
        state.set_current_transfer(None);
    } else if opt_is(tt, "started") || opt_is(tt, "progress") || opt_is(tt, "queued") {
        match (direction, &td.relative_path) {
            (Some(dir), Some(path)) => {
                let name = file_name_of(path.as_str());
                let transfer = progress_transfer(dir, path, name, td.size, td.bytes);
                state.set_current_transfer(Some(transfer));
            },
            _ => {},
        }
    } else if error {
        state.set_current_transfer(None);
    }
}

/// Apply one parsed CLI event to the tray state and the activity history.
/// `observed_at_ms` is the receipt time recorded for activity entries and
/// `synced_at_ms` the completion time recorded by a successful cycle.
pub fn handle_cli_event_at(
    state: &mut AppState,
    activity: &mut ActivityHistory,
    event: CliEvent,
    observed_at_ms: i64,
    synced_at_ms: i64,
)
    requires
        old(state).wf(),
        old(activity).wf(),
    ensures
        final(state).wf(),
        final(activity).wf(),
        final(state)@ == event_effect(old(state)@, event, synced_at_ms),
        (event matches CliEvent::Transfer { data: Some(td) } && records_activity(td)) ==> recorded(
            old(activity)@,
            final(activity)@,
            entry_for(event->Transfer_data->0, old(activity)@.next_id, observed_at_ms),
        ),
        !(event matches CliEvent::Transfer { data: Some(td) } && records_activity(td))
            ==> final(activity)@ == old(activity)@,
{
    match event {
        CliEvent::CycleStarted => {},
        CliEvent::CycleGettingTreesStarted => {
            let current = state.get_sync_state();
            if current != SyncState::Scanning && current != SyncState::Syncing {
                state.set_sync_state(SyncState::Scanning);
            }
        },
        CliEvent::CycleGettingTreesDone => {},
        CliEvent::CycleProcessingTasksStarted => {
            ensure_syncing_exec(state);
        },
        CliEvent::CycleSuccess => {
            state.set_sync_state(SyncState::Synced);
            state.set_pending_count(0);
            state.set_current_transfer(None);
            state.set_last_synced(synced_at_ms);
        },
        CliEvent::CycleError { error } => {
            proof {
                reveal_strlit("");
                assert(""@ =~= Seq::<char>::empty());
            }
            let network = match &error {
                Some(e) => is_network_error(e.as_str()),
                None => is_network_error(""),
            };
            if network {
                state.set_sync_state(SyncState::Offline);
            } else {
                state.set_sync_state(SyncState::Error);
            }
            state.set_pending_count(0);
            state.set_current_transfer(None);
        },
        CliEvent::DeltasCount { data } => {
            state.set_pending_count(data.count);
            if data.count > 0 {
                state.set_sync_state(SyncState::Syncing);
            }
        },
        CliEvent::Transfer { data } => {
            match &data {
                Some(td) => handle_transfer(state, activity, td, observed_at_ms),
                None => {},
            }
            ensure_syncing_exec(state);
        },
        CliEvent::UploadProgress { .. } | CliEvent::DownloadProgress { .. } => {
            ensure_syncing_exec(state);
        },
        CliEvent::Success { .. } => {},
        CliEvent::Unknown => {},
    }
}

/// Apply one parsed CLI event, stamping activity entries and completed cycles
/// with the current time.
pub fn handle_cli_event(state: &mut AppState, activity: &mut ActivityHistory, event: CliEvent)
    requires
        old(state).wf(),
        old(activity).wf(),
    ensures
        final(state).wf(),
        final(activity).wf(),
        exists|synced_at: i64| final(state)@ == #[trigger] event_effect(old(state)@, event, synced_at),
        exists|at: i64|
            ((event matches CliEvent::Transfer { data: Some(td) } && records_activity(td))
                ==> #[trigger] recorded(
                old(activity)@,
                final(activity)@,
                entry_for(event->Transfer_data->0, old(activity)@.next_id, at),
            )),
        !(event matches CliEvent::Transfer { data: Some(td) } && records_activity(td))
            ==> final(activity)@ == old(activity)@,
{
    let observed = crate::activity::utc_now_ms();
    let synced = crate::activity::utc_now_ms();
    let ghost before = activity@;
    let ghost ev = event;
    handle_cli_event_at(state, activity, event, observed, synced);
    proof {
        // The receipt time is the witness for the activity clause.
        let entered = recorded(
            before,
            activity@,
            entry_for(ev->Transfer_data->0, before.next_id, observed),
        );
        assert((ev matches CliEvent::Transfer { data: Some(td) } && records_activity(td)) ==> entered);
    }
}

/// Non-JSON text output of the CLI: "Done syncing" completes a cycle,
/// "Syncing ..." starts one unless already scanning or syncing.
pub open spec fn text_effect(m: AppModel, line: Seq<char>) -> AppModel {
    if line.len() >= 12 && line.take(12) == "Done syncing"@ {
        if m.sync_state != SyncState::Synced {
            with_pending_count(with_sync_state(m, SyncState::Synced), 0)
        } else {
            m
        }
    } else if line.len() >= 8 && line.take(8) == "Syncing "@ && !line.contains('{') {
        if m.sync_state != SyncState::Syncing && m.sync_state != SyncState::Scanning {
            with_sync_state(m, SyncState::Syncing)
        } else {
            m
        }
    } else {
        m
    }
}

/// `s` starts with `prefix`.
pub fn starts_with(s: &Vec<char>, prefix: &str) -> (r: bool)
    ensures
        r == (s@.len() >= prefix@.len() && s@.take(prefix@.len() as int) == prefix@),
{
    let p = chars_of(prefix);
    if p.len() > s.len() {
        return false;
    }
    let mut i: usize = 0;
    while i < p.len()
        invariant
            p@ == prefix@,
            p@.len() <= s@.len(),
            0 <= i <= p@.len(),
            forall|j: int| 0 <= j < i ==> s@[j] == p@[j],
        decreases p@.len() - i,
    {
        if s[i] != p[i] {
            assert(s@.take(p@.len() as int)[i as int] != p@[i as int]);
            return false;
        }
        i = i + 1;
    }
    assert(s@.take(p@.len() as int) =~= p@);
    true
}

/// `s` contains the character `c`.
pub fn contains_char(s: &Vec<char>, c: char) -> (r: bool)
    ensures
        r == s@.contains(c),
{
    let mut i: usize = 0;
    while i < s.len()
        invariant
            0 <= i <= s@.len(),
            forall|j: int| 0 <= j < i ==> s@[j] != c,
        decreases s@.len() - i,
    {
        if s[i] == c {
            return true;
        }
        i = i + 1;
    }
    false
}

/// Handle non-JSON text output from the CLI (fallback for text mode).
pub fn handle_text_output(state: &mut AppState, line: &str)
    requires
        old(state).wf(),
    ensures
        final(state).wf(),
        final(state)@ == text_effect(old(state)@, line@),
{
    proof {
        reveal_strlit("Done syncing");
        reveal_strlit("Syncing ");
    }
    let chars = chars_of(line);
    if starts_with(&chars, "Done syncing") {
        if state.get_sync_state() != SyncState::Synced {
            state.set_sync_state(SyncState::Synced);
            state.set_pending_count(0);
        }
    } else if starts_with(&chars, "Syncing ") && !contains_char(&chars, '{') {
        let current = state.get_sync_state();
        if current != SyncState::Syncing && current != SyncState::Scanning {
            state.set_sync_state(SyncState::Syncing);
        }
    }
}

/// `str::to_ascii_lowercase`: ASCII capitals mapped to lowercase, all else kept.
pub open spec fn ascii_lower(s: Seq<char>) -> Seq<char> {
    s.map_values(|c: char| if 'A' <= c && c <= 'Z' { ((c as u32) + 32) as char } else { c })
}

/// The ASCII-lowercased characters of `s`.
pub fn to_ascii_lowercase(s: &str) -> (r: Vec<char>)
    ensures
        r@ == ascii_lower(s@),
{
    let chars = chars_of(s);
    let mut out: Vec<char> = Vec::new();
    let mut i: usize = 0;
    while i < chars.len()
        invariant
            chars@ == s@,
            0 <= i <= chars@.len(),
            out@ == ascii_lower(s@).take(i as int),
        decreases chars@.len() - i,
    {
        let c = chars[i];
        let l = if 'A' <= c && c <= 'Z' {
            proof {
                assert(0x41 <= c as u32 <= 0x5a);
            }
            char_from_ascii_offset(c)
        } else {
            c
        };
        out.push(l);
        assert(out@ =~= ascii_lower(s@).take(i + 1));
        i = i + 1;
    }
    assert(ascii_lower(s@).take(chars@.len() as int) =~= ascii_lower(s@));
    out
}

/// The lowercase ASCII letter for an uppercase one.
fn char_from_ascii_offset(c: char) -> (r: char)
    requires
        'A' <= c && c <= 'Z',
    ensures
        r == ((c as u32) + 32) as char,
{
    let code = (c as u8) + 32;
    code as char
}

/// How one stderr record changes the tray state and the "network error seen"
/// flag; `parsed` is the record read as a JSON error event, if it is one.
pub open spec fn stderr_effect(
    m: AppModel,
    seen: bool,
    line: Seq<char>,
    parsed: Option<CliErrorEvent>,
) -> (AppModel, bool) {
    match parsed {
        Some(ev) => if is_text(ev.event_type, "error"@) {
            let msg = match ev.error {
                Some(e) => e@,
                None => match ev.message {
                    Some(x) => x@,
                    None => Seq::empty(),
                },
            };
            if mentions_network(lowercase(msg)) {
                (with_sync_state(m, SyncState::Offline), true)
            } else if !seen {
                (with_sync_state(m, SyncState::Error), seen)
            } else {
                (m, seen)
            }
        } else {
            (m, seen)
        },
        None => if mentions_network(lowercase(line)) {
            (with_sync_state(m, SyncState::Offline), true)
        } else if !seen && (contains_infix(ascii_lower(line), "error"@) || contains_infix(
            line,
            "failed"@,
        )) {
            (with_sync_state(m, SyncState::Error), seen)
        } else {
            (m, seen)
        },
    }
}

/// Apply one stderr record. A network diagnosis, once made, is not replaced
/// by a generic error.
pub fn handle_stderr_record(
    state: &mut AppState,
    network_error_detected: &mut bool,
    line: &str,
    parsed: Option<CliErrorEvent>,
)
    requires
        old(state).wf(),
    ensures
        final(state).wf(),
        (final(state)@, *final(network_error_detected)) == stderr_effect(
            old(state)@,
            *old(network_error_detected),
            line@,
            parsed,
        ),
{
    proof {
        reveal_strlit("error");
        reveal_strlit("failed");
        reveal_strlit("");
    }
    match parsed {
        Some(ev) => {
            if opt_is(&ev.event_type, "error") {
                let msg = match ev.error {
                    Some(e) => e,
                    None => match ev.message {
                        Some(x) => x,
                        None => String::new(),
                    },
                };
                if is_network_error(msg.as_str()) {
                    state.set_sync_state(SyncState::Offline);
                    *network_error_detected = true;
                } else if !*network_error_detected {
                    state.set_sync_state(SyncState::Error);
                }
            }
        },
        None => {
            if is_network_error(line) {
                state.set_sync_state(SyncState::Offline);
                *network_error_detected = true;
            } else if !*network_error_detected {
                let lower = to_ascii_lowercase(line);
                let err = chars_of("error");
                let chars = chars_of(line);
                let failed = chars_of("failed");
                if contains_chars(&lower, &err) || contains_chars(&chars, &failed) {
                    state.set_sync_state(SyncState::Error);
                }
            }
        },
    }
}


/// Law: while a file is in flight (a `started`, `progress` or `queued` event
/// with a path), the tray shows it with the direction its operation names:
/// `upload`/`uploadFile` as an upload, `download`/`downloadFile` as a
/// download, with its final path component, its bytes and size (0 when not
/// reported), and the state becomes `Syncing`.
pub proof fn lemma_in_flight_transfer_is_shown(m: AppModel, td: TransferData, synced_at: i64)
    requires
        td.relative_path is Some,
        td.transfer_type matches Some(t) && (t@ == "started"@ || t@ == "progress"@ || t@
            == "queued"@),
        td.operation matches Some(o) && (o@ == "upload"@ || o@ == "uploadFile"@ || o@
            == "download"@ || o@ == "downloadFile"@),
    ensures
        ({
            let after = event_effect(m, CliEvent::Transfer { data: Some(td) }, synced_at);
            let path = td.relative_path->0@;
            let op = td.operation->0@;
            &&& after.sync_state == SyncState::Syncing
            &&& after.current_transfer == Some(
                TransferView {
                    direction: if op == "upload"@ || op == "uploadFile"@ {
                        TransferDirection::Upload
                    } else {
                        TransferDirection::Download
                    },
                    filename: match path_file_name(path) {
                        Some(n) => n,
                        None => path,
                    },
                    bytes: match td.bytes {
                        Some(b) => b,
                        None => 0,
                    },
                    size: match td.size {
                        Some(s) => s,
                        None => 0,
                    },
                },
            )
        }),
{
    reveal_strlit("upload");
    reveal_strlit("uploadFile");
    reveal_strlit("download");
    reveal_strlit("downloadFile");
    reveal_strlit("started");
    reveal_strlit("progress");
    reveal_strlit("queued");
    reveal_strlit("success");
    reveal_strlit("error");
    reveal_strlit("finished");
    reveal_strlit("createLocalDirectory");
    reveal_strlit("createRemoteDirectory");
    reveal_strlit("deleteLocalFile");
    reveal_strlit("deleteLocalDirectory");
    reveal_strlit("deleteRemoteFile");
    reveal_strlit("deleteRemoteDirectory");
    reveal_strlit("renameLocalFile");
    reveal_strlit("renameLocalDirectory");
    reveal_strlit("renameRemoteFile");
    reveal_strlit("renameRemoteDirectory");
    let op = td.operation;
    let tt = td.transfer_type;
    assert("started"@[1] != "success"@[1]);
    assert("progress"@[0] != "finished"@[0]);
    let t = tt->0@;
    assert(t.len() != "error"@.len());
    assert(t != "success"@) by {
        if t == "started"@ {
            assert(t[1] != "success"@[1]);
        }
    }
    assert(t != "error"@);
    assert(t != "finished"@);
    assert(!is_text(tt, "success"@) && !is_text(tt, "error"@) && !is_text(tt, "finished"@));
    assert(is_text(tt, "started"@) || is_text(tt, "progress"@) || is_text(tt, "queued"@));
    let dir = if op->0@ == "upload"@ || op->0@ == "uploadFile"@ {
        TransferDirection::Upload
    } else {
        TransferDirection::Download
    };
    assert(direction_of(op) == Some(dir));
    let shown = progress_view(dir, td.relative_path->0@, td.size, td.bytes);
    assert(transfer_effect(m, td) == with_transfer(m, Some(shown)));
}

} // verus!
