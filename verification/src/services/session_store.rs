//! Rules of the persisted session: recovery after an interrupted run, the
//! item state that an analysis decision sets, upload candidates, history rows
//! and bootstrap data. The storage itself lives with the application.
use vstd::prelude::*;

use crate::domain::errors::{internal, AppError, AppResult};
use crate::domain::models::{
    AnalysisDecisionKind, DestinationBootstrap, DestinationConfigStored, FinalReport,
    HistoryEntry, ItemState, ScannedItem, SessionState, SourceEntry, SourceKind,
};
use crate::domain::state_machine::{ensure_item_transition, item_state_debug, item_transition_allowed};
use crate::services::clock::now_millis;
use crate::services::ids::{is_v4_uuid_text, new_uuid};
use crate::text::{
    chars_of, decimal, decimal_exec, join2, owned, push_all, seq_eq, string_of, u64_to_string,
};

verus! {

/// Location of the session database.
#[derive(Debug, Clone)]
pub struct SessionStore {
    db_path: String,
}

impl SessionStore {
    /// Path of the database file.
    pub closed spec fn path_view(&self) -> Seq<char> {
        self.db_path@
    }

    /// A store kept in the database file at `db_path`.
    pub fn new(db_path: String) -> (r: SessionStore)
        ensures
            r.path_view() == db_path@,
    {
        SessionStore { db_path }
    }

    /// Path of the database file.
    pub fn db_path(&self) -> (r: &str)
        ensures
            r@ == self.path_view(),
    {
        self.db_path.as_str()
    }
}

/// State a session is put in when the application starts: an in-flight
/// transfer becomes interrupted, a stale scan or analysis goes back to draft.
pub open spec fn recovered_state(state: SessionState) -> Option<SessionState> {
    match state {
        SessionState::Uploading | SessionState::Cancelling => Some(SessionState::Interrupted),
        SessionState::Scanning | SessionState::Analyzing => Some(SessionState::Draft),
        _ => None,
    }
}

/// State a session is put in when the application starts (`None`: unchanged).
pub fn recovery_state(state: SessionState) -> (r: Option<SessionState>)
    ensures
        r == recovered_state(state),
{
    match state {
        SessionState::Uploading | SessionState::Cancelling => Some(SessionState::Interrupted),
        SessionState::Scanning | SessionState::Analyzing => Some(SessionState::Draft),
        _ => None,
    }
}

/// After start-up recovery no session is uploading, cancelling, scanning or
/// analyzing: nothing is left looking active that no worker runs.
pub proof fn law_recovery_leaves_no_active_session(state: SessionState)
    ensures
        ({
            let after = match recovered_state(state) {
                Some(s) => s,
                None => state,
            };
            after != SessionState::Uploading && after != SessionState::Cancelling && after
                != SessionState::Scanning && after != SessionState::Analyzing
        }),
{
}

/// State of the session once the store is opened: a fresh database starts
/// in draft, and a stored state goes through start-up recovery.
pub open spec fn opened_state(stored: Option<SessionState>) -> SessionState {
    let s = match stored {
        Some(s) => s,
        None => SessionState::Draft,
    };
    match recovered_state(s) {
        Some(n) => n,
        None => s,
    }
}

/// What opening the store does to the session state.
pub struct OpenStep {
    /// The session state after opening.
    pub state: SessionState,
    /// Whether `state` must be written (it differs from what was stored, or
    /// nothing was).
    pub write_state: bool,
    /// Whether the last progress snapshot must be marked interrupted.
    pub mark_snapshot_interrupted: bool,
}

/// The step taken on the session state when the store is opened, given the
/// state stored in it (`None` for a fresh database).
pub fn state_on_open(stored: Option<SessionState>) -> (r: OpenStep)
    ensures
        r.state == opened_state(stored),
        r.write_state == match stored {
            Some(s) => recovered_state(s) is Some,
            None => true,
        },
        r.mark_snapshot_interrupted == match stored {
            Some(s) => recovered_state(s) == Some(SessionState::Interrupted),
            None => false,
        },
        r.state != SessionState::Uploading && r.state != SessionState::Cancelling
            && r.state != SessionState::Scanning && r.state != SessionState::Analyzing,
{
    match stored {
        None => OpenStep { state: SessionState::Draft, write_state: true, mark_snapshot_interrupted: false },
        Some(s) => match recovery_state(s) {
            Some(next) => {
                let mark = next == SessionState::Interrupted;
                OpenStep { state: next, write_state: true, mark_snapshot_interrupted: mark }
            },
            None => OpenStep { state: s, write_state: false, mark_snapshot_interrupted: false },
        },
    }
}

/// Opening the store again right after it was opened changes nothing: the
/// state it settles on is already one that recovery keeps.
pub proof fn law_open_is_idempotent(stored: Option<SessionState>)
    ensures
        opened_state(Some(opened_state(stored))) == opened_state(stored),
        recovered_state(opened_state(stored)) is None,
{
}

/// A fresh session identifier: a random version-4 UUID.
pub fn new_session_id() -> (r: String)
    ensures
        is_v4_uuid_text(r@),
{
    new_uuid()
}

/// The session identifier once the store is opened, given the one stored
/// (`None` for a fresh database), and whether it must be written: a stored
/// identifier is kept, otherwise a fresh one is made.
pub fn session_id_on_open(stored: Option<String>) -> (r: (String, bool))
    ensures
        match stored {
            Some(id) => r.0@ == id@ && !r.1,
            None => is_v4_uuid_text(r.0@) && r.1,
        },
{
    match stored {
        Some(id) => (id, false),
        None => (new_session_id(), true),
    }
}

/// Restoring the last interrupted session applies to an interrupted or
/// paused session, which becomes paused.
pub fn restores_to_paused(state: SessionState) -> (r: bool)
    ensures
        r == (state == SessionState::Interrupted || state == SessionState::Paused),
{
    state == SessionState::Interrupted || state == SessionState::Paused
}

/// Item state set by an analysis decision.
pub open spec fn decision_item_state(kind: AnalysisDecisionKind) -> ItemState {
    match kind {
        AnalysisDecisionKind::Ready => ItemState::Ready,
        AnalysisDecisionKind::SkipExisting => ItemState::SkippedExisting,
        AnalysisDecisionKind::Conflict => ItemState::Conflict,
        AnalysisDecisionKind::Ignored => ItemState::Ignored,
        AnalysisDecisionKind::Error => ItemState::Error,
    }
}

/// Item state set when an analysis decision is applied.
pub fn item_state_for_decision(kind: AnalysisDecisionKind) -> (r: ItemState)
    ensures
        r == decision_item_state(kind),
{
    match kind {
        AnalysisDecisionKind::Ready => ItemState::Ready,
        AnalysisDecisionKind::SkipExisting => ItemState::SkippedExisting,
        AnalysisDecisionKind::Conflict => ItemState::Conflict,
        AnalysisDecisionKind::Ignored => ItemState::Ignored,
        AnalysisDecisionKind::Error => ItemState::Error,
    }
}

/// Applying an analysis only ever makes the files decided `Ready` uploadable:
/// every other decision sets a state the worker does not pick up.
pub proof fn law_only_ready_decisions_are_uploadable(kind: AnalysisDecisionKind)
    ensures
        (decision_item_state(kind) == ItemState::Ready) <==> (kind == AnalysisDecisionKind::Ready),
{
}

/// The item was decided `Ready` and is not finished.
pub open spec fn is_upload_candidate(item: ScannedItem) -> bool {
    item.decision == Some(AnalysisDecisionKind::Ready) && match item.state {
        ItemState::Ready | ItemState::Error | ItemState::Retrying | ItemState::Uploading => true,
        _ => false,
    }
}

/// The items a transfer may upload, in order.
pub open spec fn candidates_of(items: Seq<ScannedItem>) -> Seq<ScannedItem>
    decreases items.len(),
{
    if items.len() == 0 {
        Seq::empty()
    } else {
        let p = candidates_of(items.drop_last());
        if is_upload_candidate(items.last()) {
            p.push(items.last())
        } else {
            p
        }
    }
}

/// The items still to upload, in order.
pub fn upload_candidates(items: Vec<ScannedItem>) -> (r: Vec<ScannedItem>)
    ensures
        r@ == candidates_of(items@),
{
    let ghost all = items@;
    let mut r: Vec<ScannedItem> = Vec::new();
    for item in it: items
        invariant
            it.seq() == all,
            r@ == candidates_of(all.take(it.index() as int)),
    {
        let ghost k = it.index();
        assert(all.take(k + 1).drop_last() =~= all.take(k as int));
        let keep = item.decision == Some(AnalysisDecisionKind::Ready) && match item.state {
            ItemState::Ready | ItemState::Error | ItemState::Retrying | ItemState::Uploading => true,
            _ => false,
        };
        if keep {
            r.push(item);
        }
    }
    assert(all.take(all.len() as int) =~= all);
    r
}

/// The history row recorded with a final report: the session state when it
/// is known (otherwise completed with errors) and the destination when one is
/// configured (otherwise `unknown`).
pub fn history_entry_for(
    report: &FinalReport,
    state: Option<SessionState>,
    destination: &Option<DestinationConfigStored>,
) -> (r: HistoryEntry)
    ensures
        r.session_id@ == report.session_id@,
        r.state == match state {
            Some(s) => s,
            None => SessionState::CompletedWithErrors,
        },
        r.server_url@ == match destination {
            Some(d) => d.server_url@,
            None => "unknown"@,
        },
        r.dataset_pid@ == match destination {
            Some(d) => d.dataset_pid@,
            None => "unknown"@,
        },
        r.started_at == report.started_at,
        r.finished_at == report.finished_at,
        r.total_files == report.total_files,
        r.uploaded_files == report.uploaded_files,
        r.error_files == report.error_files,
        r.total_bytes == report.total_bytes,
{
    let (server_url, dataset_pid) = match destination {
        Some(d) => (d.server_url.clone(), d.dataset_pid.clone()),
        None => (owned("unknown"), owned("unknown")),
    };
    HistoryEntry {
        session_id: report.session_id.clone(),
        dataset_pid,
        server_url,
        state: match state {
            Some(s) => s,
            None => SessionState::CompletedWithErrors,
        },
        started_at: report.started_at,
        finished_at: report.finished_at,
        total_files: report.total_files,
        uploaded_files: report.uploaded_files,
        error_files: report.error_files,
        total_bytes: report.total_bytes,
    }
}

/// The destination shown at start-up, with whether a token is stored for it.
pub fn bootstrap_destination(stored: Option<DestinationConfigStored>, has_token: bool) -> (r:
    Option<DestinationBootstrap>)
    ensures
        r is Some <==> stored is Some,
        r matches Some(b) ==> b.server_url@ == stored->0.server_url@ && b.dataset_pid@
            == stored->0.dataset_pid@ && b.has_token == has_token,
{
    match stored {
        Some(cfg) => Some(
            DestinationBootstrap {
                server_url: cfg.server_url,
                dataset_pid: cfg.dataset_pid,
                has_token,
            },
        ),
        None => None,
    }
}

/// Whether a canonical source path is not yet among the stored sources.
pub fn is_new_source(existing: &[String], canonical: &str) -> (r: bool)
    ensures
        r == !(exists|i: int| 0 <= i < existing.len() && (#[trigger] existing@[i])@ == canonical@),
{
    let c = chars_of(canonical);
    let mut i: usize = 0;
    while i < existing.len()
        invariant
            i <= existing.len(),
            c@ == canonical@,
            forall|k: int| 0 <= k < i ==> (#[trigger] existing@[k])@ != canonical@,
        decreases existing.len() - i,
    {
        if seq_eq(&chars_of(existing[i].as_str()), &c) {
            return false;
        }
        i = i + 1;
    }
    true
}

/// The kind of a new source: a folder or a regular file; anything else is
/// skipped.
pub fn source_kind_for(is_dir: bool, is_file: bool) -> (r: Option<SourceKind>)
    ensures
        r == (if is_dir {
            Some(SourceKind::Folder)
        } else if is_file {
            Some(SourceKind::File)
        } else {
            None::<SourceKind>
        }),
{
    if is_dir {
        Some(SourceKind::Folder)
    } else if is_file {
        Some(SourceKind::File)
    } else {
        None
    }
}

/// A new source entry with a fresh identifier, added now.
pub fn new_source_entry(canonical_path: &str, kind: SourceKind, recursive: bool) -> (r: SourceEntry)
    ensures
        is_v4_uuid_text(r.id@),
        r.path@ == canonical_path@,
        r.kind == kind,
        r.recursive == recursive,
{
    SourceEntry {
        id: new_uuid(),
        path: owned(canonical_path),
        kind,
        recursive,
        added_at: now_millis(),
    }
}

/// Checks a progress update of an item: the item must exist and its state
/// may only move along the item state machine.
pub fn check_item_progress(current: Option<ItemState>, item_id: &str, next: ItemState) -> (r:
    AppResult<()>)
    ensures
        match current {
            None => r matches Err(AppError::InvalidInput(m)) && m@ == "item not found: "@
                + item_id@,
            Some(c) => (r is Ok <==> item_transition_allowed(c, next)) && (r matches Err(e)
                ==> e matches AppError::InvalidStateTransition(m) && m@
                == "cannot transition item from "@ + item_state_debug(c) + " to "@
                + item_state_debug(next)),
        },
{
    match current {
        None => {
            let m = join2("item not found: ", item_id);
            Err(AppError::InvalidInput(m))
        },
        Some(c) => ensure_item_transition(&c, &next),
    }
}

/// Text of a signed integer, as `i64::to_string` prints it.
pub open spec fn signed_decimal(v: int) -> Seq<char> {
    if v < 0 {
        seq!['-'] + decimal((-v) as nat)
    } else {
        decimal(v as nat)
    }
}

/// Text of a signed integer.
pub fn i64_to_string(v: i64) -> (r: String)
    ensures
        r@ == signed_decimal(v as int),
{
    if v < 0 {
        let magnitude: u64 = if v == i64::MIN {
            9223372036854775808u64
        } else {
            (-v) as u64
        };
        let digits = decimal_exec(magnitude);
        let mut out: Vec<char> = Vec::new();
        out.push('-');
        push_all(&mut out, &digits);
        assert(out@ =~= seq!['-'] + decimal((-v) as nat));
        string_of(&out)
    } else {
        u64_to_string(v as u64)
    }
}

/// A count or size read back from the database, where it is kept signed;
/// a negative value is refused.
pub fn u64_from_i64(value: i64) -> (r: AppResult<u64>)
    ensures
        value >= 0 ==> r == Ok::<u64, AppError>(value as u64),
        value < 0 ==> (r matches Err(AppError::Internal(m)) && m@
            == "negative integer found in persistence layer: "@ + signed_decimal(value as int)),
{
    if value < 0 {
        let text = i64_to_string(value);
        return Err(AppError::Internal(join2("negative integer found in persistence layer: ", text.as_str())));
    }
    Ok(value as u64)
}

/// A count or size as it is kept in the database; a value beyond the signed
/// range is refused.
pub fn i64_from_u64(value: u64) -> (r: AppResult<i64>)
    ensures
        value <= i64::MAX ==> r == Ok::<i64, AppError>(value as i64),
        value > i64::MAX ==> (r matches Err(AppError::Internal(m)) && m@
            == "integer overflow while storing value"@),
{
    if value > 9223372036854775807u64 {
        Err(internal("integer overflow while storing value"))
    } else {
        Ok(value as i64)
    }
}

/// Message of the last snapshot of a transfer found in flight at start-up.
pub fn interrupted_snapshot_message() -> (r: &'static str)
    ensures
        r@ == "Application closed during transfer. Review status and resume when ready."@,
{
    "Application closed during transfer. Review status and resume when ready."
}

/// Message of the last snapshot of a restored session.
pub fn restored_snapshot_message() -> (r: &'static str)
    ensures
        r@ == "Session restored. Press Resume to continue transfer."@,
{
    "Session restored. Press Resume to continue transfer."
}

/// Whether the temporary bundle recorded in the store is left over: it is
/// recorded but no scanned item points at it.
pub fn is_orphan_bundle(temp_bundle_path: &Option<String>, referenced_by_item: bool) -> (r: bool)
    ensures
        r == (temp_bundle_path is Some && !referenced_by_item),
{
    temp_bundle_path.is_some() && !referenced_by_item
}

} // verus!
