//! Decisions of the transfer worker: which items are still to be uploaded,
//! attempt numbering and retries, the final session state and the final
//! report.
use vstd::prelude::*;

use crate::domain::errors::{error_message, AppError, AppResult};
use crate::domain::models::{
    AnalysisDecisionKind, FinalReport, FinalReportEntry, ItemState, ScannedItem, SessionState,
};
use crate::domain::state_machine::{session_state_debug, session_state_debug_exec};
use crate::services::clock::now_millis;
use crate::text::{decimal, join2, join4, opt_view, owned, u64_to_string};

verus! {

/// Attempts per file before the transfer gives up on it.
pub const MAX_ATTEMPTS: u32 = 4;

/// The worker still has to upload the item.
pub open spec fn is_actionable(item: ScannedItem) -> bool {
    match item.state {
        ItemState::Ready | ItemState::Uploading | ItemState::Retrying => true,
        ItemState::Error => item.attempts < MAX_ATTEMPTS,
        _ => false,
    }
}

/// The items the worker still has to upload, in order.
pub open spec fn actionable(items: Seq<ScannedItem>) -> Seq<ScannedItem>
    decreases items.len(),
{
    if items.len() == 0 {
        Seq::empty()
    } else {
        let p = actionable(items.drop_last());
        if is_actionable(items.last()) {
            p.push(items.last())
        } else {
            p
        }
    }
}

/// The items the worker still has to upload, in order.
pub fn actionable_candidates(items: Vec<ScannedItem>) -> (r: Vec<ScannedItem>)
    ensures
        r@ == actionable(items@),
{
    let ghost all = items@;
    let mut r: Vec<ScannedItem> = Vec::new();
    for item in it: items
        invariant
            it.seq() == all,
            r@ == actionable(all.take(it.index() as int)),
    {
        let ghost k = it.index();
        assert(all.take(k + 1).drop_last() =~= all.take(k as int));
        let keep = match item.state {
            ItemState::Ready | ItemState::Uploading | ItemState::Retrying => true,
            ItemState::Error => item.attempts < MAX_ATTEMPTS,
            _ => false,
        };
        if keep {
            r.push(item);
        }
    }
    assert(all.take(all.len() as int) =~= all);
    r
}

/// The worker keeps exactly the items that are ready, uploading (cut off by
/// an interruption or a pause), waiting for a retry, or failed with attempts
/// left, and drops every other item, keeping the order.
pub proof fn law_actionable_keeps_unfinished(items: Seq<ScannedItem>)
    ensures
        actionable(items) == items.filter(
            |it: ScannedItem|
                it.state == ItemState::Ready || it.state == ItemState::Uploading || it.state
                    == ItemState::Retrying || (it.state == ItemState::Error && it.attempts
                    < MAX_ATTEMPTS),
        ),
        forall|i: int|
            0 <= i < items.len() && (items[i].state == ItemState::Ready || items[i].state
                == ItemState::Uploading || items[i].state == ItemState::Retrying || (
            items[i].state == ItemState::Error && items[i].attempts < MAX_ATTEMPTS)) ==> #[trigger] actionable(
                items,
            ).contains(items[i]),
        forall|i: int|
            0 <= i < actionable(items).len() ==> {
                let it = #[trigger] actionable(items)[i];
                it.state == ItemState::Ready || it.state == ItemState::Uploading || it.state
                    == ItemState::Retrying || (it.state == ItemState::Error && it.attempts
                    < MAX_ATTEMPTS)
            },
    decreases items.len(),
{
    reveal(Seq::filter);
    if items.len() > 0 {
        law_actionable_keeps_unfinished(items.drop_last());
    }
    broadcast use vstd::seq_lib::group_filter_ensures;
}

/// Number of items in state `s`.
pub open spec fn count_state(items: Seq<ScannedItem>, s: ItemState) -> nat
    decreases items.len(),
{
    if items.len() == 0 {
        0
    } else {
        count_state(items.drop_last(), s) + if items.last().state == s {
            1nat
        } else {
            0nat
        }
    }
}

/// Sum of item sizes, saturating at `u64::MAX` after each addition.
pub open spec fn saturating_total_size(items: Seq<ScannedItem>) -> nat
    decreases items.len(),
{
    if items.len() == 0 {
        0
    } else {
        let t = saturating_total_size(items.drop_last()) + items.last().size_bytes as nat;
        if t > u64::MAX {
            u64::MAX as nat
        } else {
            t
        }
    }
}

/// Sum of uploaded byte counts, saturating at `u64::MAX` after each addition.
pub open spec fn saturating_total_uploaded(items: Seq<ScannedItem>) -> nat
    decreases items.len(),
{
    if items.len() == 0 {
        0
    } else {
        let t = saturating_total_uploaded(items.drop_last()) + items.last().uploaded_bytes as nat;
        if t > u64::MAX {
            u64::MAX as nat
        } else {
            t
        }
    }
}

/// Whole seconds between the start and the end of the transfer (never
/// negative); the measured elapsed time when the start is unknown.
pub open spec fn report_duration(started_at: Option<i64>, finished_at: i64, elapsed_secs: u64) -> nat {
    match started_at {
        Some(s) => if finished_at - s <= 0 {
            0
        } else {
            ((finished_at - s) / 1000) as nat
        },
        None => elapsed_secs as nat,
    }
}

/// The report line of an item.
pub open spec fn entry_for(e: FinalReportEntry, item: ScannedItem) -> bool {
    &&& e.item_id@ == item.item_id@
    &&& e.file_name@ == item.file_name@
    &&& e.local_path@ == item.local_path@
    &&& e.state == item.state
    &&& e.bytes_uploaded == item.uploaded_bytes
    &&& e.total_bytes == item.size_bytes
    &&& opt_view(e.message) == opt_view(item.message)
}

/// The final report owed for the items of a run.
pub open spec fn report_for(
    r: FinalReport,
    items: Seq<ScannedItem>,
    session_id: Seq<char>,
    started_at: Option<i64>,
    finished_at: i64,
    elapsed_secs: u64,
    cancelled: bool,
) -> bool {
    &&& r.session_id@ == session_id
    &&& r.started_at == started_at
    &&& r.finished_at == Some(finished_at)
    &&& r.duration_seconds == Some(report_duration(started_at, finished_at, elapsed_secs) as u64)
    &&& r.total_files == items.len()
    &&& r.uploaded_files == count_state(items, ItemState::Uploaded)
    &&& r.skipped_files == count_state(items, ItemState::SkippedExisting) + count_state(
        items,
        ItemState::Ignored,
    )
    &&& r.conflict_files == count_state(items, ItemState::Conflict)
    &&& r.error_files == count_state(items, ItemState::Error)
    &&& r.cancelled_files == if cancelled && count_state(items, ItemState::Cancelled) == 0 {
        1
    } else {
        count_state(items, ItemState::Cancelled)
    }
    &&& r.total_bytes == saturating_total_size(items)
    &&& r.uploaded_bytes == saturating_total_uploaded(items)
    &&& r.entries.len() == items.len()
    &&& forall|i: int| 0 <= i < items.len() ==> entry_for(#[trigger] r.entries@[i], items[i])
}

proof fn lemma_count_state_bounded(items: Seq<ScannedItem>, s: ItemState)
    ensures
        count_state(items, s) <= items.len(),
    decreases items.len(),
{
    if items.len() > 0 {
        lemma_count_state_bounded(items.drop_last(), s);
    }
}

proof fn lemma_count_states_sum(items: Seq<ScannedItem>)
    ensures
        count_state(items, ItemState::Uploaded) + count_state(items, ItemState::SkippedExisting)
            + count_state(items, ItemState::Ignored) + count_state(items, ItemState::Conflict)
            + count_state(items, ItemState::Error) + count_state(items, ItemState::Cancelled)
            <= items.len(),
    decreases items.len(),
{
    if items.len() > 0 {
        lemma_count_states_sum(items.drop_last());
    }
}

fn report_duration_exec(started_at: Option<i64>, finished_at: i64, elapsed_secs: u64) -> (r: u64)
    ensures
        r == report_duration(started_at, finished_at, elapsed_secs),
{
    match started_at {
        Some(s) => {
            let d: i128 = finished_at as i128 - s as i128;
            if d <= 0 {
                0
            } else {
                (d / 1000) as u64
            }
        },
        None => elapsed_secs,
    }
}

/// Builds the final report of a run from the items as they stand at its end.
///
/// `finished_at` is the end time, `elapsed_secs` the time measured since the
/// worker started (used when no start time was recorded), `cancelled` tells
/// whether the run was cancelled by the user.
pub fn build_report(
    items: Vec<ScannedItem>,
    session_id: String,
    started_at: Option<i64>,
    finished_at: i64,
    elapsed_secs: u64,
    cancelled: bool,
) -> (r: FinalReport)
    ensures
        report_for(r, items@, session_id@, started_at, finished_at, elapsed_secs, cancelled),
{
    let ghost all = items@;
    assert(all.len() == items.len());
    let mut uploaded_files: u64 = 0;
    let mut skipped_files: u64 = 0;
    let mut conflict_files: u64 = 0;
    let mut error_files: u64 = 0;
    let mut cancelled_files: u64 = 0;
    let mut total_bytes: u64 = 0;
    let mut uploaded_bytes: u64 = 0;
    let mut entries: Vec<FinalReportEntry> = Vec::new();
    for item in it: items
        invariant
            it.seq() == all,
            all.len() <= usize::MAX,
            entries.len() == it.index(),
            forall|i: int|
                0 <= i < it.index() ==> entry_for(#[trigger] entries@[i], all[i]),
            uploaded_files == count_state(all.take(it.index() as int), ItemState::Uploaded),
            skipped_files == count_state(all.take(it.index() as int), ItemState::SkippedExisting)
                + count_state(all.take(it.index() as int), ItemState::Ignored),
            conflict_files == count_state(all.take(it.index() as int), ItemState::Conflict),
            error_files == count_state(all.take(it.index() as int), ItemState::Error),
            cancelled_files == count_state(all.take(it.index() as int), ItemState::Cancelled),
            total_bytes == saturating_total_size(all.take(it.index() as int)),
            uploaded_bytes == saturating_total_uploaded(all.take(it.index() as int)),
    {
        let ghost k = it.index();
        let ghost pre = all.take(k as int);
        let ghost next = all.take(k + 1);
        assert(next.drop_last() =~= pre);
        assert(next.last() == item);
        proof {
            lemma_count_states_sum(next);
        }
        total_bytes = total_bytes.saturating_add(item.size_bytes);
        uploaded_bytes = uploaded_bytes.saturating_add(item.uploaded_bytes);
        match item.state {
            ItemState::Uploaded => {
                uploaded_files = uploaded_files + 1;
            },
            ItemState::SkippedExisting | ItemState::Ignored => {
                skipped_files = skipped_files + 1;
            },
            ItemState::Conflict => {
                conflict_files = conflict_files + 1;
            },
            ItemState::Error => {
                error_files = error_files + 1;
            },
            ItemState::Cancelled => {
                cancelled_files = cancelled_files + 1;
            },
            _ => {},
        }
        entries.push(
            FinalReportEntry {
                item_id: item.item_id,
                file_name: item.file_name,
                local_path: item.local_path,
                state: item.state,
                bytes_uploaded: item.uploaded_bytes,
                total_bytes: item.size_bytes,
                message: item.message,
            },
        );
    }
    assert(all.take(all.len() as int) =~= all);
    if cancelled && cancelled_files == 0 {
        cancelled_files = 1;
    }
    let duration_seconds = report_duration_exec(started_at, finished_at, elapsed_secs);
    FinalReport {
        session_id,
        started_at,
        finished_at: Some(finished_at),
        duration_seconds: Some(duration_seconds),
        total_files: entries.len() as u64,
        uploaded_files,
        skipped_files,
        conflict_files,
        error_files,
        cancelled_files,
        total_bytes,
        uploaded_bytes,
        entries,
    }
}

/// The final report of a run that ends now.
pub fn build_report_now(
    items: Vec<ScannedItem>,
    session_id: String,
    started_at: Option<i64>,
    elapsed_secs: u64,
    cancelled: bool,
) -> (r: FinalReport)
    ensures
        r.finished_at is Some,
        report_for(
            r,
            items@,
            session_id@,
            started_at,
            r.finished_at->0,
            elapsed_secs,
            cancelled,
        ),
{
    let finished_at = now_millis();
    build_report(items, session_id, started_at, finished_at, elapsed_secs, cancelled)
}

/// Session state at the end of a run that was not cancelled: any error or
/// cancelled file makes it completed with errors, otherwise completed when a
/// file was uploaded, failed when none was.
pub open spec fn final_state(r: FinalReport) -> SessionState {
    if r.error_files > 0 || r.cancelled_files > 0 {
        SessionState::CompletedWithErrors
    } else if r.uploaded_files > 0 {
        SessionState::Completed
    } else {
        SessionState::Failed
    }
}

/// Session state at the end of a run that was not cancelled.
pub fn final_session_state(report: &FinalReport) -> (r: SessionState)
    ensures
        r == final_state(*report),
{
    if report.error_files > 0 || report.cancelled_files > 0 {
        SessionState::CompletedWithErrors
    } else if report.uploaded_files > 0 {
        SessionState::Completed
    } else {
        SessionState::Failed
    }
}

/// Message of a run that ended in `state`.
pub open spec fn completion_text(state: SessionState) -> Seq<char> {
    match state {
        SessionState::Completed => "Transfer completed successfully"@,
        SessionState::CompletedWithErrors => "Transfer finished with errors. Check final report."@,
        SessionState::Failed => "Transfer failed. No file was uploaded."@,
        _ => "Transfer stopped"@,
    }
}

/// Message shown when a run ends in `state`.
pub fn completion_message(state: SessionState) -> (r: String)
    ensures
        r@ == completion_text(state),
{
    match state {
        SessionState::Completed => owned("Transfer completed successfully"),
        SessionState::CompletedWithErrors => owned(
            "Transfer finished with errors. Check final report.",
        ),
        SessionState::Failed => owned("Transfer failed. No file was uploaded."),
        _ => owned("Transfer stopped"),
    }
}

/// How a run ends: the session state it leaves and the message shown.
pub struct RunEnd {
    pub state: SessionState,
    pub message: String,
}

/// The end of a run given whether it was cancelled and its final report: a
/// cancelled run ends with errors and says so, whatever the report holds;
/// otherwise the report decides the state, and the state the message.
pub fn run_end(cancelled: bool, report: &FinalReport) -> (r: RunEnd)
    ensures
        r.state == (if cancelled {
            SessionState::CompletedWithErrors
        } else {
            final_state(*report)
        }),
        r.message@ == (if cancelled {
            "Transfer cancelled"@
        } else {
            completion_text(final_state(*report))
        }),
{
    if cancelled {
        RunEnd { state: SessionState::CompletedWithErrors, message: owned("Transfer cancelled") }
    } else {
        let state = final_session_state(report);
        RunEnd { state, message: completion_message(state) }
    }
}

/// Note left on the items that a cancelled run had still to upload.
pub fn cancelled_item_note() -> (r: &'static str)
    ensures
        r@ == "Cancelled by user"@,
{
    "Cancelled by user"
}

/// A run ends completed only when every file that was not skipped was
/// uploaded: no error, no cancellation, and at least one upload.
pub proof fn law_completed_means_clean_run(r: FinalReport)
    requires
        final_state(r) == SessionState::Completed,
    ensures
        r.error_files == 0,
        r.cancelled_files == 0,
        r.uploaded_files > 0,
{
}

/// A cancelled run always reports at least one cancelled file.
pub proof fn law_cancelled_run_reports_cancellation(
    r: FinalReport,
    items: Seq<ScannedItem>,
    session_id: Seq<char>,
    started_at: Option<i64>,
    finished_at: i64,
    elapsed_secs: u64,
)
    requires
        report_for(r, items, session_id, started_at, finished_at, elapsed_secs, true),
    ensures
        r.cancelled_files >= 1,
        final_state(r) == SessionState::CompletedWithErrors,
{
}

/// Per-state counts of a report never exceed its number of files.
pub proof fn law_report_counts_bounded(
    r: FinalReport,
    items: Seq<ScannedItem>,
    session_id: Seq<char>,
    started_at: Option<i64>,
    finished_at: i64,
    elapsed_secs: u64,
)
    requires
        report_for(r, items, session_id, started_at, finished_at, elapsed_secs, false),
    ensures
        r.uploaded_files + r.skipped_files + r.conflict_files + r.error_files + r.cancelled_files
            <= r.total_files,
{
    lemma_count_states_sum(items);
}

proof fn lemma_count_is_filter(items: Seq<ScannedItem>, s: ItemState)
    ensures
        count_state(items, s) == items.filter(|it: ScannedItem| it.state == s).len(),
    decreases items.len(),
{
    reveal(Seq::filter);
    if items.len() > 0 {
        lemma_count_is_filter(items.drop_last(), s);
    }
}

proof fn lemma_skipped_is_filter(items: Seq<ScannedItem>)
    ensures
        count_state(items, ItemState::SkippedExisting) + count_state(items, ItemState::Ignored)
            == items.filter(
            |it: ScannedItem| it.state == ItemState::SkippedExisting || it.state == ItemState::Ignored,
        ).len(),
    decreases items.len(),
{
    reveal(Seq::filter);
    if items.len() > 0 {
        lemma_skipped_is_filter(items.drop_last());
    }
}

proof fn lemma_settled_is_filter(items: Seq<ScannedItem>)
    ensures
        count_state(items, ItemState::Uploaded) + count_state(items, ItemState::SkippedExisting)
            + count_state(items, ItemState::Ignored) + count_state(items, ItemState::Conflict)
            + count_state(items, ItemState::Error) + count_state(items, ItemState::Cancelled)
            == items.filter(
            |it: ScannedItem|
                it.state == ItemState::Uploaded || it.state == ItemState::SkippedExisting
                    || it.state == ItemState::Ignored || it.state == ItemState::Conflict
                    || it.state == ItemState::Error || it.state == ItemState::Cancelled,
        ).len(),
    decreases items.len(),
{
    reveal(Seq::filter);
    if items.len() > 0 {
        lemma_settled_is_filter(items.drop_last());
    }
}

/// Each file of a report is counted in the bucket of its own state: uploaded
/// files are those in state `Uploaded`, skipped ones those skipped as
/// existing or ignored, conflicts those in `Conflict`, errors those in
/// `Error`; without a cancellation the cancelled files are those in
/// `Cancelled`, and the buckets together count every file in one of these
/// states exactly once. Each entry carries the state of its item.
pub proof fn law_report_counts_each_file_by_its_state(
    r: FinalReport,
    items: Seq<ScannedItem>,
    session_id: Seq<char>,
    started_at: Option<i64>,
    finished_at: i64,
    elapsed_secs: u64,
    cancelled: bool,
)
    requires
        report_for(r, items, session_id, started_at, finished_at, elapsed_secs, cancelled),
    ensures
        r.uploaded_files == items.filter(|it: ScannedItem| it.state == ItemState::Uploaded).len(),
        r.skipped_files == items.filter(
            |it: ScannedItem| it.state == ItemState::SkippedExisting || it.state == ItemState::Ignored,
        ).len(),
        r.conflict_files == items.filter(|it: ScannedItem| it.state == ItemState::Conflict).len(),
        r.error_files == items.filter(|it: ScannedItem| it.state == ItemState::Error).len(),
        !cancelled ==> r.cancelled_files == items.filter(
            |it: ScannedItem| it.state == ItemState::Cancelled,
        ).len(),
        !cancelled ==> r.uploaded_files + r.skipped_files + r.conflict_files + r.error_files
            + r.cancelled_files == items.filter(
            |it: ScannedItem|
                it.state == ItemState::Uploaded || it.state == ItemState::SkippedExisting
                    || it.state == ItemState::Ignored || it.state == ItemState::Conflict
                    || it.state == ItemState::Error || it.state == ItemState::Cancelled,
        ).len(),
        cancelled ==> r.cancelled_files == (if items.filter(
            |it: ScannedItem| it.state == ItemState::Cancelled,
        ).len() == 0 {
            1
        } else {
            items.filter(|it: ScannedItem| it.state == ItemState::Cancelled).len()
        }),
        r.total_files == items.len(),
        r.entries.len() == items.len(),
        forall|i: int|
            0 <= i < items.len() ==> {
                let e = #[trigger] r.entries@[i];
                &&& e.state == items[i].state
                &&& e.item_id@ == items[i].item_id@
                &&& e.file_name@ == items[i].file_name@
                &&& e.local_path@ == items[i].local_path@
                &&& e.bytes_uploaded == items[i].uploaded_bytes
                &&& e.total_bytes == items[i].size_bytes
                &&& opt_view(e.message) == opt_view(items[i].message)
            },
{
    lemma_count_is_filter(items, ItemState::Uploaded);
    lemma_count_is_filter(items, ItemState::Conflict);
    lemma_count_is_filter(items, ItemState::Error);
    lemma_count_is_filter(items, ItemState::Cancelled);
    lemma_skipped_is_filter(items);
    lemma_settled_is_filter(items);
    assert forall|i: int| 0 <= i < items.len() implies entry_for(#[trigger] r.entries@[i], items[i]) by {}
}

/// The item is part of the upload scope of a run (analysis decided to upload it).
pub open spec fn in_upload_scope(item: ScannedItem) -> bool {
    item.decision == Some(AnalysisDecisionKind::Ready)
}

/// Total size of the items in the upload scope.
pub open spec fn scope_size(items: Seq<ScannedItem>) -> nat
    decreases items.len(),
{
    if items.len() == 0 {
        0
    } else {
        scope_size(items.drop_last()) + if in_upload_scope(items.last()) {
            items.last().size_bytes as nat
        } else {
            0nat
        }
    }
}

/// Uploaded bytes of the scope, each item counted up to its size.
pub open spec fn scope_uploaded(items: Seq<ScannedItem>) -> nat
    decreases items.len(),
{
    if items.len() == 0 {
        0
    } else {
        scope_uploaded(items.drop_last()) + if in_upload_scope(items.last()) {
            if items.last().uploaded_bytes < items.last().size_bytes {
                items.last().uploaded_bytes as nat
            } else {
                items.last().size_bytes as nat
            }
        } else {
            0nat
        }
    }
}

/// Number of items in the upload scope.
pub open spec fn scope_count(items: Seq<ScannedItem>) -> nat
    decreases items.len(),
{
    if items.len() == 0 {
        0
    } else {
        scope_count(items.drop_last()) + if in_upload_scope(items.last()) {
            1nat
        } else {
            0nat
        }
    }
}

/// Number of items in the upload scope in state `s`.
pub open spec fn scope_count_state(items: Seq<ScannedItem>, s: ItemState) -> nat
    decreases items.len(),
{
    if items.len() == 0 {
        0
    } else {
        scope_count_state(items.drop_last(), s) + if in_upload_scope(items.last())
            && items.last().state == s {
            1nat
        } else {
            0nat
        }
    }
}

/// Progress figures of a run over its upload scope.
#[derive(Debug, Clone, Copy)]
pub struct SnapshotCounts {
    pub total_bytes: u64,
    pub uploaded_bytes: u64,
    pub total_files: u64,
    pub completed_files: u64,
    pub error_files: u64,
    pub retrying_files: u64,
}

proof fn lemma_scope_bounds(items: Seq<ScannedItem>)
    ensures
        scope_uploaded(items) <= scope_size(items),
        scope_count(items) <= items.len(),
        scope_count_state(items, ItemState::Uploaded) <= scope_count(items),
        scope_count_state(items, ItemState::Error) <= scope_count(items),
        scope_count_state(items, ItemState::Retrying) <= scope_count(items),
    decreases items.len(),
{
    if items.len() > 0 {
        lemma_scope_bounds(items.drop_last());
    }
}

proof fn lemma_scope_size_monotone(items: Seq<ScannedItem>, k: int)
    requires
        0 <= k <= items.len(),
    ensures
        scope_size(items.take(k)) <= scope_size(items),
    decreases items.len() - k,
{
    if k < items.len() {
        assert(items.drop_last().take(k) =~= items.take(k));
        lemma_scope_size_monotone(items.drop_last(), k);
    } else {
        assert(items.take(k) =~= items);
    }
}

/// Progress figures over the files the analysis decided to upload: bytes in
/// scope, bytes sent (each file counted up to its size), files in scope, and
/// files uploaded, failed and waiting for a retry.
pub fn snapshot_counts(items: &[ScannedItem]) -> (r: SnapshotCounts)
    requires
        scope_size(items@) <= u64::MAX,
    ensures
        r.total_bytes == scope_size(items@),
        r.uploaded_bytes == scope_uploaded(items@),
        r.total_files == scope_count(items@),
        r.completed_files == scope_count_state(items@, ItemState::Uploaded),
        r.error_files == scope_count_state(items@, ItemState::Error),
        r.retrying_files == scope_count_state(items@, ItemState::Retrying),
{
    let mut r = SnapshotCounts {
        total_bytes: 0,
        uploaded_bytes: 0,
        total_files: 0,
        completed_files: 0,
        error_files: 0,
        retrying_files: 0,
    };
    let mut i: usize = 0;
    while i < items.len()
        invariant
            i <= items.len(),
            scope_size(items@) <= u64::MAX,
            r.total_bytes == scope_size(items@.take(i as int)),
            r.uploaded_bytes == scope_uploaded(items@.take(i as int)),
            r.total_files == scope_count(items@.take(i as int)),
            r.completed_files == scope_count_state(items@.take(i as int), ItemState::Uploaded),
            r.error_files == scope_count_state(items@.take(i as int), ItemState::Error),
            r.retrying_files == scope_count_state(items@.take(i as int), ItemState::Retrying),
        decreases items.len() - i,
    {
        let ghost next = items@.take(i + 1);
        assert(next.drop_last() =~= items@.take(i as int));
        proof {
            lemma_scope_size_monotone(items@, i + 1);
            lemma_scope_bounds(next);
        }
        let item = &items[i];
        if item.decision == Some(AnalysisDecisionKind::Ready) {
            r.total_bytes = r.total_bytes + item.size_bytes;
            let sent = if item.uploaded_bytes < item.size_bytes {
                item.uploaded_bytes
            } else {
                item.size_bytes
            };
            r.uploaded_bytes = r.uploaded_bytes + sent;
            r.total_files = r.total_files + 1;
            match item.state {
                ItemState::Uploaded => {
                    r.completed_files = r.completed_files + 1;
                },
                ItemState::Error => {
                    r.error_files = r.error_files + 1;
                },
                ItemState::Retrying => {
                    r.retrying_files = r.retrying_files + 1;
                },
                _ => {},
            }
        }
        i = i + 1;
    }
    assert(items@.take(items.len() as int) =~= items@);
    r
}

/// Progress never exceeds the scope: sent bytes are at most the bytes in scope
/// and uploaded, failed and retrying files are each at most the files in scope.
pub proof fn law_snapshot_progress_bounded(items: Seq<ScannedItem>)
    ensures
        scope_uploaded(items) <= scope_size(items),
        scope_count_state(items, ItemState::Uploaded) <= scope_count(items),
        scope_count_state(items, ItemState::Error) <= scope_count(items),
        scope_count_state(items, ItemState::Retrying) <= scope_count(items),
{
    lemma_scope_bounds(items);
}

/// Number of the first attempt of a file that already had `attempts`.
pub open spec fn first_attempt_of(attempts: u32) -> u32 {
    if attempts == u32::MAX {
        u32::MAX
    } else {
        (attempts + 1) as u32
    }
}

/// Number of the first attempt of a file that already had `attempts`
/// (one more, saturating, and at least 1).
pub fn first_attempt(attempts: u32) -> (r: u32)
    ensures
        r == first_attempt_of(attempts),
        r >= 1,
{
    let a = attempts.saturating_add(1);
    if a < 1 {
        1
    } else {
        a
    }
}

/// What the worker does before an upload attempt.
#[derive(Debug, Clone)]
pub struct AttemptPreparation {
    /// Mark the item as retrying with this message.
    pub mark_retrying: Option<String>,
    /// Wait for the backoff of this attempt number first.
    pub backoff_attempt: Option<u32>,
}

/// Preparation of attempt `attempt` of an item in state `state`: a first
/// attempt of an item that is not `Ready` resumes a pending file; a later
/// attempt is a scheduled retry and waits for the backoff of the previous
/// attempt.
pub fn prepare_attempt(attempt: u32, state: ItemState) -> (r: AttemptPreparation)
    requires
        attempt >= 1,
    ensures
        attempt == 1 ==> r.backoff_attempt is None && opt_view(r.mark_retrying) == if state
            == ItemState::Ready {
            None::<Seq<char>>
        } else {
            Some("Resuming pending file"@)
        },
        attempt > 1 ==> r.backoff_attempt == Some((attempt - 1) as u32) && opt_view(
            r.mark_retrying,
        ) == Some("Retry scheduled"@),
{
    if attempt == 1 {
        if state != ItemState::Ready {
            AttemptPreparation {
                mark_retrying: Some(owned("Resuming pending file")),
                backoff_attempt: None,
            }
        } else {
            AttemptPreparation { mark_retrying: None, backoff_attempt: None }
        }
    } else {
        AttemptPreparation {
            mark_retrying: Some(owned("Retry scheduled")),
            backoff_attempt: Some(attempt - 1),
        }
    }
}

/// What follows a failed attempt.
#[derive(Debug, Clone, Copy, PartialEq, Eq, Structural)]
pub enum FailureStep {
    /// Try again with this attempt number.
    Retry(u32),
    /// Mark the file as failed.
    GiveUp,
}

/// A transient failure is retried while fewer than `MAX_ATTEMPTS` attempts
/// were made; any other failure marks the file as failed.
pub fn after_failure(retryable: bool, attempt: u32) -> (r: FailureStep)
    ensures
        r == if retryable && attempt < MAX_ATTEMPTS {
            FailureStep::Retry((attempt + 1) as u32)
        } else {
            FailureStep::GiveUp
        },
{
    if retryable && attempt < MAX_ATTEMPTS {
        FailureStep::Retry(attempt + 1)
    } else {
        FailureStep::GiveUp
    }
}

/// A file is never attempted more than `MAX_ATTEMPTS` times in a run: a retry
/// always carries the next attempt number, and none is scheduled once that
/// number would pass the limit.
pub proof fn law_retries_bounded(retryable: bool, attempt: u32)
    ensures
        (if retryable && attempt < MAX_ATTEMPTS {
            FailureStep::Retry((attempt + 1) as u32)
        } else {
            FailureStep::GiveUp
        }) matches FailureStep::Retry(n) ==> n == attempt + 1 && n <= MAX_ATTEMPTS,
{
}

/// Checks that a transfer may start: the session is ready (or paused), no
/// worker is running, and there is something to upload.
pub fn check_can_start(state: SessionState, worker_running: bool, has_candidates: bool) -> (r:
    AppResult<()>)
    ensures
        r is Ok <==> ((state == SessionState::Ready || state == SessionState::Paused)
            && !worker_running && has_candidates),
        r matches Err(e) ==> (if !(state == SessionState::Ready || state == SessionState::Paused) {
            e matches AppError::InvalidStateTransition(m) && m@
                == "cannot start transfer from state "@ + session_state_debug(state)
        } else if worker_running {
            e matches AppError::InvalidStateTransition(m) && m@ == "transfer already running"@
        } else {
            e is MissingAnalysis
        }),
{
    if !(state == SessionState::Ready || state == SessionState::Paused) {
        return Err(
            AppError::InvalidStateTransition(
                join2("cannot start transfer from state ", session_state_debug_exec(state)),
            ),
        );
    }
    if worker_running {
        return Err(AppError::InvalidStateTransition(owned("transfer already running")));
    }
    if !has_candidates {
        return Err(AppError::MissingAnalysis);
    }
    Ok(())
}

/// How a pause request is carried out.
#[derive(Debug, Clone, Copy, PartialEq, Eq, Structural)]
pub enum PauseAction {
    /// The worker is uploading: it pauses once the current step completes.
    AfterCurrentStep,
    /// The session is set to paused at once.
    Immediate,
}

/// A pause needs a running worker; an uploading session pauses after the
/// current step, any other at once.
pub fn pause_action(worker_running: bool, state: SessionState) -> (r: AppResult<PauseAction>)
    ensures
        !worker_running ==> (r matches Err(e) && e is TransferNotRunning),
        worker_running && state == SessionState::Uploading ==> r == Ok::<
            PauseAction,
            AppError,
        >(PauseAction::AfterCurrentStep),
        worker_running && state != SessionState::Uploading ==> r == Ok::<
            PauseAction,
            AppError,
        >(PauseAction::Immediate),
{
    if !worker_running {
        return Err(AppError::TransferNotRunning);
    }
    if state == SessionState::Uploading {
        Ok(PauseAction::AfterCurrentStep)
    } else {
        Ok(PauseAction::Immediate)
    }
}

/// How a resume request is carried out.
#[derive(Debug, Clone, Copy, PartialEq, Eq, Structural)]
pub enum ResumeAction {
    /// Tell the running worker to continue.
    SignalWorker,
    /// No worker: start a new one from the paused session.
    StartWorker,
}

/// A running worker is told to continue; without one, a paused or interrupted
/// session gets a new worker; otherwise nothing is running.
pub fn resume_action(worker_running: bool, state: SessionState) -> (r: AppResult<ResumeAction>)
    ensures
        worker_running ==> r == Ok::<ResumeAction, AppError>(ResumeAction::SignalWorker),
        !worker_running && (state == SessionState::Paused || state == SessionState::Interrupted)
            ==> r == Ok::<ResumeAction, AppError>(ResumeAction::StartWorker),
        !worker_running && !(state == SessionState::Paused || state == SessionState::Interrupted)
            ==> (r matches Err(e) && e is TransferNotRunning),
{
    if worker_running {
        return Ok(ResumeAction::SignalWorker);
    }
    if state == SessionState::Paused || state == SessionState::Interrupted {
        return Ok(ResumeAction::StartWorker);
    }
    Err(AppError::TransferNotRunning)
}

/// A cancellation needs a running worker.
pub fn check_can_cancel(worker_running: bool) -> (r: AppResult<()>)
    ensures
        r is Ok <==> worker_running,
        r matches Err(e) ==> e is TransferNotRunning,
{
    if worker_running {
        Ok(())
    } else {
        Err(AppError::TransferNotRunning)
    }
}

/// Message of an upload that succeeded in the given mode.
pub fn upload_mode_message(direct: bool) -> (r: &'static str)
    ensures
        r@ == if direct {
            "Uploaded via direct mode"@
        } else {
            "Uploaded via classic mode"@
        },
{
    if direct {
        "Uploaded via direct mode"
    } else {
        "Uploaded via classic mode"
    }
}

/// Message of the snapshot sent while a file is being sent.
pub fn uploading_message(file_name: &str) -> (r: String)
    ensures
        r@ == "Uploading "@ + file_name@,
{
    join2("Uploading ", file_name)
}

/// Message of the snapshot sent once a file is uploaded.
pub fn uploaded_message(file_name: &str) -> (r: String)
    ensures
        r@ == "Uploaded "@ + file_name@,
{
    join2("Uploaded ", file_name)
}

/// Message of the snapshot sent when attempt `next_attempt` of a file is
/// scheduled.
pub fn retry_scheduled_message(next_attempt: u32, file_name: &str) -> (r: String)
    ensures
        r@ == "Retry "@ + decimal(next_attempt as nat) + " scheduled for "@ + file_name@,
{
    let n = u64_to_string(next_attempt as u64);
    join4("Retry ", n.as_str(), " scheduled for ", file_name)
}

/// Message of the snapshot sent when a file has failed for good.
pub fn failed_message(file_name: &str, err: &AppError) -> (r: String)
    ensures
        r@ == "Failed "@ + file_name@ + ": "@ + error_message(*err),
{
    let text = err.message();
    join4("Failed ", file_name, ": ", text.as_str())
}

/// Message of the snapshot sent while the transfer is paused.
pub fn paused_message() -> (r: &'static str)
    ensures
        r@ == "Transfer paused"@,
{
    "Transfer paused"
}

} // verus!
