//! The rules of the user-facing operations: when an operation is refused,
//! which token is used, what a failed destination check reports, and how a
//! folder structure is turned into a one-file transfer plan.
//!
//! The operations themselves (reading the store, calling the server,
//! emitting events) are run by the caller, which asks these functions at
//! each decision.
use vstd::prelude::*;

use crate::domain::errors::{bad_request, AppError, AppResult};
use crate::domain::models::{
    AnalysisDecisionKind, AnalysisItemDecision, AnalysisProgressEvent, AnalysisSummary,
    AnalyzeBatchInput, DestinationConfigStored, DestinationErrorKind, DestinationValidationResult,
    ItemState, ScanSummary, ScannedItem, SessionState, SourceEntry, SourceKind,
};
use crate::services::bundle_service::{BundleArtifact, BundleBuildProgress};
use crate::services::clock::now_millis;
use crate::services::ids::{is_v4_uuid_text, new_uuid};
use crate::services::dataverse_url::{
    normalize_server_url, normalized_from, parsed_url, trimmed_server_url, UrlCheck,
};
use crate::text::{
    chars_of, decimal, join2, join4, opt_view, owned, string_of, trim, trim_ws,
    u64_to_string,
};

verus! {

// ---------------------------------------------------------------------------
// Guards
// ---------------------------------------------------------------------------

/// A transfer is running, paused or being cancelled.
pub open spec fn transfer_active(s: SessionState) -> bool {
    s == SessionState::Uploading || s == SessionState::Paused || s == SessionState::Cancelling
}

/// Refuses an operation that changes the sources, the destination or the
/// plan while a transfer is active or paused.
pub fn ensure_transfer_not_active(state: SessionState) -> (r: AppResult<()>)
    ensures
        r is Ok <==> !transfer_active(state),
        r matches Err(e) ==> e matches AppError::InvalidStateTransition(m) && m@
            == "Operation not allowed while transfer is active or paused."@,
{
    match state {
        SessionState::Uploading | SessionState::Paused | SessionState::Cancelling => Err(
            AppError::InvalidStateTransition(
                owned("Operation not allowed while transfer is active or paused."),
            ),
        ),
        _ => Ok(()),
    }
}

/// Stops a scan or an analysis once the user asked to cancel it.
pub fn ensure_preflight_not_cancelled(cancel_requested: bool) -> (r: AppResult<()>)
    ensures
        r is Ok <==> !cancel_requested,
        r matches Err(e) ==> e is Cancelled,
{
    if cancel_requested {
        Err(AppError::Cancelled)
    } else {
        Ok(())
    }
}

/// A scan or an analysis is running: a cancel request stops it instead of a
/// transfer.
pub open spec fn in_preflight(s: SessionState) -> bool {
    s == SessionState::Scanning || s == SessionState::Analyzing
}

/// Whether a cancel request applies to a scan or an analysis.
pub fn is_preflight_state(state: SessionState) -> (r: bool)
    ensures
        r == in_preflight(state),
{
    match state {
        SessionState::Scanning | SessionState::Analyzing => true,
        _ => false,
    }
}

// ---------------------------------------------------------------------------
// Destination
// ---------------------------------------------------------------------------

/// The trimmed token typed by the user, when it is not empty.
pub fn explicit_api_token(input_token: &str) -> (r: Option<String>)
    ensures
        match r {
            Some(t) => t@ == trim_ws(input_token@) && t@.len() > 0,
            None => trim_ws(input_token@).len() == 0,
        },
{
    let t = trim(&chars_of(input_token));
    if t.len() > 0 {
        Some(string_of(&t))
    } else {
        None
    }
}

/// The token stored for the destination, or `MissingToken`.
pub fn stored_api_token(stored: Option<String>) -> (r: AppResult<String>)
    ensures
        match stored {
            Some(t) => r matches Ok(x) && x@ == t@,
            None => r matches Err(e) && e is MissingToken,
        },
{
    match stored {
        Some(t) => Ok(t),
        None => Err(AppError::MissingToken),
    }
}

/// The destination as it is saved: normalized server URL, trimmed dataset
/// PID; a bad URL or an empty PID is refused.
pub fn check_destination_input(server_url: &str, dataset_pid: &str) -> (r: AppResult<
    DestinationConfigStored,
>)
    ensures
        match normalized_from(
            trimmed_server_url(server_url@),
            parsed_url(trimmed_server_url(server_url@)),
        ) {
            UrlCheck::Rejected(m) => r matches Err(AppError::InvalidInput(x)) && x@ == m,
            UrlCheck::Normalized(u) => if trim_ws(dataset_pid@).len() == 0 {
                r matches Err(AppError::InvalidInput(x)) && x@ == "dataset PID is required"@
            } else {
                r matches Ok(d) && d.server_url@ == u && d.dataset_pid@ == trim_ws(dataset_pid@)
                    && !d.direct_upload_supported
            },
        },
{
    let normalized = match normalize_server_url(server_url) {
        Ok(u) => u,
        Err(e) => {
            return Err(e);
        },
    };
    let pid = trim(&chars_of(dataset_pid));
    if pid.len() == 0 {
        return Err(bad_request("dataset PID is required"));
    }
    Ok(
        DestinationConfigStored {
            server_url: normalized,
            dataset_pid: string_of(&pid),
            direct_upload_supported: false,
        },
    )
}

/// The answer to a destination check that failed before the server was
/// asked.
pub fn invalid_destination_result(
    kind: DestinationErrorKind,
    message: String,
    normalized_server_url: Option<String>,
) -> (r: DestinationValidationResult)
    ensures
        !r.ok,
        opt_view(r.normalized_server_url) == opt_view(normalized_server_url),
        r.dataset_title is None,
        r.dataset_id is None,
        r.upload_supported == Some(false),
        r.direct_upload_supported == Some(false),
        r.error_kind == Some(kind),
        opt_view(r.message) == Some(message@),
{
    DestinationValidationResult {
        ok: false,
        normalized_server_url,
        dataset_title: None,
        dataset_id: None,
        upload_supported: Some(false),
        direct_upload_supported: Some(false),
        error_kind: Some(kind),
        message: Some(message),
    }
}

/// The checks made before a destination test reaches the server: the URL
/// must normalize and the PID must not be empty. Gives the normalized URL
/// and trimmed PID, or the answer to return.
pub fn precheck_destination_test(server_url: &str, dataset_pid: &str) -> (r: Result<
    (String, String),
    DestinationValidationResult,
>)
    ensures
        match normalized_from(
            trimmed_server_url(server_url@),
            parsed_url(trimmed_server_url(server_url@)),
        ) {
            UrlCheck::Rejected(m) => r matches Err(v) && !v.ok && v.error_kind == Some(
                DestinationErrorKind::InvalidInput,
            ) && opt_view(v.message) == Some("invalid input: "@ + m) && v.normalized_server_url
                is None && v.dataset_title is None && v.dataset_id is None && v.upload_supported
                == Some(false) && v.direct_upload_supported == Some(false),
            UrlCheck::Normalized(u) => if trim_ws(dataset_pid@).len() == 0 {
                r matches Err(v) && !v.ok && v.error_kind == Some(
                    DestinationErrorKind::InvalidInput,
                ) && opt_view(v.message) == Some("Dataset PID is required."@) && opt_view(
                    v.normalized_server_url,
                ) == Some(u) && v.dataset_title is None && v.dataset_id is None
                    && v.upload_supported == Some(false) && v.direct_upload_supported == Some(
                    false,
                )
            } else {
                r matches Ok((a, b)) && a@ == u && b@ == trim_ws(dataset_pid@)
            },
        },
{
    let normalized = match normalize_server_url(server_url) {
        Ok(u) => u,
        Err(e) => {
            let text = e.message();
            return Err(
                invalid_destination_result(DestinationErrorKind::InvalidInput, text, None),
            );
        },
    };
    let pid = trim(&chars_of(dataset_pid));
    if pid.len() == 0 {
        let copy = owned(normalized.as_str());
        return Err(
            invalid_destination_result(
                DestinationErrorKind::InvalidInput,
                owned("Dataset PID is required."),
                Some(copy),
            ),
        );
    }
    Ok((normalized, string_of(&pid)))
}

/// The answer when no token was typed and none is stored.
pub fn missing_token_result(normalized_server_url: &str) -> (r: DestinationValidationResult)
    ensures
        !r.ok,
        opt_view(r.normalized_server_url) == Some(normalized_server_url@),
        r.error_kind == Some(DestinationErrorKind::InvalidInput),
        opt_view(r.message) == Some(
            "API token is required. Enter a token or save one for this destination."@,
        ),
        r.dataset_title is None,
        r.dataset_id is None,
        r.upload_supported == Some(false),
        r.direct_upload_supported == Some(false),
{
    invalid_destination_result(
        DestinationErrorKind::InvalidInput,
        owned("API token is required. Enter a token or save one for this destination."),
        Some(owned(normalized_server_url)),
    )
}

/// What is saved after a successful destination test: the URL the server
/// check settled on (or the normalized input), the PID, and whether direct
/// upload is supported; nothing after a failed test.
pub fn destination_after_test(
    result: &DestinationValidationResult,
    normalized_server_url: &str,
    dataset_pid: &str,
) -> (r: Option<DestinationConfigStored>)
    ensures
        r is Some <==> result.ok,
        r matches Some(d) ==> {
            &&& d.server_url@ == (match result.normalized_server_url {
                Some(u) => u@,
                None => normalized_server_url@,
            })
            &&& d.dataset_pid@ == dataset_pid@
            &&& d.direct_upload_supported == (match result.direct_upload_supported {
                Some(b) => b,
                None => false,
            })
        },
{
    if !result.ok {
        return None;
    }
    let server_url = match &result.normalized_server_url {
        Some(u) => owned(u.as_str()),
        None => owned(normalized_server_url),
    };
    let direct = match result.direct_upload_supported {
        Some(b) => b,
        None => false,
    };
    Some(
        DestinationConfigStored {
            server_url,
            dataset_pid: owned(dataset_pid),
            direct_upload_supported: direct,
        },
    )
}

// ---------------------------------------------------------------------------
// Analysis
// ---------------------------------------------------------------------------

/// Whether the user asked to keep the folder structure (off by default).
pub fn keep_structure_requested(input: &Option<AnalyzeBatchInput>) -> (r: bool)
    ensures
        r == (match input {
            Some(i) => i.keep_structure == Some(true),
            None => false,
        }),
{
    match input {
        Some(i) => match i.keep_structure {
            Some(b) => b,
            None => false,
        },
        None => false,
    }
}

/// The reason an analysis stops after the destination check: none when the
/// check passed, else its message or a generic one.
pub fn validation_failure(result: &DestinationValidationResult) -> (r: Option<String>)
    ensures
        r is None <==> result.ok,
        r matches Some(m) ==> m@ == (match result.message {
            Some(x) => x@,
            None => "Destination validation failed."@,
        }),
{
    if result.ok {
        None
    } else {
        match &result.message {
            Some(m) => Some(owned(m.as_str())),
            None => Some(owned("Destination validation failed.")),
        }
    }
}

/// A structure to keep exists: more than one source, or a folder source.
pub open spec fn has_structure(sources: Seq<SourceEntry>) -> bool {
    sources.len() > 1 || exists|i: int|
        0 <= i < sources.len() && #[trigger] sources[i].kind == SourceKind::Folder
}

/// Whether the selected sources have a structure worth keeping in a bundle.
pub fn can_keep_structure(sources: &[SourceEntry]) -> (r: bool)
    ensures
        r == has_structure(sources@),
{
    if sources.len() > 1 {
        return true;
    }
    let mut i: usize = 0;
    while i < sources.len()
        invariant
            i <= sources.len(),
            forall|k: int| 0 <= k < i ==> #[trigger] sources@[k].kind != SourceKind::Folder,
        decreases sources.len() - i,
    {
        if sources[i].kind == SourceKind::Folder {
            return true;
        }
        i = i + 1;
    }
    false
}

/// The analysis needs scanned items.
pub fn require_scanned_items(items: &[ScannedItem]) -> (r: Result<(), String>)
    ensures
        r is Ok <==> items.len() > 0,
        r matches Err(m) ==> m@ == "No files scanned. Run source scan before analysis."@,
{
    if items.len() == 0 {
        Err(owned("No files scanned. Run source scan before analysis."))
    } else {
        Ok(())
    }
}

/// Percentage of the bundle written, from 0 to 100: processed bytes times
/// 100 (saturating) divided by the total (at least 1).
pub open spec fn bundle_percent(processed_bytes: u64, total_bytes: u64) -> int {
    let scaled = if processed_bytes * 100 > u64::MAX {
        u64::MAX as int
    } else {
        processed_bytes * 100
    };
    let total = if total_bytes == 0 {
        1int
    } else {
        total_bytes as int
    };
    if scaled / total > 100 {
        100
    } else {
        scaled / total
    }
}

/// Percentage of the bundle written.
pub fn bundle_progress_percent(processed_bytes: u64, total_bytes: u64) -> (r: u64)
    ensures
        r == bundle_percent(processed_bytes, total_bytes),
        r <= 100,
{
    let total = if total_bytes == 0 {
        1
    } else {
        total_bytes
    };
    let scaled = match processed_bytes.checked_mul(100) {
        Some(v) => v,
        None => u64::MAX,
    };
    let p = scaled / total;
    if p > 100 {
        100
    } else {
        p
    }
}

/// A progress event is sent at 100 %, after a gain of at least two points
/// since the last one, or once 700 ms have passed since it.
pub open spec fn emit_progress(percent: u64, last_percent: u64, interval_elapsed: bool) -> bool {
    percent == 100 || percent >= (if last_percent + 2 > u64::MAX {
        u64::MAX as int
    } else {
        last_percent + 2
    }) || interval_elapsed
}

/// Whether to send a bundle progress event.
pub fn should_emit_bundle_progress(percent: u64, last_percent: u64, interval_elapsed: bool) -> (r:
    bool)
    ensures
        r == emit_progress(percent, last_percent, interval_elapsed),
{
    percent == 100 || percent >= last_percent.saturating_add(2) || interval_elapsed
}

/// The text of a bundle progress event:
/// `Preparing ZIP bundle: P% (done/total) - entry`, with `…` before the
/// first entry.
pub open spec fn bundle_progress_text(percent: u64, progress: BundleBuildProgress) -> Seq<char> {
    "Preparing ZIP bundle: "@ + decimal(percent as nat) + "% ("@ + decimal(
        progress.processed_files as nat,
    ) + "/"@ + decimal(progress.total_files as nat) + ") - "@ + match progress.current_entry {
        Some(e) => e@,
        None => "…"@,
    }
}

/// The text of a bundle progress event.
pub fn bundle_progress_message(percent: u64, progress: &BundleBuildProgress) -> (r: String)
    ensures
        r@ == bundle_progress_text(percent, *progress),
{
    let p = u64_to_string(percent);
    let done = u64_to_string(progress.processed_files);
    let total = u64_to_string(progress.total_files);
    let a = join4("Preparing ZIP bundle: ", p.as_str(), "% (", done.as_str());
    let b = join4(a.as_str(), "/", total.as_str(), ") - ");
    let r = match &progress.current_entry {
        Some(e) => join2(b.as_str(), e.as_str()),
        None => join2(b.as_str(), "…"),
    };
    assert(r@ =~= bundle_progress_text(percent, *progress));
    r
}

/// Everything a kept structure turns into: the bundle archive as the only
/// scanned item, its scan counters, a plan that uploads it, and its
/// decision.
pub struct BundleTransfer {
    pub item: ScannedItem,
    pub scan_summary: ScanSummary,
    pub analysis_summary: AnalysisSummary,
    pub decision: AnalysisItemDecision,
}

/// The one-file transfer of a bundle archive: it is the only item, ready
/// to upload, and the plan uploads exactly its size.
pub fn bundle_transfer(artifact: &BundleArtifact, item_id: String, modified_at: i64) -> (r:
    BundleTransfer)
    ensures
        r.item.item_id@ == item_id@,
        r.item.source_id@ == "bundle"@,
        r.item.local_path@ == artifact.archive_path@,
        r.item.relative_path@ == artifact.file_name@,
        r.item.file_name@ == artifact.file_name@,
        r.item.size_bytes == artifact.size_bytes,
        r.item.modified_at == Some(modified_at),
        r.item.checksum_sha256 is None,
        r.item.decision is None,
        r.item.state == ItemState::PendingScan,
        r.item.reason is None,
        r.item.uploaded_bytes == 0,
        r.item.attempts == 0,
        r.item.message is None,
        r.scan_summary == (ScanSummary {
            total_files: 1,
            total_bytes: artifact.size_bytes,
            unreadable_count: 0,
            ignored_symlink_count: 0,
            duplicate_path_count: 0,
        }),
        r.analysis_summary.total_files == 1,
        r.analysis_summary.total_bytes == artifact.size_bytes,
        r.analysis_summary.to_upload_files == 1,
        r.analysis_summary.to_upload_bytes == artifact.size_bytes,
        r.analysis_summary.skipped_existing_files == 0,
        r.analysis_summary.conflict_files == 0,
        r.analysis_summary.ignored_files == 0,
        r.analysis_summary.error_files == 0,
        r.analysis_summary.blocking_errors@.len() == 0,
        r.decision.item_id@ == item_id@,
        r.decision.local_path@ == artifact.archive_path@,
        r.decision.relative_path@ == artifact.file_name@,
        r.decision.file_name@ == artifact.file_name@,
        r.decision.size_bytes == artifact.size_bytes,
        r.decision.checksum_sha256 is None,
        r.decision.decision == AnalysisDecisionKind::Ready,
        opt_view(r.decision.reason) == Some(
            "keep structure enabled: uploading archive bundle"@,
        ),
{
    let item = ScannedItem {
        item_id: owned(item_id.as_str()),
        source_id: owned("bundle"),
        local_path: owned(artifact.archive_path.as_str()),
        relative_path: owned(artifact.file_name.as_str()),
        file_name: owned(artifact.file_name.as_str()),
        size_bytes: artifact.size_bytes,
        modified_at: Some(modified_at),
        checksum_sha256: None,
        decision: None,
        state: ItemState::PendingScan,
        reason: None,
        uploaded_bytes: 0,
        attempts: 0,
        message: None,
    };
    let scan_summary = ScanSummary {
        total_files: 1,
        total_bytes: artifact.size_bytes,
        unreadable_count: 0,
        ignored_symlink_count: 0,
        duplicate_path_count: 0,
    };
    let analysis_summary = AnalysisSummary {
        total_files: 1,
        total_bytes: artifact.size_bytes,
        to_upload_files: 1,
        to_upload_bytes: artifact.size_bytes,
        skipped_existing_files: 0,
        conflict_files: 0,
        ignored_files: 0,
        error_files: 0,
        blocking_errors: Vec::new(),
    };
    let decision = AnalysisItemDecision {
        item_id,
        local_path: owned(artifact.archive_path.as_str()),
        relative_path: owned(artifact.file_name.as_str()),
        file_name: owned(artifact.file_name.as_str()),
        size_bytes: artifact.size_bytes,
        checksum_sha256: None,
        decision: AnalysisDecisionKind::Ready,
        reason: Some(owned("keep structure enabled: uploading archive bundle")),
    };
    BundleTransfer { item, scan_summary, analysis_summary, decision }
}

/// The one-file transfer of a bundle archive, with a fresh identifier for
/// its item, modified now.
pub fn bundle_transfer_now(artifact: &BundleArtifact) -> (r: BundleTransfer)
    ensures
        is_v4_uuid_text(r.item.item_id@),
        r.decision.item_id@ == r.item.item_id@,
        r.item.modified_at is Some,
        r.item.source_id@ == "bundle"@,
        r.item.local_path@ == artifact.archive_path@,
        r.item.relative_path@ == artifact.file_name@,
        r.item.file_name@ == artifact.file_name@,
        r.item.size_bytes == artifact.size_bytes,
        r.item.state == ItemState::PendingScan,
        r.scan_summary == (ScanSummary {
            total_files: 1,
            total_bytes: artifact.size_bytes,
            unreadable_count: 0,
            ignored_symlink_count: 0,
            duplicate_path_count: 0,
        }),
        r.analysis_summary.total_files == 1,
        r.analysis_summary.to_upload_files == 1,
        r.analysis_summary.to_upload_bytes == artifact.size_bytes,
        r.analysis_summary.blocking_errors@.len() == 0,
        r.decision.decision == AnalysisDecisionKind::Ready,
        opt_view(r.decision.reason) == Some(
            "keep structure enabled: uploading archive bundle"@,
        ),
{
    let id = new_uuid();
    bundle_transfer(artifact, id, now_millis())
}

/// The closing message of an analysis that did not complete.
pub fn analysis_end_message(cancel_requested: bool) -> (r: &'static str)
    ensures
        r@ == (if cancel_requested {
            "Analysis cancelled by user"@
        } else {
            "Analysis failed"@
        }),
{
    if cancel_requested {
        "Analysis cancelled by user"
    } else {
        "Analysis failed"
    }
}

/// An analysis progress event.
pub fn analysis_progress(step: u32, total_steps: u32, message: &str) -> (r: AnalysisProgressEvent)
    ensures
        r.step == step,
        r.total_steps == total_steps,
        r.message@ == message@,
{
    AnalysisProgressEvent { step, total_steps, message: owned(message) }
}

} // verus!
