//! Domain model shared by the services: session and item states, destination
//! configuration, scanned items, analysis decisions and reports.
//!
//! Timestamps are Unix epoch milliseconds (UTC).
use vstd::prelude::*;

use crate::text::{owned, opt_view};

verus! {

/// Lifecycle of an upload session.
#[derive(Debug, Clone, Copy, PartialEq, Eq, Structural)]
pub enum SessionState {
    Draft,
    Scanning,
    Analyzing,
    Ready,
    Uploading,
    Paused,
    Cancelling,
    Completed,
    CompletedWithErrors,
    Failed,
    Interrupted,
}

impl Default for SessionState {
    fn default() -> (r: Self)
        ensures
            r == SessionState::Draft,
    {
        SessionState::Draft
    }
}

/// Lifecycle of one file of the batch.
#[derive(Debug, Clone, Copy, PartialEq, Eq, Structural)]
pub enum ItemState {
    PendingScan,
    Ignored,
    Ready,
    Uploading,
    Uploaded,
    SkippedExisting,
    Conflict,
    Retrying,
    Error,
    Cancelled,
}

/// A destination as entered by the user.
#[derive(Debug, Clone)]
pub struct DestinationConfigInput {
    pub server_url: String,
    pub dataset_pid: String,
    pub api_token: String,
}

/// A destination as saved.
#[derive(Debug, Clone)]
pub struct DestinationConfigStored {
    pub server_url: String,
    pub dataset_pid: String,
    pub direct_upload_supported: bool,
}

/// Why a destination check failed.
#[derive(Debug, Clone, Copy, PartialEq, Eq, Structural)]
pub enum DestinationErrorKind {
    Network,
    Auth,
    DatasetNotFound,
    Permission,
    InvalidInput,
    Unknown,
}

/// Answer to a destination check.
#[derive(Debug, Clone)]
pub struct DestinationValidationResult {
    pub ok: bool,
    pub normalized_server_url: Option<String>,
    pub dataset_title: Option<String>,
    pub dataset_id: Option<i64>,
    pub upload_supported: Option<bool>,
    pub direct_upload_supported: Option<bool>,
    pub error_kind: Option<DestinationErrorKind>,
    pub message: Option<String>,
}

/// Request for the recently changed datasets of a server.
#[derive(Debug, Clone)]
pub struct RecentDatasetsInput {
    pub server_url: String,
    pub api_token: String,
}

/// A dataset offered for selection.
#[derive(Debug, Clone)]
pub struct RecentDatasetOption {
    pub persistent_id: String,
    pub title: String,
}

/// Options of an analysis.
#[derive(Debug, Clone)]
pub struct AnalyzeBatchInput {
    pub keep_structure: Option<bool>,
}

impl Default for AnalyzeBatchInput {
    fn default() -> (r: Self)
        ensures
            r.keep_structure is None,
    {
        AnalyzeBatchInput { keep_structure: None }
    }
}

/// Progress of an analysis, step by step.
#[derive(Debug, Clone)]
pub struct AnalysisProgressEvent {
    pub step: u32,
    pub total_steps: u32,
    pub message: String,
}

/// A file or folder selected for upload (`added_at` in milliseconds since the epoch).
#[derive(Debug, Clone)]
pub struct SourceEntry {
    pub id: String,
    pub path: String,
    pub kind: SourceKind,
    pub recursive: bool,
    pub added_at: i64,
}

/// Kind of a selected source.
#[derive(Debug, Clone, Copy, PartialEq, Eq, Structural)]
pub enum SourceKind {
    File,
    Folder,
}

/// Counters of a scan.
#[derive(Debug, Clone, Copy, PartialEq, Eq, Structural)]
pub struct ScanSummary {
    pub total_files: u64,
    pub total_bytes: u64,
    pub unreadable_count: u64,
    pub ignored_symlink_count: u64,
    pub duplicate_path_count: u64,
}

impl Default for ScanSummary {
    fn default() -> (r: Self)
        ensures
            r.total_files == 0,
            r.total_bytes == 0,
            r.unreadable_count == 0,
            r.ignored_symlink_count == 0,
            r.duplicate_path_count == 0,
    {
        ScanSummary {
            total_files: 0,
            total_bytes: 0,
            unreadable_count: 0,
            ignored_symlink_count: 0,
            duplicate_path_count: 0,
        }
    }
}

/// A file found by a scan, with its analysis and transfer status (`modified_at` in milliseconds since the epoch).
#[derive(Debug, Clone)]
pub struct ScannedItem {
    pub item_id: String,
    pub source_id: String,
    pub local_path: String,
    pub relative_path: String,
    pub file_name: String,
    pub size_bytes: u64,
    pub modified_at: Option<i64>,
    pub checksum_sha256: Option<String>,
    pub decision: Option<AnalysisDecisionKind>,
    pub state: ItemState,
    pub reason: Option<String>,
    pub uploaded_bytes: u64,
    pub attempts: u32,
    pub message: Option<String>,
}

impl ScannedItem {
    /// Field-by-field equality of two items, strings compared by their text.
    pub open spec fn same_as(self, other: ScannedItem) -> bool {
        &&& self.item_id@ == other.item_id@
        &&& self.source_id@ == other.source_id@
        &&& self.local_path@ == other.local_path@
        &&& self.relative_path@ == other.relative_path@
        &&& self.file_name@ == other.file_name@
        &&& self.size_bytes == other.size_bytes
        &&& self.modified_at == other.modified_at
        &&& opt_view(self.checksum_sha256) == opt_view(other.checksum_sha256)
        &&& self.decision == other.decision
        &&& self.state == other.state
        &&& opt_view(self.reason) == opt_view(other.reason)
        &&& self.uploaded_bytes == other.uploaded_bytes
        &&& self.attempts == other.attempts
        &&& opt_view(self.message) == opt_view(other.message)
    }

    /// A copy of the item.
    pub fn duplicate(&self) -> (r: ScannedItem)
        ensures
            r.same_as(*self),
    {
        ScannedItem {
            item_id: self.item_id.clone(),
            source_id: self.source_id.clone(),
            local_path: self.local_path.clone(),
            relative_path: self.relative_path.clone(),
            file_name: self.file_name.clone(),
            size_bytes: self.size_bytes,
            modified_at: self.modified_at,
            checksum_sha256: crate::text::clone_opt(&self.checksum_sha256),
            decision: self.decision,
            state: self.state,
            reason: crate::text::clone_opt(&self.reason),
            uploaded_bytes: self.uploaded_bytes,
            attempts: self.attempts,
            message: crate::text::clone_opt(&self.message),
        }
    }
}

/// Outcome of the pre-transfer analysis for one file.
#[derive(Debug, Clone, Copy, PartialEq, Eq, Structural)]
pub enum AnalysisDecisionKind {
    Ready,
    SkipExisting,
    Conflict,
    Ignored,
    Error,
}

/// The analysis decision for one file.
#[derive(Debug, Clone)]
pub struct AnalysisItemDecision {
    pub item_id: String,
    pub local_path: String,
    pub relative_path: String,
    pub file_name: String,
    pub size_bytes: u64,
    pub checksum_sha256: Option<String>,
    pub decision: AnalysisDecisionKind,
    pub reason: Option<String>,
}

/// Counters of an analysis.
#[derive(Debug, Clone)]
pub struct AnalysisSummary {
    pub total_files: u64,
    pub total_bytes: u64,
    pub to_upload_files: u64,
    pub to_upload_bytes: u64,
    pub skipped_existing_files: u64,
    pub conflict_files: u64,
    pub ignored_files: u64,
    pub error_files: u64,
    pub blocking_errors: Vec<String>,
}

impl Default for AnalysisSummary {
    fn default() -> (r: Self)
        ensures
            r.total_files == 0,
            r.total_bytes == 0,
            r.to_upload_files == 0,
            r.to_upload_bytes == 0,
            r.skipped_existing_files == 0,
            r.conflict_files == 0,
            r.ignored_files == 0,
            r.error_files == 0,
            r.blocking_errors@.len() == 0,
    {
        AnalysisSummary {
            total_files: 0,
            total_bytes: 0,
            to_upload_files: 0,
            to_upload_bytes: 0,
            skipped_existing_files: 0,
            conflict_files: 0,
            ignored_files: 0,
            error_files: 0,
            blocking_errors: Vec::new(),
        }
    }
}

/// What a transfer will do (`created_at` in milliseconds since the epoch).
#[derive(Debug, Clone)]
pub struct TransferPlan {
    pub session_id: String,
    pub created_at: i64,
    pub summary: AnalysisSummary,
    pub items: Vec<AnalysisItemDecision>,
}

/// Progress of the file being transferred.
#[derive(Debug, Clone)]
pub struct FileTransferProgress {
    pub item_id: String,
    pub file_name: String,
    pub state: ItemState,
    pub uploaded_bytes: u64,
    pub total_bytes: u64,
    pub attempt: u32,
    pub message: Option<String>,
}

/// One file of a final report.
#[derive(Debug, Clone)]
pub struct FinalReportEntry {
    pub item_id: String,
    pub file_name: String,
    pub local_path: String,
    pub state: ItemState,
    pub bytes_uploaded: u64,
    pub total_bytes: u64,
    pub message: Option<String>,
}

/// Report of a finished run (times in milliseconds since the epoch).
#[derive(Debug, Clone)]
pub struct FinalReport {
    pub session_id: String,
    pub started_at: Option<i64>,
    pub finished_at: Option<i64>,
    pub duration_seconds: Option<u64>,
    pub total_files: u64,
    pub uploaded_files: u64,
    pub skipped_files: u64,
    pub conflict_files: u64,
    pub error_files: u64,
    pub cancelled_files: u64,
    pub total_bytes: u64,
    pub uploaded_bytes: u64,
    pub entries: Vec<FinalReportEntry>,
}

/// One past run (times in milliseconds since the epoch).
#[derive(Debug, Clone)]
pub struct HistoryEntry {
    pub session_id: String,
    pub dataset_pid: String,
    pub server_url: String,
    pub state: SessionState,
    pub started_at: Option<i64>,
    pub finished_at: Option<i64>,
    pub total_files: u64,
    pub uploaded_files: u64,
    pub error_files: u64,
    pub total_bytes: u64,
}

/// The saved destination as shown at start-up.
#[derive(Debug, Clone)]
pub struct DestinationBootstrap {
    pub server_url: String,
    pub dataset_pid: String,
    pub has_token: bool,
}

/// Outcome of a user command.
#[derive(Debug, Clone)]
pub struct OperationResult {
    pub ok: bool,
    pub message: Option<String>,
}

impl OperationResult {
    /// Success with a message.
    pub fn ok(message: &str) -> (r: Self)
        ensures
            r.ok,
            opt_view(r.message) == Some(message@),
    {
        OperationResult { ok: true, message: Some(owned(message)) }
    }

    /// Success without a message.
    pub fn simple_ok() -> (r: Self)
        ensures
            r.ok,
            r.message is None,
    {
        OperationResult { ok: true, message: None }
    }

    /// Failure with a message.
    pub fn fail(message: &str) -> (r: Self)
        ensures
            !r.ok,
            opt_view(r.message) == Some(message@),
    {
        OperationResult { ok: false, message: Some(owned(message)) }
    }
}

} // verus!
