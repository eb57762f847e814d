use dataverse_heavy_uploader::domain::errors::AppError;
use dataverse_heavy_uploader::domain::models::{
    AnalysisDecisionKind, ItemState, ScannedItem, SessionState,
};
use dataverse_heavy_uploader::services::transfer_engine::{
    actionable_candidates, after_failure, build_report, check_can_cancel, check_can_start,
    completion_message, final_session_state, first_attempt, pause_action, prepare_attempt,
    resume_action, snapshot_counts, upload_mode_message, FailureStep, PauseAction, ResumeAction,
    MAX_ATTEMPTS, failed_message, paused_message, retry_scheduled_message, uploaded_message,
    uploading_message, run_end, cancelled_item_note,
};

fn item(id: &str, state: ItemState, size: u64, uploaded: u64) -> ScannedItem {
    ScannedItem {
        item_id: id.to_string(),
        source_id: "s".to_string(),
        local_path: format!("/tmp/{id}"),
        relative_path: id.to_string(),
        file_name: id.to_string(),
        size_bytes: size,
        modified_at: None,
        checksum_sha256: None,
        decision: Some(AnalysisDecisionKind::Ready),
        state,
        reason: None,
        uploaded_bytes: uploaded,
        attempts: 0,
        message: None,
    }
}

#[test]
fn report_counts_states_and_bytes() {
    let items = vec![
        item("a", ItemState::Uploaded, 10, 10),
        item("b", ItemState::Error, 20, 5),
        item("c", ItemState::SkippedExisting, 30, 0),
        item("d", ItemState::Ignored, 1, 0),
    ];
    let r = build_report(items, "sess".to_string(), Some(1_000), 11_500, 99, false);
    assert_eq!(r.session_id, "sess");
    assert_eq!(r.total_files, 4);
    assert_eq!(r.uploaded_files, 1);
    assert_eq!(r.error_files, 1);
    assert_eq!(r.skipped_files, 2);
    assert_eq!(r.cancelled_files, 0);
    assert_eq!(r.total_bytes, 61);
    assert_eq!(r.uploaded_bytes, 15);
    assert_eq!(r.duration_seconds, Some(10));
    assert_eq!(r.finished_at, Some(11_500));
    assert_eq!(r.entries.len(), 4);
    assert_eq!(r.entries[1].state, ItemState::Error);
    assert_eq!(final_session_state(&r), SessionState::CompletedWithErrors);
}

#[test]
fn cancelled_run_reports_a_cancellation() {
    let items = vec![item("a", ItemState::Uploaded, 10, 10)];
    let r = build_report(items, "s".to_string(), None, 0, 7, true);
    assert_eq!(r.cancelled_files, 1);
    assert_eq!(r.duration_seconds, Some(7));
    assert_eq!(final_session_state(&r), SessionState::CompletedWithErrors);
}

#[test]
fn clean_run_completes_and_empty_run_fails() {
    let r = build_report(vec![item("a", ItemState::Uploaded, 1, 1)], "s".to_string(), None, 0, 0, false);
    assert_eq!(final_session_state(&r), SessionState::Completed);
    assert_eq!(completion_message(SessionState::Completed), "Transfer completed successfully");
    let r = build_report(vec![], "s".to_string(), None, 0, 0, false);
    assert_eq!(final_session_state(&r), SessionState::Failed);
    assert_eq!(
        completion_message(SessionState::Failed),
        "Transfer failed. No file was uploaded."
    );
}

#[test]
fn only_unfinished_items_are_actionable() {
    let items = vec![
        item("a", ItemState::Uploaded, 1, 1),
        item("b", ItemState::Ready, 1, 0),
        item("c", ItemState::Retrying, 1, 0),
    ];
    let ids: Vec<String> = actionable_candidates(items).into_iter().map(|i| i.item_id).collect();
    assert_eq!(ids, vec!["b".to_string(), "c".to_string()]);
}

#[test]
fn snapshot_counts_cover_the_upload_scope() {
    let mut skipped = item("x", ItemState::SkippedExisting, 100, 0);
    skipped.decision = Some(AnalysisDecisionKind::SkipExisting);
    let items = vec![
        item("a", ItemState::Uploaded, 10, 10),
        item("b", ItemState::Retrying, 20, 25),
        skipped,
    ];
    let c = snapshot_counts(&items);
    assert_eq!(c.total_bytes, 30);
    assert_eq!(c.uploaded_bytes, 30);
    assert_eq!(c.total_files, 2);
    assert_eq!(c.completed_files, 1);
    assert_eq!(c.retrying_files, 1);
    assert_eq!(c.error_files, 0);
}

#[test]
fn retries_stop_at_the_attempt_limit() {
    assert_eq!(after_failure(true, 1), FailureStep::Retry(2));
    assert_eq!(after_failure(true, MAX_ATTEMPTS), FailureStep::GiveUp);
    assert_eq!(after_failure(false, 1), FailureStep::GiveUp);
    assert_eq!(first_attempt(0), 1);
    assert_eq!(first_attempt(3), 4);
    assert_eq!(first_attempt(u32::MAX), u32::MAX);
}

#[test]
fn attempts_are_prepared() {
    let p = prepare_attempt(1, ItemState::Ready);
    assert_eq!((p.mark_retrying, p.backoff_attempt), (None, None));
    let p = prepare_attempt(1, ItemState::Error);
    assert_eq!(p.mark_retrying.as_deref(), Some("Resuming pending file"));
    let p = prepare_attempt(3, ItemState::Retrying);
    assert_eq!(p.mark_retrying.as_deref(), Some("Retry scheduled"));
    assert_eq!(p.backoff_attempt, Some(2));
}

#[test]
fn start_pause_resume_cancel_rules() {
    assert!(check_can_start(SessionState::Ready, false, true).is_ok());
    match check_can_start(SessionState::Draft, false, true) {
        Err(AppError::InvalidStateTransition(m)) => {
            assert_eq!(m, "cannot start transfer from state Draft")
        }
        _ => panic!("draft cannot start"),
    }
    assert!(matches!(check_can_start(SessionState::Paused, false, false), Err(AppError::MissingAnalysis)));
    assert!(matches!(check_can_start(SessionState::Ready, true, true), Err(AppError::InvalidStateTransition(_))));
    assert_eq!(pause_action(true, SessionState::Uploading).unwrap(), PauseAction::AfterCurrentStep);
    assert_eq!(pause_action(true, SessionState::Ready).unwrap(), PauseAction::Immediate);
    assert!(matches!(pause_action(false, SessionState::Uploading), Err(AppError::TransferNotRunning)));
    assert_eq!(resume_action(true, SessionState::Paused).unwrap(), ResumeAction::SignalWorker);
    assert_eq!(resume_action(false, SessionState::Interrupted).unwrap(), ResumeAction::StartWorker);
    assert!(resume_action(false, SessionState::Ready).is_err());
    assert!(check_can_cancel(true).is_ok());
    assert!(matches!(check_can_cancel(false), Err(AppError::TransferNotRunning)));
    assert_eq!(upload_mode_message(true), "Uploaded via direct mode");
}

#[test]
fn snapshot_messages() {
    assert_eq!(uploading_message("a.bin"), "Uploading a.bin");
    assert_eq!(uploaded_message("a.bin"), "Uploaded a.bin");
    assert_eq!(retry_scheduled_message(3, "a.bin"), "Retry 3 scheduled for a.bin");
    assert_eq!(
        failed_message("a.bin", &AppError::Network("http 400".to_string())),
        "Failed a.bin: network error: http 400"
    );
    assert_eq!(paused_message(), "Transfer paused");
}

#[test]
fn report_now_is_finished() {
    let r = dataverse_heavy_uploader::services::transfer_engine::build_report_now(
        vec![item("a", ItemState::Uploaded, 4, 4)],
        "s".to_string(),
        None,
        3,
        false,
    );
    assert!(r.finished_at.is_some());
    assert_eq!(r.duration_seconds, Some(3));
    assert_eq!(r.uploaded_files, 1);
}

#[test]
fn cancelled_run_ends_with_errors_whatever_the_report() {
    let r = build_report(vec![item("a", ItemState::Uploaded, 1, 1)], "s".to_string(), None, 0, 0, false);
    let end = run_end(true, &r);
    assert_eq!(end.state, SessionState::CompletedWithErrors);
    assert_eq!(end.message, "Transfer cancelled");
    let end = run_end(false, &r);
    assert_eq!(end.state, SessionState::Completed);
    assert_eq!(end.message, "Transfer completed successfully");
    let empty = build_report(vec![], "s".to_string(), None, 0, 0, false);
    let end = run_end(false, &empty);
    assert_eq!(end.state, SessionState::Failed);
    assert_eq!(end.message, "Transfer failed. No file was uploaded.");
    assert_eq!(cancelled_item_note(), "Cancelled by user");
}
