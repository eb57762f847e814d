use dataverse_heavy_uploader::domain::errors::AppError;
use dataverse_heavy_uploader::domain::models::{
    AnalysisDecisionKind, AnalyzeBatchInput, DestinationErrorKind, DestinationValidationResult,
    ItemState, SessionState, SourceEntry, SourceKind,
};
use dataverse_heavy_uploader::services::bundle_service::{BundleArtifact, BundleBuildProgress};
use dataverse_heavy_uploader::services::workflow::{
    analysis_end_message, analysis_progress, bundle_progress_message, bundle_progress_percent,
    bundle_transfer, can_keep_structure, check_destination_input, destination_after_test,
    ensure_preflight_not_cancelled, ensure_transfer_not_active, explicit_api_token,
    invalid_destination_result, is_preflight_state, keep_structure_requested,
    missing_token_result, precheck_destination_test, require_scanned_items,
    should_emit_bundle_progress, stored_api_token, validation_failure,
};

fn source(kind: SourceKind) -> SourceEntry {
    SourceEntry { id: "s".to_string(), path: "/p".to_string(), kind, recursive: true, added_at: 0 }
}

#[test]
fn active_transfer_blocks_changes() {
    for s in [SessionState::Uploading, SessionState::Paused, SessionState::Cancelling] {
        match ensure_transfer_not_active(s) {
            Err(AppError::InvalidStateTransition(m)) => {
                assert_eq!(m, "Operation not allowed while transfer is active or paused.")
            }
            _ => panic!("must be refused"),
        }
    }
    assert!(ensure_transfer_not_active(SessionState::Ready).is_ok());
    assert!(ensure_transfer_not_active(SessionState::Interrupted).is_ok());
}

#[test]
fn preflight_cancellation() {
    assert!(matches!(ensure_preflight_not_cancelled(true), Err(AppError::Cancelled)));
    assert!(ensure_preflight_not_cancelled(false).is_ok());
    assert!(is_preflight_state(SessionState::Scanning));
    assert!(is_preflight_state(SessionState::Analyzing));
    assert!(!is_preflight_state(SessionState::Uploading));
    assert_eq!(analysis_end_message(true), "Analysis cancelled by user");
    assert_eq!(analysis_end_message(false), "Analysis failed");
}

#[test]
fn tokens_typed_or_stored() {
    assert_eq!(explicit_api_token("  abc  ").as_deref(), Some("abc"));
    assert_eq!(explicit_api_token("   "), None);
    assert_eq!(stored_api_token(Some("t".to_string())).unwrap(), "t");
    assert!(matches!(stored_api_token(None), Err(AppError::MissingToken)));
}

#[test]
fn destination_input_is_normalized() {
    let d = check_destination_input("https://dv.org/dataverse/root/", " doi:1 ").unwrap();
    assert_eq!(d.server_url, "https://dv.org");
    assert_eq!(d.dataset_pid, "doi:1");
    assert!(!d.direct_upload_supported);
    match check_destination_input("https://dv.org", "  ") {
        Err(AppError::InvalidInput(m)) => assert_eq!(m, "dataset PID is required"),
        _ => panic!("empty pid"),
    }
    assert!(matches!(
        check_destination_input("ftp://dv.org", "doi:1"),
        Err(AppError::InvalidInput(_))
    ));
}

#[test]
fn destination_test_prechecks() {
    let (u, p) = precheck_destination_test("https://dv.org/", "doi:1").unwrap();
    assert_eq!((u.as_str(), p.as_str()), ("https://dv.org", "doi:1"));
    let r = precheck_destination_test("ftp://dv.org", "doi:1").unwrap_err();
    assert_eq!(r.message.as_deref(), Some("invalid input: server URL must use http or https"));
    assert_eq!(r.error_kind, Some(DestinationErrorKind::InvalidInput));
    assert_eq!(r.normalized_server_url, None);
    let r = precheck_destination_test("https://dv.org", "").unwrap_err();
    assert_eq!(r.message.as_deref(), Some("Dataset PID is required."));
    assert_eq!(r.normalized_server_url.as_deref(), Some("https://dv.org"));
    let m = missing_token_result("https://dv.org");
    assert_eq!(
        m.message.as_deref(),
        Some("API token is required. Enter a token or save one for this destination.")
    );
    assert_eq!(m.upload_supported, Some(false));
}

#[test]
fn invalid_destination_result_fields() {
    let r = invalid_destination_result(
        DestinationErrorKind::Network,
        "down".to_string(),
        Some("u".to_string()),
    );
    assert!(!r.ok);
    assert_eq!(r.dataset_title, None);
    assert_eq!(r.direct_upload_supported, Some(false));
    assert_eq!(r.error_kind, Some(DestinationErrorKind::Network));
}

fn validated(ok: bool, url: Option<&str>, direct: Option<bool>, message: Option<&str>) -> DestinationValidationResult {
    DestinationValidationResult {
        ok,
        normalized_server_url: url.map(|s| s.to_string()),
        dataset_title: None,
        dataset_id: None,
        upload_supported: Some(ok),
        direct_upload_supported: direct,
        error_kind: None,
        message: message.map(|s| s.to_string()),
    }
}

#[test]
fn destination_saved_after_successful_test() {
    let d = destination_after_test(&validated(true, Some("https://a"), Some(true), None), "https://b", "p")
        .expect("saved");
    assert_eq!(d.server_url, "https://a");
    assert!(d.direct_upload_supported);
    let d = destination_after_test(&validated(true, None, None, None), "https://b", "p").expect("saved");
    assert_eq!(d.server_url, "https://b");
    assert!(!d.direct_upload_supported);
    assert!(destination_after_test(&validated(false, None, None, None), "u", "p").is_none());
}

#[test]
fn analysis_decisions() {
    assert!(!keep_structure_requested(&None));
    assert!(!keep_structure_requested(&Some(AnalyzeBatchInput { keep_structure: None })));
    assert!(keep_structure_requested(&Some(AnalyzeBatchInput { keep_structure: Some(true) })));
    assert_eq!(validation_failure(&validated(true, None, None, None)), None);
    assert_eq!(
        validation_failure(&validated(false, None, None, None)).as_deref(),
        Some("Destination validation failed.")
    );
    assert_eq!(
        validation_failure(&validated(false, None, None, Some("denied"))).as_deref(),
        Some("denied")
    );
    assert!(!can_keep_structure(&[source(SourceKind::File)]));
    assert!(can_keep_structure(&[source(SourceKind::Folder)]));
    assert!(can_keep_structure(&[source(SourceKind::File), source(SourceKind::File)]));
    assert!(!can_keep_structure(&[]));
    match require_scanned_items(&[]) {
        Err(m) => assert_eq!(m, "No files scanned. Run source scan before analysis."),
        Ok(()) => panic!("no items"),
    }
}

#[test]
fn bundle_progress_reporting() {
    assert_eq!(bundle_progress_percent(50, 200), 25);
    assert_eq!(bundle_progress_percent(10, 0), 100);
    assert_eq!(bundle_progress_percent(u64::MAX, u64::MAX), 1);
    assert!(should_emit_bundle_progress(100, 100, false));
    assert!(should_emit_bundle_progress(12, 10, false));
    assert!(!should_emit_bundle_progress(11, 10, false));
    assert!(should_emit_bundle_progress(11, 10, true));
    let mut p = BundleBuildProgress::starting(3, 100);
    assert_eq!(bundle_progress_message(0, &p), "Preparing ZIP bundle: 0% (0/3) - …");
    p.set_entry("a.txt");
    p.record_file_done();
    assert_eq!(bundle_progress_message(40, &p), "Preparing ZIP bundle: 40% (1/3) - a.txt");
    let e = analysis_progress(3, 6, "Preparing ZIP bundle");
    assert_eq!((e.step, e.total_steps, e.message.as_str()), (3, 6, "Preparing ZIP bundle"));
}

#[test]
fn bundle_becomes_a_single_ready_upload() {
    let artifact = BundleArtifact {
        archive_path: "/tmp/upload_bundle_x.zip".to_string(),
        file_name: "upload_bundle_x.zip".to_string(),
        size_bytes: 777,
    };
    let t = bundle_transfer(&artifact, "id-1".to_string(), 5);
    assert_eq!(t.item.item_id, "id-1");
    assert_eq!(t.item.source_id, "bundle");
    assert_eq!(t.item.state, ItemState::PendingScan);
    assert_eq!(t.scan_summary.total_bytes, 777);
    assert_eq!(t.analysis_summary.to_upload_files, 1);
    assert_eq!(t.analysis_summary.to_upload_bytes, 777);
    assert!(t.analysis_summary.blocking_errors.is_empty());
    assert_eq!(t.decision.decision, AnalysisDecisionKind::Ready);
    assert_eq!(
        t.decision.reason.as_deref(),
        Some("keep structure enabled: uploading archive bundle")
    );
}

#[test]
fn bundle_transfer_now_gets_fresh_item() {
    let artifact = BundleArtifact {
        archive_path: "/tmp/b.zip".to_string(),
        file_name: "b.zip".to_string(),
        size_bytes: 9,
    };
    let t = dataverse_heavy_uploader::services::workflow::bundle_transfer_now(&artifact);
    assert_eq!(t.item.item_id.len(), 36);
    assert_eq!(t.decision.item_id, t.item.item_id);
    assert!(t.item.modified_at.is_some());
}
