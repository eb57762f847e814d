use dataverse_heavy_uploader::domain::errors::AppError;
use dataverse_heavy_uploader::domain::models::{
    AnalysisDecisionKind, DestinationConfigStored, FinalReport, ItemState, ScannedItem,
    SessionState, SourceKind,
};
use dataverse_heavy_uploader::services::session_store::{
    bootstrap_destination, check_item_progress, history_entry_for, i64_from_u64, i64_to_string,
    interrupted_snapshot_message, is_new_source, is_orphan_bundle, item_state_for_decision,
    new_source_entry, recovery_state, restored_snapshot_message, restores_to_paused,
    source_kind_for, u64_from_i64, upload_candidates, SessionStore, session_id_on_open,
    state_on_open, new_session_id,
};

fn report() -> FinalReport {
    FinalReport {
        session_id: "s-1".to_string(),
        started_at: Some(10),
        finished_at: Some(20),
        duration_seconds: Some(0),
        total_files: 3,
        uploaded_files: 2,
        skipped_files: 0,
        conflict_files: 0,
        error_files: 1,
        cancelled_files: 0,
        total_bytes: 99,
        uploaded_bytes: 50,
        entries: vec![],
    }
}

#[test]
fn store_keeps_its_path() {
    let store = SessionStore::new("/tmp/state.sqlite".to_string());
    assert_eq!(store.db_path(), "/tmp/state.sqlite");
}

#[test]
fn startup_recovery_states() {
    assert_eq!(recovery_state(SessionState::Uploading), Some(SessionState::Interrupted));
    assert_eq!(recovery_state(SessionState::Cancelling), Some(SessionState::Interrupted));
    assert_eq!(recovery_state(SessionState::Analyzing), Some(SessionState::Draft));
    assert_eq!(recovery_state(SessionState::Paused), None);
    assert!(restores_to_paused(SessionState::Interrupted));
    assert!(!restores_to_paused(SessionState::Ready));
    assert_eq!(
        interrupted_snapshot_message(),
        "Application closed during transfer. Review status and resume when ready."
    );
    assert_eq!(restored_snapshot_message(), "Session restored. Press Resume to continue transfer.");
}

#[test]
fn decisions_set_item_states() {
    assert_eq!(item_state_for_decision(AnalysisDecisionKind::Ready), ItemState::Ready);
    assert_eq!(
        item_state_for_decision(AnalysisDecisionKind::SkipExisting),
        ItemState::SkippedExisting
    );
    assert_eq!(item_state_for_decision(AnalysisDecisionKind::Conflict), ItemState::Conflict);
}

#[test]
fn upload_candidates_are_ready_decisions_in_open_states() {
    let mk = |id: &str, decision: Option<AnalysisDecisionKind>, state: ItemState| ScannedItem {
        item_id: id.to_string(),
        source_id: "s".to_string(),
        local_path: id.to_string(),
        relative_path: id.to_string(),
        file_name: id.to_string(),
        size_bytes: 1,
        modified_at: None,
        checksum_sha256: None,
        decision,
        state,
        reason: None,
        uploaded_bytes: 0,
        attempts: 0,
        message: None,
    };
    let items = vec![
        mk("a", Some(AnalysisDecisionKind::Ready), ItemState::Ready),
        mk("b", Some(AnalysisDecisionKind::Ready), ItemState::Uploaded),
        mk("c", Some(AnalysisDecisionKind::Conflict), ItemState::Error),
        mk("d", Some(AnalysisDecisionKind::Ready), ItemState::Retrying),
        mk("e", None, ItemState::Ready),
    ];
    let ids: Vec<String> = upload_candidates(items).into_iter().map(|i| i.item_id).collect();
    assert_eq!(ids, vec!["a".to_string(), "d".to_string()]);
}

#[test]
fn history_row_falls_back_to_unknown_destination() {
    let h = history_entry_for(&report(), None, &None);
    assert_eq!(h.server_url, "unknown");
    assert_eq!(h.dataset_pid, "unknown");
    assert_eq!(h.state, SessionState::CompletedWithErrors);
    assert_eq!(h.total_files, 3);
    let dest = Some(DestinationConfigStored {
        server_url: "https://dv.org".to_string(),
        dataset_pid: "doi:1".to_string(),
        direct_upload_supported: false,
    });
    let h = history_entry_for(&report(), Some(SessionState::Completed), &dest);
    assert_eq!(h.server_url, "https://dv.org");
    assert_eq!(h.state, SessionState::Completed);
}

#[test]
fn bootstrap_destination_carries_token_flag() {
    let b = bootstrap_destination(
        Some(DestinationConfigStored {
            server_url: "u".to_string(),
            dataset_pid: "p".to_string(),
            direct_upload_supported: true,
        }),
        true,
    )
    .expect("destination");
    assert!(b.has_token);
    assert_eq!(b.server_url, "u");
    assert!(bootstrap_destination(None, true).is_none());
}

#[test]
fn sources_kinds_and_duplicates() {
    assert_eq!(source_kind_for(true, false), Some(SourceKind::Folder));
    assert_eq!(source_kind_for(false, true), Some(SourceKind::File));
    assert_eq!(source_kind_for(false, false), None);
    let existing = vec!["/a".to_string(), "/b".to_string()];
    assert!(!is_new_source(&existing, "/b"));
    assert!(is_new_source(&existing, "/c"));
    let e = new_source_entry("/c", SourceKind::File, false);
    assert_eq!(e.path, "/c");
    assert_eq!(e.id.len(), 36);
    assert!(e.added_at > 0);
    assert!(!e.recursive);
}

#[test]
fn item_progress_checks() {
    match check_item_progress(None, "x-1", ItemState::Uploading) {
        Err(AppError::InvalidInput(m)) => assert_eq!(m, "item not found: x-1"),
        _ => panic!("missing item"),
    }
    assert!(check_item_progress(Some(ItemState::Ready), "x", ItemState::Uploading).is_ok());
    assert!(matches!(
        check_item_progress(Some(ItemState::Uploaded), "x", ItemState::Ready),
        Err(AppError::InvalidStateTransition(_))
    ));
}

#[test]
fn persisted_integers_are_range_checked() {
    assert_eq!(u64_from_i64(5).unwrap(), 5);
    match u64_from_i64(-3) {
        Err(AppError::Internal(m)) => {
            assert_eq!(m, "negative integer found in persistence layer: -3")
        }
        _ => panic!("negative refused"),
    }
    assert_eq!(i64_from_u64(7).unwrap(), 7);
    match i64_from_u64(u64::MAX) {
        Err(AppError::Internal(m)) => assert_eq!(m, "integer overflow while storing value"),
        _ => panic!("too large refused"),
    }
    assert_eq!(i64_to_string(i64::MIN), i64::MIN.to_string());
    assert_eq!(i64_to_string(0), "0");
}

#[test]
fn orphan_bundle_detection() {
    assert!(is_orphan_bundle(&Some("/tmp/b.zip".to_string()), false));
    assert!(!is_orphan_bundle(&Some("/tmp/b.zip".to_string()), true));
    assert!(!is_orphan_bundle(&None, false));
}

#[test]
fn fresh_store_opens_in_draft() {
    let step = state_on_open(None);
    assert_eq!(step.state, SessionState::Draft);
    assert!(step.write_state);
    assert!(!step.mark_snapshot_interrupted);
}

#[test]
fn store_opening_recovers_the_stored_state() {
    for stored in [SessionState::Uploading, SessionState::Cancelling] {
        let step = state_on_open(Some(stored));
        assert_eq!(step.state, SessionState::Interrupted);
        assert!(step.write_state && step.mark_snapshot_interrupted);
    }
    for stored in [SessionState::Scanning, SessionState::Analyzing] {
        let step = state_on_open(Some(stored));
        assert_eq!(step.state, SessionState::Draft);
        assert!(step.write_state && !step.mark_snapshot_interrupted);
    }
    for stored in [SessionState::Ready, SessionState::Paused, SessionState::Interrupted, SessionState::Completed] {
        let step = state_on_open(Some(stored));
        assert_eq!(step.state, stored);
        assert!(!step.write_state && !step.mark_snapshot_interrupted);
        // Opening again keeps what the first opening settled on.
        assert_eq!(state_on_open(Some(step.state)).state, step.state);
    }
}

fn is_v4_uuid(id: &str) -> bool {
    let c: Vec<char> = id.chars().collect();
    c.len() == 36
        && c.iter().enumerate().all(|(i, ch)| {
            if [8, 13, 18, 23].contains(&i) { *ch == '-' } else { ch.is_ascii_digit() || ('a'..='f').contains(ch) }
        })
        && c[14] == '4'
        && "89ab".contains(c[19])
}

#[test]
fn session_id_is_kept_or_made_fresh() {
    let (id, write) = session_id_on_open(Some("stored-id".to_string()));
    assert_eq!(id, "stored-id");
    assert!(!write);
    let (id, write) = session_id_on_open(None);
    assert!(write);
    assert!(is_v4_uuid(&id), "{id}");
    let other = new_session_id();
    assert!(is_v4_uuid(&other));
    assert_ne!(id, other);
}
