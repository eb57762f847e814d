use dataverse_heavy_uploader::domain::errors::AppError;
use dataverse_heavy_uploader::domain::models::{ItemState, SessionState};
use dataverse_heavy_uploader::domain::state_machine::{
    ensure_item_transition, ensure_session_transition,
};

#[test]
fn valid_session_transition() {
    assert!(ensure_session_transition(&SessionState::Ready, &SessionState::Uploading).is_ok());
}

#[test]
fn invalid_session_transition() {
    assert!(ensure_session_transition(&SessionState::Draft, &SessionState::Completed).is_err());
}

#[test]
fn valid_item_transition() {
    assert!(ensure_item_transition(&ItemState::Ready, &ItemState::Uploading).is_ok());
}

#[test]
fn invalid_item_transition() {
    assert!(ensure_item_transition(&ItemState::Uploaded, &ItemState::Uploading).is_err());
}

#[test]
fn same_session_state_is_always_allowed() {
    for s in [
        SessionState::Draft,
        SessionState::Scanning,
        SessionState::Analyzing,
        SessionState::Ready,
        SessionState::Uploading,
        SessionState::Paused,
        SessionState::Cancelling,
        SessionState::Completed,
        SessionState::CompletedWithErrors,
        SessionState::Failed,
        SessionState::Interrupted,
    ] {
        assert!(ensure_session_transition(&s, &s).is_ok());
    }
}

#[test]
fn refused_session_transition_names_both_states() {
    match ensure_session_transition(&SessionState::Draft, &SessionState::Completed) {
        Err(AppError::InvalidStateTransition(m)) => {
            assert_eq!(m, "cannot transition session from Draft to Completed")
        }
        _ => panic!("expected a refused transition"),
    }
}

#[test]
fn upload_starts_only_from_ready_or_paused() {
    assert!(ensure_session_transition(&SessionState::Paused, &SessionState::Uploading).is_ok());
    assert!(ensure_session_transition(&SessionState::Draft, &SessionState::Uploading).is_err());
    assert!(ensure_session_transition(&SessionState::Completed, &SessionState::Uploading).is_err());
}

#[test]
fn finished_session_reopens_to_ready() {
    assert!(ensure_session_transition(&SessionState::Completed, &SessionState::Ready).is_ok());
    assert!(ensure_session_transition(&SessionState::Failed, &SessionState::Ready).is_ok());
    assert!(ensure_session_transition(&SessionState::Completed, &SessionState::Draft).is_err());
    assert!(ensure_session_transition(&SessionState::Completed, &SessionState::Paused).is_err());
}

#[test]
fn final_item_states_are_absorbing() {
    assert!(ensure_item_transition(&ItemState::Uploaded, &ItemState::Error).is_err());
    assert!(ensure_item_transition(&ItemState::SkippedExisting, &ItemState::Ready).is_err());
    assert!(ensure_item_transition(&ItemState::Uploaded, &ItemState::Uploaded).is_ok());
}

#[test]
fn refused_item_transition_names_both_states() {
    match ensure_item_transition(&ItemState::Uploaded, &ItemState::Uploading) {
        Err(AppError::InvalidStateTransition(m)) => {
            assert_eq!(m, "cannot transition item from Uploaded to Uploading")
        }
        _ => panic!("expected a refused transition"),
    }
}
