use dataverse_heavy_uploader::domain::errors::{bad_request, internal, wrap_internal, AppError, IoErrorKind};
use dataverse_heavy_uploader::domain::models::{OperationResult, SessionState};

#[test]
fn operation_results() {
    let r = OperationResult::ok("Destination saved");
    assert!(r.ok);
    assert_eq!(r.message.as_deref(), Some("Destination saved"));
    let r = OperationResult::simple_ok();
    assert!(r.ok && r.message.is_none());
    let r = OperationResult::fail("nope");
    assert!(!r.ok);
    assert_eq!(r.message.as_deref(), Some("nope"));
}

#[test]
fn error_messages() {
    assert_eq!(bad_request("x").message(), "invalid input: x");
    assert_eq!(internal("y").message(), "internal error: y");
    assert_eq!(wrap_internal("z").message(), "internal error: z");
    assert_eq!(AppError::NoSources.message(), "nothing to scan: no sources configured");
    assert_eq!(AppError::Io(IoErrorKind::Other, "disk".to_string()).message(), "io error: disk");
    assert_eq!(AppError::Keyring("k".to_string()).message(), "keychain error: k");
}

#[test]
fn default_session_state_is_draft() {
    assert_eq!(SessionState::default(), SessionState::Draft);
}
