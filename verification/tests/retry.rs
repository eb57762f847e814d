use dataverse_heavy_uploader::domain::errors::{AppError, IoErrorKind, RequestFailure};
use dataverse_heavy_uploader::services::retry::{
    backoff_millis, extract_http_code, is_retryable, next_backoff, MAX_JITTER_MILLIS,
};

#[test]
fn retryable_status_codes() {
    assert!(extract_http_code("http 503 error").is_some());
}

#[test]
fn backoff_increases() {
    let first = next_backoff(1);
    let second = next_backoff(3);
    assert!(second > first);
}

#[test]
fn retryable_network_5xx() {
    let err = AppError::Network("http 503 service unavailable".to_string());
    assert!(is_retryable(&err));
}

#[test]
fn non_retryable_network_4xx() {
    let err = AppError::Network("http 400 bad request".to_string());
    assert!(!is_retryable(&err));
}

#[test]
fn retryable_io_timeout() {
    let err = AppError::Io(IoErrorKind::TimedOut, "timeout".to_string());
    assert!(is_retryable(&err));
}

#[test]
fn extracts_first_three_digit_code() {
    assert_eq!(extract_http_code("http 503 error"), Some(503));
    assert_eq!(extract_http_code("status 70000 then 429 later"), Some(429));
    assert_eq!(extract_http_code("code +404"), Some(404));
    assert_eq!(extract_http_code("no code here"), None);
}

#[test]
fn backoff_doubles_and_caps_at_attempt_six() {
    assert_eq!(backoff_millis(0, 0), 500);
    assert_eq!(backoff_millis(1, 0), 1000);
    assert_eq!(backoff_millis(3, 7), 4007);
    assert_eq!(backoff_millis(6, 0), 32000);
    assert_eq!(backoff_millis(40, 300), 32300);
}

#[test]
fn next_backoff_stays_within_jitter() {
    for attempt in 0..10u32 {
        let base = 500u64 * 2u64.pow(attempt.min(6));
        let d = next_backoff(attempt);
        assert!(d >= base && d <= base + MAX_JITTER_MILLIS);
    }
}

#[test]
fn network_words_make_errors_retryable() {
    assert!(is_retryable(&AppError::Network("Connection refused".to_string())));
    assert!(is_retryable(&AppError::Network("request TIMEOUT".to_string())));
    assert!(is_retryable(&AppError::Network("http 429 too many".to_string())));
    assert!(is_retryable(&AppError::Network("http 408".to_string())));
    assert!(!is_retryable(&AppError::Network("http 404 not found".to_string())));
}

#[test]
fn request_failures_follow_status_and_transport() {
    let failure = |timeout: bool, connect: bool, status: Option<u16>| {
        AppError::Reqwest(RequestFailure {
            message: "failed".to_string(),
            is_timeout: timeout,
            is_connect: connect,
            status,
        })
    };
    assert!(is_retryable(&failure(true, false, None)));
    assert!(is_retryable(&failure(false, true, None)));
    assert!(is_retryable(&failure(false, false, Some(502))));
    assert!(!is_retryable(&failure(false, false, Some(403))));
    assert!(!is_retryable(&failure(false, false, None)));
}

#[test]
fn other_errors_are_not_retryable() {
    assert!(!is_retryable(&AppError::Io(IoErrorKind::NotFound, "gone".to_string())));
    assert!(!is_retryable(&AppError::Cancelled));
    assert!(!is_retryable(&AppError::InvalidInput("x".to_string())));
}
