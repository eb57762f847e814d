use dataverse_heavy_uploader::domain::errors::AppError;
use dataverse_heavy_uploader::services::dataverse_url::{
    extract_dataverse_alias, normalize_server_url, resolve_url, server_url_api_candidates,
};

#[test]
fn normalizes_dataverse_subtree_to_origin() {
    let normalized =
        normalize_server_url("https://example.org/dataverse/demo/").expect("must normalize");
    assert_eq!(normalized, "https://example.org");
}

#[test]
fn keeps_origin_and_adds_fallback_candidate() {
    let candidates = server_url_api_candidates("https://example.org/dataverse/demo");
    assert_eq!(candidates.len(), 2);
    assert_eq!(candidates[0], "https://example.org/dataverse/demo");
    assert_eq!(candidates[1], "https://example.org");
}

#[test]
fn extracts_alias_from_dataverse_path() {
    let alias = extract_dataverse_alias("https://example.org/dataverse/root");
    assert_eq!(alias.as_deref(), Some("root"));
}

#[test]
fn resolves_relative_upload_url_against_server_base() {
    let resolved = resolve_url("https://example.org", "/api/upload/part");
    assert_eq!(resolved, "https://example.org/api/upload/part");
}

#[test]
fn keeps_plain_server_url_after_trimming() {
    let normalized = normalize_server_url("  https://demo.dataverse.org/  ").expect("valid");
    assert_eq!(normalized, "https://demo.dataverse.org");
}

#[test]
fn keeps_port_when_reducing_to_origin() {
    let normalized =
        normalize_server_url("http://localhost:8080/dataverse/demo").expect("valid");
    assert_eq!(normalized, "http://localhost:8080");
}

#[test]
fn rejects_non_http_scheme() {
    match normalize_server_url("ftp://example.org") {
        Err(AppError::InvalidInput(m)) => assert_eq!(m, "server URL must use http or https"),
        _ => panic!("ftp must be refused"),
    }
}

#[test]
fn rejects_unparsable_url() {
    assert!(matches!(
        normalize_server_url("not a url"),
        Err(AppError::InvalidInput(_))
    ));
}

#[test]
fn root_url_has_single_candidate() {
    let candidates = server_url_api_candidates("https://example.org");
    assert_eq!(candidates, vec!["https://example.org".to_string()]);
}

#[test]
fn no_alias_outside_dataverse_path() {
    assert_eq!(extract_dataverse_alias("https://example.org/other/root"), None);
}

#[test]
fn absolute_upload_url_is_kept() {
    let resolved = resolve_url("https://example.org", "https://s3.example.com/part?x=1");
    assert_eq!(resolved, "https://s3.example.com/part?x=1");
}

#[test]
fn trailing_slash_of_server_is_dropped_before_joining() {
    let resolved = resolve_url("https://example.org//", "/api/upload");
    assert_eq!(resolved, "https://example.org/api/upload");
}
