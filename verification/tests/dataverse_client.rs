use dataverse_heavy_uploader::domain::errors::AppError;
use dataverse_heavy_uploader::services::dataverse_client::guess_mime_type;
use dataverse_heavy_uploader::domain::models::{DestinationErrorKind, ItemState, ScannedItem};
use dataverse_heavy_uploader::services::dataverse_client::{
    add_file_url, after_direct_attempt, choose_upload_target, classic_upload_fields,
    dataset_payload_error_result, dataset_reply_result, dataset_title_from_fields,
    dataset_url, direct_init_status, direct_probe_url, directory_label, encode_query_value,
    file_listing_error, plan_multipart, probe_reply_result, recent_option_from_hit,
    recent_search_url, remote_file_from_entry, status_display, upload_urls_url, CitationField,
    DirectFollowUp, DirectUploadError, FileEntry, HttpReply, SearchHit, UploadTarget,
    lookup_step, recent_lookup_end_error, recent_options, LookupStep, SearchData,
    DEFAULT_PART_SIZE,
};

const PID: &str = "doi:10.9999/FK2/TEST";

#[test]
fn query_values_are_form_encoded() {
    assert_eq!(encode_query_value(PID), "doi%3A10.9999%2FFK2%2FTEST");
    assert_eq!(encode_query_value("a b*-._~é"), "a+b*-._%7E%C3%A9");
}

#[test]
fn api_urls_carry_the_encoded_pid() {
    assert_eq!(
        dataset_url("https://dv.org", PID),
        "https://dv.org/api/datasets/:persistentId/?persistentId=doi%3A10.9999%2FFK2%2FTEST"
    );
    assert_eq!(
        direct_probe_url("https://dv.org", "x"),
        "https://dv.org/api/datasets/:persistentId/uploadurls?persistentId=x&size=1"
    );
    assert_eq!(
        upload_urls_url("https://dv.org", "x", 1234),
        "https://dv.org/api/datasets/:persistentId/uploadurls?persistentId=x&size=1234"
    );
    assert_eq!(
        add_file_url("https://dv.org", "x"),
        "https://dv.org/api/datasets/:persistentId/add?persistentId=x"
    );
}

#[test]
fn recent_search_limit_is_clamped() {
    assert_eq!(
        recent_search_url("https://dv.org", 0, &None),
        "https://dv.org/api/search?q=*&type=dataset&sort=date&order=desc&per_page=1"
    );
    assert_eq!(
        recent_search_url("https://dv.org", 500, &Some("my root".to_string())),
        "https://dv.org/api/search?q=*&type=dataset&sort=date&order=desc&per_page=50&subtree=my+root"
    );
}

#[test]
fn status_is_printed_with_its_reason() {
    assert_eq!(status_display(404), "404 Not Found");
    assert_eq!(status_display(503), "503 Service Unavailable");
    assert_eq!(status_display(599), "599 <unknown status code>");
}

#[test]
fn auth_failure_is_reported() {
    let r = dataset_reply_result("https://dv.org", &HttpReply::Status(401)).expect("decided");
    assert!(!r.ok);
    assert_eq!(r.error_kind, Some(DestinationErrorKind::Auth));
    assert_eq!(
        r.message.as_deref(),
        Some("Authentication failed. Verify API token and permissions.")
    );
}

#[test]
fn missing_dataset_is_reported() {
    let r = dataset_reply_result("https://dv.org", &HttpReply::Status(404)).expect("decided");
    assert_eq!(r.error_kind, Some(DestinationErrorKind::DatasetNotFound));
    assert_eq!(r.normalized_server_url.as_deref(), Some("https://dv.org"));
}

#[test]
fn unexpected_status_and_network_failure_are_reported() {
    let r = dataset_reply_result("u", &HttpReply::Status(500)).expect("decided");
    assert_eq!(r.error_kind, Some(DestinationErrorKind::Unknown));
    assert_eq!(
        r.message.as_deref(),
        Some("Server returned unexpected status: 500 Internal Server Error")
    );
    let r = dataset_reply_result("u", &HttpReply::Failed("boom".to_string())).expect("decided");
    assert_eq!(r.error_kind, Some(DestinationErrorKind::Network));
    assert_eq!(r.message.as_deref(), Some("boom"));
    assert!(dataset_reply_result("u", &HttpReply::Status(200)).is_none());
}

#[test]
fn unreadable_dataset_payload_is_reported() {
    let r = dataset_payload_error_result("u", "eof");
    assert_eq!(r.message.as_deref(), Some("Cannot parse dataset response: eof"));
    assert_eq!(r.error_kind, Some(DestinationErrorKind::Unknown));
}

#[test]
fn probe_decides_direct_upload() {
    let ok = probe_reply_result("u", Some("T".to_string()), Some(123), &HttpReply::Status(200));
    assert!(ok.ok);
    assert_eq!(ok.direct_upload_supported, Some(true));
    assert_eq!(ok.dataset_id, Some(123));
    assert_eq!(ok.dataset_title.as_deref(), Some("T"));
    let fallback = probe_reply_result("u", None, None, &HttpReply::Status(404));
    assert!(fallback.ok);
    assert_eq!(fallback.direct_upload_supported, Some(false));
    let denied = probe_reply_result("u", None, None, &HttpReply::Status(403));
    assert!(!denied.ok);
    assert_eq!(denied.error_kind, Some(DestinationErrorKind::Permission));
}

#[test]
fn title_is_first_title_field() {
    let fields = vec![
        CitationField { field_type: Some("author".to_string()), value: Some("A".to_string()) },
        CitationField { field_type: Some("title".to_string()), value: None },
        CitationField { field_type: Some("title".to_string()), value: Some("Test Dataset".to_string()) },
    ];
    assert_eq!(dataset_title_from_fields(&fields).as_deref(), Some("Test Dataset"));
    assert_eq!(dataset_title_from_fields(&[]), None);
}

#[test]
fn listing_entry_becomes_remote_file() {
    let f = remote_file_from_entry(FileEntry {
        label: Some("a.txt".to_string()),
        directory_label: Some("sub/path".to_string()),
        filesize: Some(12),
        checksum_type: Some("MD5".to_string()),
        checksum_value: Some("abc".to_string()),
    })
    .expect("labelled entry");
    assert_eq!(f.path_key, "sub/path/a.txt");
    assert_eq!(f.size_bytes, 12);
    let g = remote_file_from_entry(FileEntry {
        label: Some("b.txt".to_string()),
        directory_label: Some("  ".to_string()),
        filesize: None,
        checksum_type: None,
        checksum_value: None,
    })
    .expect("labelled entry");
    assert_eq!(g.path_key, "b.txt");
    assert_eq!(g.size_bytes, 0);
    assert!(remote_file_from_entry(FileEntry {
        label: None,
        directory_label: None,
        filesize: None,
        checksum_type: None,
        checksum_value: None,
    })
    .is_none());
}

#[test]
fn listing_failure_names_status_and_body() {
    match file_listing_error(403, "denied") {
        AppError::Network(m) => {
            assert_eq!(m, "Dataverse file listing failed (HTTP 403 Forbidden): denied")
        }
        _ => panic!("network error expected"),
    }
}

#[test]
fn search_hit_becomes_option() {
    let o = recent_option_from_hit(&SearchHit {
        global_id: Some(" doi:1 ".to_string()),
        name: None,
    })
    .expect("option");
    assert_eq!(o.persistent_id, "doi:1");
    assert_eq!(o.title, "doi:1");
    assert!(recent_option_from_hit(&SearchHit { global_id: Some("  ".to_string()), name: None })
        .is_none());
}

#[test]
fn directory_label_is_normalized_parent() {
    assert_eq!(directory_label("sub\\path\\a.txt").as_deref(), Some("sub/path"));
    assert_eq!(directory_label("/a.txt"), None);
}

#[test]
fn classic_fields_use_name_and_directory() {
    let item = ScannedItem {
        item_id: "item-1".to_string(),
        source_id: "source-1".to_string(),
        local_path: "/tmp/payload.txt".to_string(),
        relative_path: "dir/payload.txt".to_string(),
        file_name: "payload.txt".to_string(),
        size_bytes: 32,
        modified_at: None,
        checksum_sha256: None,
        decision: None,
        state: ItemState::Ready,
        reason: None,
        uploaded_bytes: 0,
        attempts: 0,
        message: None,
    };
    let f = classic_upload_fields(&item);
    assert_eq!(f.file_name, "payload.txt");
    assert_eq!(f.directory_label.as_deref(), Some("dir"));
    assert_eq!(f.mime_type, "text/plain");
    assert_eq!(f.storage_identifier, None);
}

#[test]
fn direct_init_statuses() {
    assert!(matches!(
        direct_init_status(404, "nope"),
        Some(DirectUploadError::Unsupported(m)) if m == "nope"
    ));
    assert!(matches!(
        direct_init_status(403, ""),
        Some(DirectUploadError::Failed(AppError::Network(m))) if m == "Direct upload permission denied"
    ));
    assert!(direct_init_status(200, "").is_none());
}

#[test]
fn upload_target_and_follow_up() {
    assert!(matches!(
        choose_upload_target(Some("u".to_string()), true),
        Ok(UploadTarget::Single(u)) if u == "u"
    ));
    assert!(matches!(choose_upload_target(None, true), Ok(UploadTarget::Multipart)));
    assert!(matches!(
        choose_upload_target(None, false),
        Err(DirectUploadError::Unsupported(m)) if m == "No upload URL returned by Dataverse"
    ));
    assert!(matches!(after_direct_attempt(Ok(())), DirectFollowUp::Done));
    assert!(matches!(
        after_direct_attempt(Err(DirectUploadError::Unsupported("x".to_string()))),
        DirectFollowUp::FallBackToClassic
    ));
}

#[test]
fn multipart_plan_orders_parts_and_cuts_the_last() {
    let urls = vec![
        ("3".to_string(), "u3".to_string()),
        ("1".to_string(), "u1".to_string()),
        ("x".to_string(), "bad".to_string()),
        ("2".to_string(), "u2".to_string()),
    ];
    let plan = plan_multipart(25, Some(10), urls);
    assert_eq!(plan.len(), 3);
    assert_eq!(plan[0].index, 1);
    assert_eq!(plan[0].url, "u1");
    assert_eq!((plan[0].offset, plan[0].length, plan[0].uploaded_before), (0, 10, 0));
    assert_eq!((plan[1].offset, plan[1].length, plan[1].uploaded_before), (10, 10, 10));
    assert_eq!((plan[2].offset, plan[2].length, plan[2].uploaded_before), (20, 5, 20));
}

#[test]
fn multipart_plan_defaults_part_size_and_skips_parts_past_the_end() {
    let urls = vec![("1".to_string(), "a".to_string()), ("2".to_string(), "b".to_string())];
    let plan = plan_multipart(100, None, urls);
    assert_eq!(plan.len(), 1);
    assert_eq!(plan[0].length, 100);
    assert!(DEFAULT_PART_SIZE > 100);
}

#[test]
fn mime_types_follow_the_extension() {
    assert_eq!(guess_mime_type("/data/photo.PNG"), "image/png");
    assert_eq!(guess_mime_type("/data/notes.txt"), "text/plain");
    assert_eq!(guess_mime_type("/data/README"), "application/octet-stream");
    assert_eq!(guess_mime_type("/data/.bashrc"), "application/octet-stream");
    assert_eq!(guess_mime_type("/data/archive.unknownext"), "application/octet-stream");
}

#[test]
fn recent_lookup_steps_follow_the_status() {
    assert!(matches!(lookup_step(404), LookupStep::TryNext));
    assert!(matches!(lookup_step(200), LookupStep::Parse));
    assert!(matches!(lookup_step(299), LookupStep::Parse));
    match lookup_step(500) {
        LookupStep::Fail(AppError::Network(m)) => {
            assert_eq!(m, "Dataverse recent dataset lookup failed (HTTP 500 Internal Server Error)")
        }
        _ => panic!("500 fails the lookup"),
    }
    match recent_lookup_end_error(Some(("https://dv.org".to_string(), "nope".to_string()))) {
        AppError::Network(m) => assert_eq!(
            m,
            "Dataverse recent dataset lookup failed (HTTP 404): base URL https://dv.org not found. nope"
        ),
        _ => panic!("network error"),
    }
    match recent_lookup_end_error(None) {
        AppError::Network(m) => {
            assert_eq!(m, "Dataverse recent dataset lookup failed for all server URL variants.")
        }
        _ => panic!("network error"),
    }
}

fn hit(id: Option<&str>, name: Option<&str>) -> SearchHit {
    SearchHit { global_id: id.map(str::to_string), name: name.map(str::to_string) }
}

#[test]
fn recent_options_take_items_or_plain_data() {
    let hits = vec![hit(Some(" doi:1 "), Some(" One ")), hit(Some("  "), None), hit(None, Some("x")), hit(Some("doi:2"), None)];
    let opts = recent_options(&SearchData::WithItems(Some(hits.clone())));
    assert_eq!(opts.len(), 2);
    assert_eq!(opts[0].persistent_id, "doi:1");
    assert_eq!(opts[0].title, "One");
    assert_eq!(opts[1].persistent_id, "doi:2");
    assert_eq!(opts[1].title, "doi:2");
    assert_eq!(recent_options(&SearchData::Plain(Some(hits))).len(), 2);
    assert!(recent_options(&SearchData::WithItems(None)).is_empty());
    assert!(recent_options(&SearchData::Plain(None)).is_empty());
    assert!(recent_options(&SearchData::Missing).is_empty());
}
