use dataverse_heavy_uploader::domain::errors::AppError;
use dataverse_heavy_uploader::text::path_extension_exec;
use dataverse_heavy_uploader::domain::models::{ItemState, SourceEntry, SourceKind};
use dataverse_heavy_uploader::services::scanner::{
    check_sources, file_source_name, normalize_relative, ScanState, ScannerService,
};

#[test]
fn components_are_joined_with_slash() {
    let parts = vec!["a".to_string(), "b c".to_string(), "d.txt".to_string()];
    assert_eq!(normalize_relative(&parts), "a/b c/d.txt");
    assert_eq!(normalize_relative(&[]), "");
    assert_eq!(normalize_relative(&["x".to_string()]), "x");
}

#[test]
fn no_sources_is_refused() {
    assert!(matches!(check_sources(&[]), Err(AppError::NoSources)));
    let one = SourceEntry {
        id: "s".to_string(),
        path: "/x".to_string(),
        kind: SourceKind::File,
        recursive: true,
        added_at: 0,
    };
    assert!(check_sources(&[one]).is_ok());
    let _ = ScannerService::new();
}

#[test]
fn file_source_names() {
    assert_eq!(file_source_name("/a/b.txt").unwrap(), "b.txt");
    match file_source_name("/") {
        Err(AppError::InvalidInput(m)) => assert_eq!(m, "invalid file name"),
        _ => panic!("root has no file name"),
    }
}

fn source(id: &str, path: &str) -> SourceEntry {
    SourceEntry {
        id: id.to_string(),
        path: path.to_string(),
        kind: SourceKind::Folder,
        recursive: true,
        added_at: 0,
    }
}

#[test]
fn scan_without_sources_is_refused() {
    assert!(matches!(ScanState::start(&[]), Err(AppError::NoSources)));
    let st = ScanState::start(&[source("s", "/x")]).expect("one source");
    let out = st.finish();
    assert!(out.items.is_empty());
    assert_eq!(out.summary.total_files, 0);
    assert_eq!(out.summary.total_bytes, 0);
}

#[test]
fn scan_state_counts_files_duplicates_and_skips() {
    let mut st = ScanState::start(&[source("src-0", "/other"), source("src-1", "/data")]).expect("sources");
    st.record_unreadable();
    st.record_symlink();
    assert!(!st.record_duplicate_if_seen("/data/a.txt"));
    st.push_new_file(1, "/data/a.txt", "sub/a.txt", 10, Some(5)).expect("named file");
    assert!(st.record_duplicate_if_seen("/data/a.txt"));
    st.push_new_file(0, "/data/b.bin", "b.bin", 32, None).expect("named file");
    let out = st.finish();
    assert_eq!(out.summary.total_files, 2);
    assert_eq!(out.summary.total_bytes, 42);
    assert_eq!(out.summary.unreadable_count, 1);
    assert_eq!(out.summary.ignored_symlink_count, 1);
    assert_eq!(out.summary.duplicate_path_count, 1);
    let a = &out.items[0];
    assert_eq!(a.file_name, "a.txt");
    assert_eq!(a.relative_path, "sub/a.txt");
    assert_eq!(a.local_path, "/data/a.txt");
    assert_eq!(a.source_id, "src-1");
    assert_eq!(a.state, ItemState::PendingScan);
    assert_eq!(a.modified_at, Some(5));
    assert_eq!(a.item_id.len(), 36);
    assert_ne!(out.items[0].item_id, out.items[1].item_id);
    let b = &out.items[1];
    assert_eq!(b.source_id, "src-0");
    for it in &out.items {
        assert_eq!(it.state, ItemState::PendingScan);
        assert!(it.decision.is_none());
        assert!(it.checksum_sha256.is_none());
        assert_eq!(it.uploaded_bytes, 0);
        assert_eq!(it.attempts, 0);
    }
}

#[test]
fn relative_path_without_name_is_refused() {
    let mut st = ScanState::start(&[source("s", "/data")]).expect("source");
    match st.push_new_file(0, "/data/x", "..", 1, None) {
        Err(AppError::InvalidInput(m)) => assert_eq!(m, "invalid file name"),
        _ => panic!("must be refused"),
    }
    let out = st.finish();
    assert!(out.items.is_empty());
    assert_eq!(out.summary.total_files, 0);
}

#[test]
fn path_extensions_follow_unix_rules() {
    assert_eq!(path_extension_exec("/a/b.tar.gz").as_deref(), Some("gz"));
    assert_eq!(path_extension_exec("/a/.hidden"), None);
    assert_eq!(path_extension_exec("/a/.hidden.txt").as_deref(), Some("txt"));
    assert_eq!(path_extension_exec("/a/noext"), None);
    assert_eq!(path_extension_exec("/a/trailing."), Some(String::new()));
    assert_eq!(path_extension_exec("/a/b.txt/"), Some("txt".to_string()));
}
