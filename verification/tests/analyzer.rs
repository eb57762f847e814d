use dataverse_heavy_uploader::domain::models::{AnalysisDecisionKind, ItemState, ScannedItem};
use dataverse_heavy_uploader::services::analyzer::{
    local_checksum_requests, remote_checksum_sha256, AnalyzerService,
};
use dataverse_heavy_uploader::services::dataverse_client::RemoteDatasetFile;
use dataverse_heavy_uploader::services::hashing::{sha256_hex, Sha256Stream};

fn item(local: &str, relative: &str, name: &str, size: u64) -> ScannedItem {
    ScannedItem {
        item_id: "1".to_string(),
        source_id: "s".to_string(),
        local_path: local.to_string(),
        relative_path: relative.to_string(),
        file_name: name.to_string(),
        size_bytes: size,
        modified_at: Some(1_700_000_000_000),
        checksum_sha256: None,
        decision: None,
        state: ItemState::PendingScan,
        reason: None,
        uploaded_bytes: 0,
        attempts: 0,
        message: None,
    }
}

fn remote(path_key: &str, name: &str, size: u64, kind: Option<&str>, value: Option<&str>) -> RemoteDatasetFile {
    RemoteDatasetFile {
        path_key: path_key.to_string(),
        file_name: name.to_string(),
        size_bytes: size,
        checksum_type: kind.map(|s| s.to_string()),
        checksum_value: value.map(|s| s.to_string()),
    }
}

#[test]
fn detects_existing_by_path_and_size() {
    let analyzer = AnalyzerService::new();
    let scanned = vec![item("/tmp/a.txt", "data/a.txt", "a.txt", 42)];
    let remote = vec![remote("data/a.txt", "a.txt", 42, None, None)];

    let (summary, decisions) = analyzer.analyze(&scanned, &remote, &[None]);
    assert_eq!(summary.skipped_existing_files, 1);
    assert!(matches!(
        decisions.first().map(|item| &item.decision),
        Some(AnalysisDecisionKind::SkipExisting)
    ));
}

#[test]
fn flags_conflict_when_same_path_but_different_size() {
    let analyzer = AnalyzerService::new();
    let scanned = vec![item("/tmp/a.txt", "data/a.txt", "a.txt", 99)];
    let remote = vec![remote("data/a.txt", "a.txt", 42, None, None)];

    let (summary, decisions) = analyzer.analyze(&scanned, &remote, &[None]);
    assert_eq!(summary.conflict_files, 1);
    assert!(matches!(
        decisions.first().map(|item| &item.decision),
        Some(AnalysisDecisionKind::Conflict)
    ));
}

#[test]
fn marks_ready_when_no_remote_match_exists() {
    let analyzer = AnalyzerService::new();
    let scanned = vec![item("/tmp/new.bin", "incoming/new.bin", "new.bin", 2048)];

    let (summary, decisions) = analyzer.analyze(&scanned, &[], &[None]);
    assert_eq!(summary.to_upload_files, 1);
    assert_eq!(summary.to_upload_bytes, 2048);
    assert!(matches!(
        decisions.first().map(|item| &item.decision),
        Some(AnalysisDecisionKind::Ready)
    ));
}

// SHA-256 of the three bytes "abc".
const ABC_SHA256: &str = "ba7816bf8f01cfea414140de5dae2223b00361a396177a9cb410ff61f20015ad";

#[test]
fn escalates_to_checksum_for_ambiguous_name_and_size() {
    let analyzer = AnalyzerService::new();
    let payload: &[u8] = b"abc";
    // The contents are fed in two chunks, as a file read in pieces would be.
    let mut checksum = Sha256Stream::new();
    checksum.update(&payload[..1]);
    checksum.update(&payload[1..]);
    let expected_checksum = checksum.finish_hex();
    assert_eq!(expected_checksum, ABC_SHA256);
    assert_eq!(sha256_hex(payload), expected_checksum);

    let size = payload.len() as u64;
    let scanned = vec![item("/tmp/dvu_checksum.bin", "folder/a.txt", "a.txt", size)];
    let remote = vec![remote("other/a.txt", "a.txt", size, Some("SHA-256"), Some(&expected_checksum))];

    assert_eq!(local_checksum_requests(&scanned, &remote), vec![true]);
    let (summary, decisions) =
        analyzer.analyze(&scanned, &remote, &[Some(expected_checksum.clone())]);
    let decision = decisions.first().expect("decision");
    assert_eq!(summary.skipped_existing_files, 1);
    assert!(matches!(decision.decision, AnalysisDecisionKind::SkipExisting));
    assert_eq!(decision.checksum_sha256.as_deref(), Some(expected_checksum.as_str()));
    assert_eq!(
        decision.reason.as_deref(),
        Some("Duplicate confirmed by SHA-256 checksum (same name + size).")
    );
}

#[test]
fn checksum_comparison_ignores_case() {
    let analyzer = AnalyzerService::new();
    let scanned = vec![item("/tmp/x", "folder/a.txt", "a.txt", 3)];
    let upper = ABC_SHA256.to_uppercase();
    let remote = vec![remote("other/a.txt", "a.txt", 3, Some("sha256"), Some(&upper))];
    let (_, decisions) = analyzer.analyze(&scanned, &remote, &[Some(ABC_SHA256.to_string())]);
    assert_eq!(decisions[0].decision, AnalysisDecisionKind::SkipExisting);
}

#[test]
fn checksum_mismatch_is_a_conflict() {
    let analyzer = AnalyzerService::new();
    let scanned = vec![item("/tmp/x", "folder/a.txt", "a.txt", 3)];
    let remote = vec![remote("other/a.txt", "a.txt", 3, Some("SHA-256"), Some(ABC_SHA256))];
    let (summary, decisions) = analyzer.analyze(&scanned, &remote, &[Some("00".to_string())]);
    assert_eq!(summary.conflict_files, 1);
    assert_eq!(decisions[0].checksum_sha256.as_deref(), Some("00"));
    assert_eq!(
        decisions[0].reason.as_deref(),
        Some("Checksum mismatch for same name + size candidate.")
    );
}

#[test]
fn missing_local_checksum_is_a_conflict() {
    let analyzer = AnalyzerService::new();
    let scanned = vec![item("/tmp/x", "folder/a.txt", "a.txt", 3)];
    let remote = vec![remote("other/a.txt", "a.txt", 3, Some("SHA-256"), Some(ABC_SHA256))];
    let (_, decisions) = analyzer.analyze(&scanned, &remote, &[None]);
    assert_eq!(decisions[0].decision, AnalysisDecisionKind::Conflict);
    assert_eq!(decisions[0].checksum_sha256, None);
    assert_eq!(
        decisions[0].reason.as_deref(),
        Some("Cannot compute local checksum for ambiguous candidate.")
    );
}

#[test]
fn name_and_size_without_checksum_is_likely_duplicate() {
    let analyzer = AnalyzerService::new();
    let scanned = vec![item("/tmp/x", "folder/a.txt", "a.txt", 3)];
    let remote = vec![remote("other/a.txt", "a.txt", 3, Some("MD5"), Some("abc"))];
    assert_eq!(local_checksum_requests(&scanned, &remote), vec![false]);
    let (_, decisions) = analyzer.analyze(&scanned, &remote, &[None]);
    assert_eq!(decisions[0].decision, AnalysisDecisionKind::SkipExisting);
    assert_eq!(
        decisions[0].reason.as_deref(),
        Some("Likely duplicate detected by file name + size (different folder).")
    );
}

#[test]
fn several_name_and_size_candidates_need_review() {
    let analyzer = AnalyzerService::new();
    let scanned = vec![item("/tmp/x", "folder/a.txt", "a.txt", 3)];
    let remote = vec![
        remote("one/a.txt", "a.txt", 3, None, None),
        remote("two/a.txt", "a.txt", 3, None, None),
    ];
    let (_, decisions) = analyzer.analyze(&scanned, &remote, &[None]);
    assert_eq!(decisions[0].decision, AnalysisDecisionKind::Conflict);
    assert_eq!(
        decisions[0].reason.as_deref(),
        Some("Multiple remote candidates match name + size. Manual review recommended.")
    );
}

#[test]
fn path_match_ignores_backslashes_and_outer_slashes() {
    let analyzer = AnalyzerService::new();
    let scanned = vec![item("/tmp/a", "data\\a.txt", "a.txt", 5)];
    let remote = vec![remote("/data/a.txt/", "a.txt", 5, None, None)];
    let (_, decisions) = analyzer.analyze(&scanned, &remote, &[None]);
    assert_eq!(decisions[0].decision, AnalysisDecisionKind::SkipExisting);
}

#[test]
fn summary_partitions_items_and_reports_nothing_to_upload() {
    let analyzer = AnalyzerService::new();
    let scanned = vec![
        item("/tmp/a", "data/a.txt", "a.txt", 10),
        item("/tmp/b", "data/b.txt", "b.txt", 20),
    ];
    let remote = vec![
        remote("data/a.txt", "a.txt", 10, None, None),
        remote("data/b.txt", "b.txt", 21, None, None),
    ];
    let (summary, _) = analyzer.analyze(&scanned, &remote, &[None, None]);
    assert_eq!(summary.total_files, 2);
    assert_eq!(summary.total_bytes, 30);
    assert_eq!(summary.skipped_existing_files + summary.conflict_files + summary.to_upload_files, 2);
    assert_eq!(
        summary.blocking_errors,
        vec!["No files are eligible for upload after analysis.".to_string()]
    );
}

#[test]
fn sha256_checksum_is_read_from_matching_type_only() {
    let r = remote("a", "a", 1, Some("Sha256"), Some("ff"));
    assert_eq!(remote_checksum_sha256(&r).as_deref(), Some("ff"));
    let r = remote("a", "a", 1, Some("MD5"), Some("ff"));
    assert_eq!(remote_checksum_sha256(&r), None);
}
