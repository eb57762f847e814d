use dataverse_heavy_uploader::domain::models::{FinalReport, FinalReportEntry, ItemState};
use dataverse_heavy_uploader::services::reporting::{
    csv_header, csv_records, item_state_name_exec, report_file_name_exec, ExportFormat,
    ReportingService,
};

fn report() -> FinalReport {
    FinalReport {
        session_id: "session-1".to_string(),
        started_at: Some(1),
        finished_at: Some(2),
        duration_seconds: Some(42),
        total_files: 2,
        uploaded_files: 1,
        skipped_files: 0,
        conflict_files: 0,
        error_files: 1,
        cancelled_files: 0,
        total_bytes: 300,
        uploaded_bytes: 200,
        entries: vec![
            FinalReportEntry {
                item_id: "i-1".to_string(),
                file_name: "file.bin".to_string(),
                local_path: "/tmp/file.bin".to_string(),
                state: ItemState::Uploaded,
                bytes_uploaded: 200,
                total_bytes: 200,
                message: Some("ok".to_string()),
            },
            FinalReportEntry {
                item_id: "i-2".to_string(),
                file_name: "other.bin".to_string(),
                local_path: "/tmp/other.bin".to_string(),
                state: ItemState::SkippedExisting,
                bytes_uploaded: 0,
                total_bytes: 100,
                message: None,
            },
        ],
    }
}

#[test]
fn csv_rows_match_the_exported_layout() {
    let rows = csv_records(&report());
    assert_eq!(rows.len(), 3);
    assert_eq!(
        rows[0].join(","),
        "item_id,file_name,local_path,state,bytes_uploaded,total_bytes,message"
    );
    assert_eq!(rows[1].join(","), "i-1,file.bin,/tmp/file.bin,uploaded,200,200,ok");
    assert_eq!(rows[2].join(","), "i-2,other.bin,/tmp/other.bin,skipped_existing,0,100,");
    assert_eq!(csv_header().len(), 7);
}

#[test]
fn state_names_are_snake_case() {
    assert_eq!(item_state_name_exec(ItemState::PendingScan), "pending_scan");
    assert_eq!(item_state_name_exec(ItemState::Retrying), "retrying");
}

#[test]
fn report_files_are_named_after_session_and_time() {
    assert_eq!(
        report_file_name_exec("session-1", "20240101_000000", ExportFormat::Csv),
        "session-1_20240101_000000_report.csv"
    );
    assert_eq!(ExportFormat::Json.extension(), "json");
    let svc = ReportingService::new("/tmp/reports".to_string());
    assert_eq!(svc.reports_dir(), "/tmp/reports");
    assert_eq!(
        svc.output_path(&report(), "T", ExportFormat::Json),
        "/tmp/reports/session-1_T_report.json"
    );
}

fn is_compact_stamp(stamp: &str) -> bool {
    let c: Vec<char> = stamp.chars().collect();
    if c.len() < 15 {
        return false;
    }
    let tail = &c[c.len() - 15..];
    let tail_ok = tail.iter().enumerate().all(|(i, ch)| if i == 8 { *ch == '_' } else { ch.is_ascii_digit() });
    let head = &c[..c.len() - 15];
    let head_ok = head.is_empty()
        || ((head[0] == '+' || head[0] == '-') && head[1..].iter().all(|ch| ch.is_ascii_digit()));
    tail_ok && head_ok
}

#[test]
fn fresh_report_path_carries_a_time_stamp() {
    let svc = ReportingService::new("/tmp/reports".to_string());
    let path = svc.next_output_path(&report(), ExportFormat::Csv);
    let prefix = "/tmp/reports/session-1_";
    assert!(path.starts_with(prefix), "{path}");
    assert!(path.ends_with("_report.csv"), "{path}");
    let stamp = &path[prefix.len()..path.len() - "_report.csv".len()];
    assert!(is_compact_stamp(stamp), "{path}");
    assert_eq!(path, svc.output_path(&report(), stamp, ExportFormat::Csv));
}
