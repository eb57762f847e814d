use dataverse_heavy_uploader::domain::errors::AppError;
use dataverse_heavy_uploader::domain::models::SourceKind;
use dataverse_heavy_uploader::services::bundle_service::{
    bundle_file_name_exec, entry_label_exec, is_bundle_archive_name_exec, next_archive_file_name,
    numbered_name_exec, source_name, split_ext_exec, total_input_bytes, unique_archive_path,
    BundleBuildProgress, BundlePlan, BundleService,
};

fn chars(s: &str) -> Vec<char> {
    s.chars().collect()
}

fn text(v: &[char]) -> String {
    v.iter().collect()
}

#[test]
fn avoids_name_collisions_for_duplicate_root_files() {
    let mut plan = BundlePlan::new();
    plan.add_entry("/root/same.txt", "same.txt", 5);
    plan.add_entry("/root/extra/same.txt", "same.txt", 6);
    let files = plan.into_files();
    assert_eq!(files[0].archive_entry, "same.txt");
    assert_eq!(files[1].archive_entry, "same_2.txt");
}

#[test]
fn bundles_with_roots_and_file_at_zip_root() {
    let mut plan = BundlePlan::new();
    plan.add_folder_entry("/r/folder_a/sub/a.txt", "folder_a", "sub/a.txt", 1);
    plan.add_folder_entry("/r/folder_b/b.txt", "folder_b", "b.txt", 1);
    plan.add_entry("/r/loose.txt", "loose.txt", 1);
    let files = plan.into_files();
    let names: Vec<&str> = files.iter().map(|f| f.archive_entry.as_str()).collect();
    assert_eq!(names, vec!["folder_a/sub/a.txt", "folder_b/b.txt", "loose.txt"]);
    assert_eq!(files[2].file_path, "/r/loose.txt");
}

#[test]
fn unique_path_takes_first_free_number() {
    let mut used = vec!["a.txt".to_string(), "a_2.txt".to_string(), "a_4.txt".to_string()];
    assert_eq!(unique_archive_path("a.txt", &mut used), "a_3.txt");
    assert_eq!(unique_archive_path("a.txt", &mut used), "a_5.txt");
    assert_eq!(unique_archive_path("b", &mut used), "b");
    assert_eq!(unique_archive_path("b", &mut used), "b_2");
    assert_eq!(used.len(), 7);
}

#[test]
fn extension_split_rules() {
    let (b, e) = split_ext_exec(&chars("archive.tar.gz"));
    assert_eq!((text(&b), text(&e)), ("archive.tar".to_string(), "gz".to_string()));
    let (b, e) = split_ext_exec(&chars(".hidden"));
    assert_eq!((text(&b), text(&e)), (".hidden".to_string(), String::new()));
    let (b, e) = split_ext_exec(&chars("dir.v1/file"));
    assert_eq!((text(&b), text(&e)), ("dir.v1/file".to_string(), String::new()));
    assert_eq!(text(&numbered_name_exec(&chars("x"), &[], 12)), "x_12");
    assert_eq!(text(&numbered_name_exec(&chars("x"), &chars("bin"), 2)), "x_2.bin");
}

#[test]
fn trailing_dot_name_is_numbered_without_dot() {
    let mut used = vec!["a.".to_string()];
    assert_eq!(unique_archive_path("a.", &mut used), "a_2");
}

#[test]
fn source_names_and_their_errors() {
    assert_eq!(source_name(SourceKind::File, "/data/x.bin").unwrap(), "x.bin");
    assert_eq!(source_name(SourceKind::Folder, "/data/folder/").unwrap(), "folder");
    match source_name(SourceKind::Folder, "/") {
        Err(AppError::InvalidInput(m)) => assert_eq!(m, "invalid source folder name"),
        _ => panic!("root has no name"),
    }
    match source_name(SourceKind::File, "/data/..") {
        Err(AppError::InvalidInput(m)) => assert_eq!(m, "invalid source file name"),
        _ => panic!("a path ending in .. has no name"),
    }
}

#[test]
fn labels_are_final_names() {
    assert_eq!(entry_label_exec("folder_a/sub/a.txt"), "a.txt");
    assert_eq!(entry_label_exec("loose.txt"), "loose.txt");
    assert_eq!(entry_label_exec(".."), "..");
}

#[test]
fn archive_names_are_recognized_by_cleanup() {
    let name = bundle_file_name_exec("20240101_120000");
    assert_eq!(name, "upload_bundle_20240101_120000.zip");
    assert!(is_bundle_archive_name_exec(&name));
    assert!(!is_bundle_archive_name_exec("report.zip"));
    assert!(!is_bundle_archive_name_exec("upload_bundle_x.tar"));
    let fresh = next_archive_file_name();
    assert!(fresh.starts_with("upload_bundle_") && fresh.ends_with(".zip"));
    assert_eq!(fresh.len(), "upload_bundle_".len() + 15 + ".zip".len());
}

#[test]
fn archive_path_is_inside_temp_dir() {
    let svc = BundleService::new("/tmp/bundles".to_string());
    assert_eq!(svc.temp_dir(), "/tmp/bundles");
    assert_eq!(svc.archive_path("x.zip"), "/tmp/bundles/x.zip");
    let svc = BundleService::new("/tmp/bundles/".to_string());
    assert_eq!(svc.archive_path("x.zip"), "/tmp/bundles/x.zip");
}

#[test]
fn progress_counters_saturate() {
    let mut p = BundleBuildProgress::starting(2, 100);
    assert_eq!((p.processed_files, p.processed_bytes, p.current_entry.clone()), (0, 0, None));
    p.set_entry("a.txt");
    p.record_bytes(60);
    p.record_bytes(u64::MAX);
    p.record_file_done();
    let s = p.snapshot();
    assert_eq!(s.processed_bytes, u64::MAX);
    assert_eq!(s.processed_files, 1);
    assert_eq!(s.current_entry.as_deref(), Some("a.txt"));
    assert_eq!(s.total_files, 2);
}

#[test]
fn total_bytes_of_inputs() {
    let mut plan = BundlePlan::new();
    plan.add_entry("/a", "a", 3);
    plan.add_entry("/b", "b", 4);
    let files = plan.into_files();
    assert_eq!(total_input_bytes(&files), 7);
}

fn is_compact_stamp(stamp: &str) -> bool {
    let c: Vec<char> = stamp.chars().collect();
    if c.len() < 15 {
        return false;
    }
    let tail = &c[c.len() - 15..];
    let tail_ok = tail.iter().enumerate().all(|(i, ch)| if i == 8 { *ch == '_' } else { ch.is_ascii_digit() });
    let head = &c[..c.len() - 15];
    let head_ok = head.is_empty()
        || ((head[0] == '+' || head[0] == '-') && head[1..].iter().all(|ch| ch.is_ascii_digit()));
    tail_ok && head_ok
}

#[test]
fn fresh_archive_name_carries_a_time_stamp() {
    let fresh = next_archive_file_name();
    let stamp = &fresh["upload_bundle_".len()..fresh.len() - ".zip".len()];
    assert!(is_compact_stamp(stamp), "{fresh}");
    assert_eq!(fresh, bundle_file_name_exec(stamp));
}
