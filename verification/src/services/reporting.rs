//! What goes into an exported report: the file name, and for the CSV form
//! the header and one record per entry.
//!
//! Serializing and writing the files is done by the caller.
use vstd::prelude::*;

use crate::domain::models::{FinalReport, FinalReportEntry, ItemState};
use crate::services::clock::{compact_utc_timestamp, is_compact_stamp};
use crate::text::{decimal, join2, join4, owned, path_join, path_join_exec, string_views, u64_to_string};

verus! {

/// The two export formats.
#[derive(Debug, Clone, Copy, PartialEq, Eq, Structural)]
pub enum ExportFormat {
    Json,
    Csv,
}

/// File extension of a format.
pub open spec fn format_extension(format: ExportFormat) -> Seq<char> {
    match format {
        ExportFormat::Json => "json"@,
        ExportFormat::Csv => "csv"@,
    }
}

impl ExportFormat {
    /// File extension of the format.
    pub fn extension(self) -> (r: &'static str)
        ensures
            r@ == format_extension(self),
    {
        match self {
            ExportFormat::Json => "json",
            ExportFormat::Csv => "csv",
        }
    }
}

/// Writes reports into one directory.
pub struct ReportingService {
    reports_dir: String,
}

/// Name of the report of session `session_id` written at time `stamp`.
pub open spec fn report_file_name(session_id: Seq<char>, stamp: Seq<char>, format: ExportFormat) -> Seq<char> {
    session_id + "_"@ + stamp + "_report."@ + format_extension(format)
}

impl ReportingService {
    /// The directory of reports.
    pub closed spec fn reports_dir_view(&self) -> Seq<char> {
        self.reports_dir@
    }

    /// A service writing into `reports_dir`.
    pub fn new(reports_dir: String) -> (r: Self)
        ensures
            r.reports_dir_view() == reports_dir@,
    {
        ReportingService { reports_dir }
    }

    /// The directory of reports.
    pub fn reports_dir(&self) -> (r: &str)
        ensures
            r@ == self.reports_dir_view(),
    {
        self.reports_dir.as_str()
    }

    /// Where the report of `report` in `format`, written at time `stamp`, is
    /// stored.
    pub fn output_path(&self, report: &FinalReport, stamp: &str, format: ExportFormat) -> (r: String)
        ensures
            r@ == path_join(
                self.reports_dir_view(),
                report_file_name(report.session_id@, stamp@, format),
            ),
    {
        let name = report_file_name_exec(report.session_id.as_str(), stamp, format);
        path_join_exec(self.reports_dir.as_str(), name.as_str())
    }

    /// Where the report is stored when it is exported now.
    pub fn next_output_path(&self, report: &FinalReport, format: ExportFormat) -> (r: String)
        ensures
            exists|stamp: Seq<char>|
                is_compact_stamp(stamp) && r@ == path_join(
                    self.reports_dir_view(),
                    report_file_name(report.session_id@, stamp, format),
                ),
    {
        let stamp = compact_utc_timestamp();
        self.output_path(report, stamp.as_str(), format)
    }
}

/// Name of a report file.
pub fn report_file_name_exec(session_id: &str, stamp: &str, format: ExportFormat) -> (r: String)
    ensures
        r@ == report_file_name(session_id@, stamp@, format),
{
    let head = join4(session_id, "_", stamp, "_report.");
    let r = join2(head.as_str(), format.extension());
    assert(r@ =~= report_file_name(session_id@, stamp@, format));
    r
}

/// The name under which an item state is written (its `snake_case` form).
pub open spec fn item_state_name(s: ItemState) -> Seq<char> {
    match s {
        ItemState::PendingScan => "pending_scan"@,
        ItemState::Ignored => "ignored"@,
        ItemState::Ready => "ready"@,
        ItemState::Uploading => "uploading"@,
        ItemState::Uploaded => "uploaded"@,
        ItemState::SkippedExisting => "skipped_existing"@,
        ItemState::Conflict => "conflict"@,
        ItemState::Retrying => "retrying"@,
        ItemState::Error => "error"@,
        ItemState::Cancelled => "cancelled"@,
    }
}

/// The `snake_case` name of an item state.
pub fn item_state_name_exec(s: ItemState) -> (r: &'static str)
    ensures
        r@ == item_state_name(s),
{
    match s {
        ItemState::PendingScan => "pending_scan",
        ItemState::Ignored => "ignored",
        ItemState::Ready => "ready",
        ItemState::Uploading => "uploading",
        ItemState::Uploaded => "uploaded",
        ItemState::SkippedExisting => "skipped_existing",
        ItemState::Conflict => "conflict",
        ItemState::Retrying => "retrying",
        ItemState::Error => "error",
        ItemState::Cancelled => "cancelled",
    }
}

/// Each item state is written under its own `snake_case` name, and no two
/// states share a name, so the written name tells the state back.
pub proof fn law_item_state_names(a: ItemState, b: ItemState)
    ensures
        item_state_name(ItemState::PendingScan) == "pending_scan"@,
        item_state_name(ItemState::Ignored) == "ignored"@,
        item_state_name(ItemState::Ready) == "ready"@,
        item_state_name(ItemState::Uploading) == "uploading"@,
        item_state_name(ItemState::Uploaded) == "uploaded"@,
        item_state_name(ItemState::SkippedExisting) == "skipped_existing"@,
        item_state_name(ItemState::Conflict) == "conflict"@,
        item_state_name(ItemState::Retrying) == "retrying"@,
        item_state_name(ItemState::Error) == "error"@,
        item_state_name(ItemState::Cancelled) == "cancelled"@,
        item_state_name(a) == item_state_name(b) ==> a == b,
{
    reveal_strlit("pending_scan");
    reveal_strlit("ignored");
    reveal_strlit("ready");
    reveal_strlit("uploading");
    reveal_strlit("uploaded");
    reveal_strlit("skipped_existing");
    reveal_strlit("conflict");
    reveal_strlit("retrying");
    reveal_strlit("error");
    reveal_strlit("cancelled");
    if item_state_name(a) == item_state_name(b) && a != b {
        let na = item_state_name(a);
        let nb = item_state_name(b);
        assert(na.len() == nb.len());
        assert(na[0] == nb[0]);
        assert(na[na.len() - 1] == nb[nb.len() - 1]);
        assert(na[2] == nb[2]);
    }
}

/// The header of the CSV form.
pub open spec fn csv_header_spec() -> Seq<Seq<char>> {
    seq![
        "item_id"@,
        "file_name"@,
        "local_path"@,
        "state"@,
        "bytes_uploaded"@,
        "total_bytes"@,
        "message"@,
    ]
}

/// The header of the CSV form.
pub fn csv_header() -> (r: Vec<String>)
    ensures
        string_views(r@) == csv_header_spec(),
{
    let mut r: Vec<String> = Vec::new();
    r.push(owned("item_id"));
    r.push(owned("file_name"));
    r.push(owned("local_path"));
    r.push(owned("state"));
    r.push(owned("bytes_uploaded"));
    r.push(owned("total_bytes"));
    r.push(owned("message"));
    assert(string_views(r@) =~= csv_header_spec());
    r
}

/// The CSV record of one report entry: identifier, file name, local path,
/// state, bytes uploaded, total bytes and message (empty when there is none).
pub open spec fn csv_record_spec(e: FinalReportEntry) -> Seq<Seq<char>> {
    seq![
        e.item_id@,
        e.file_name@,
        e.local_path@,
        item_state_name(e.state),
        decimal(e.bytes_uploaded as nat),
        decimal(e.total_bytes as nat),
        match e.message {
            Some(m) => m@,
            None => Seq::empty(),
        },
    ]
}

/// The CSV record of one report entry.
pub fn csv_record(e: &FinalReportEntry) -> (r: Vec<String>)
    ensures
        string_views(r@) == csv_record_spec(*e),
{
    let mut r: Vec<String> = Vec::new();
    r.push(owned(e.item_id.as_str()));
    r.push(owned(e.file_name.as_str()));
    r.push(owned(e.local_path.as_str()));
    r.push(owned(item_state_name_exec(e.state)));
    r.push(u64_to_string(e.bytes_uploaded));
    r.push(u64_to_string(e.total_bytes));
    match &e.message {
        Some(m) => r.push(owned(m.as_str())),
        None => r.push(String::new()),
    }
    assert(string_views(r@) =~= csv_record_spec(*e));
    r
}

/// The state column of a CSV record names the entry's own state: a failed
/// entry reads `error`, an uploaded one `uploaded`, and entries in different
/// states never share the column's text.
pub proof fn law_csv_state_column(e1: FinalReportEntry, e2: FinalReportEntry)
    ensures
        csv_record_spec(e1).len() == 7,
        csv_record_spec(e1)[0] == e1.item_id@,
        csv_record_spec(e1)[1] == e1.file_name@,
        csv_record_spec(e1)[2] == e1.local_path@,
        csv_record_spec(e1)[3] == item_state_name(e1.state),
        csv_record_spec(e1)[4] == decimal(e1.bytes_uploaded as nat),
        csv_record_spec(e1)[5] == decimal(e1.total_bytes as nat),
        csv_record_spec(e1)[6] == (match e1.message {
            Some(m) => m@,
            None => Seq::<char>::empty(),
        }),
        e1.state == ItemState::Error ==> csv_record_spec(e1)[3] == "error"@,
        e1.state == ItemState::Uploaded ==> csv_record_spec(e1)[3] == "uploaded"@,
        e1.state != e2.state ==> csv_record_spec(e1)[3] != csv_record_spec(e2)[3],
{
    law_item_state_names(e1.state, e2.state);
}

/// The CSV records of a report: the header, then one record per entry in
/// order.
pub fn csv_records(report: &FinalReport) -> (r: Vec<Vec<String>>)
    ensures
        r@.len() == report.entries@.len() + 1,
        string_views(r@[0]@) == csv_header_spec(),
        forall|i: int|
            0 <= i < report.entries@.len() ==> string_views(#[trigger] r@[i + 1]@)
                == csv_record_spec(report.entries@[i]),
{
    let mut r: Vec<Vec<String>> = Vec::new();
    r.push(csv_header());
    let mut i: usize = 0;
    while i < report.entries.len()
        invariant
            i <= report.entries.len(),
            r@.len() == i + 1,
            string_views(r@[0]@) == csv_header_spec(),
            forall|k: int|
                0 <= k < i ==> string_views(#[trigger] r@[k + 1]@) == csv_record_spec(
                    report.entries@[k],
                ),
        decreases report.entries.len() - i,
    {
        r.push(csv_record(&report.entries[i]));
        i = i + 1;
    }
    r
}

} // verus!
