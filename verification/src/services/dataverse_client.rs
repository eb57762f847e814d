//! Dataverse API rules: request URLs, the interpretation of HTTP replies,
//! remote file inventory entries and the planning of uploads. The HTTP
//! exchanges themselves are made by the application.
use vstd::prelude::*;
use vstd::string::StringSliceAdditionalSpecFns;
use vstd::utf8::encode_utf8;

use crate::domain::errors::{bad_request, AppError};
use crate::domain::models::{
    DestinationErrorKind, DestinationValidationResult, RecentDatasetOption, ScannedItem,
};
use crate::services::analyzer::{normalize_relative, normalize_relative_exec};
use crate::text::{
    chars_of, clone_opt, decimal, decimal_exec, opt_view, owned, push_all, str_eq, string_of,
    path_extension, path_extension_exec, trim, trim_ws,
};

verus! {

/// One file of the remote dataset, as listed by the Dataverse API.
#[derive(Debug, Clone)]
pub struct RemoteDatasetFile {
    /// Directory label and file name joined with `/`.
    pub path_key: String,
    pub file_name: String,
    pub size_bytes: u64,
    pub checksum_type: Option<String>,
    pub checksum_value: Option<String>,
}

/// How a file reached the dataset.
#[derive(Debug, Clone, Copy, PartialEq, Eq, Structural)]
pub enum UploadModeUsed {
    Direct,
    Classic,
}

// ---------------------------------------------------------------------------
// Query values and request URLs
// ---------------------------------------------------------------------------

/// Bytes kept as they are by the `application/x-www-form-urlencoded` byte
/// serializer: ASCII alphanumerics and `*-._`.
pub open spec fn byte_unchanged(b: u8) -> bool {
    b == 0x2A || b == 0x2D || b == 0x2E || (0x30 <= b && b <= 0x39) || (0x41 <= b && b <= 0x5A)
        || b == 0x5F || (0x61 <= b && b <= 0x7A)
}

/// Upper-case hexadecimal digit of a value below 16.
pub open spec fn hex_upper(d: u8) -> char {
    if d < 10 {
        ((d + 48) as u8) as char
    } else {
        ((d + 55) as u8) as char
    }
}

/// Encoding of one byte: kept, `+` for a space, `%XX` (upper-case hex) otherwise.
pub open spec fn encode_byte(b: u8) -> Seq<char> {
    if byte_unchanged(b) {
        seq![b as char]
    } else if b == 0x20 {
        seq!['+']
    } else {
        seq!['%', hex_upper(b / 16), hex_upper(b % 16)]
    }
}

/// `application/x-www-form-urlencoded` serialization of bytes
/// (`form_urlencoded::byte_serialize`).
pub open spec fn form_encode(bytes: Seq<u8>) -> Seq<char>
    decreases bytes.len(),
{
    if bytes.len() == 0 {
        Seq::empty()
    } else {
        form_encode(bytes.drop_last()) + encode_byte(bytes.last())
    }
}

fn hex_upper_exec(d: u8) -> (c: char)
    requires
        d < 16,
    ensures
        c == hex_upper(d),
{
    if d < 10 {
        (d + 48) as char
    } else {
        (d + 55) as char
    }
}

/// Query-string encoding of a value (its UTF-8 bytes, form-urlencoded).
pub fn encode_query_value(value: &str) -> (r: String)
    ensures
        r@ == form_encode(encode_utf8(value@)),
{
    let bytes = value.as_bytes();
    let mut out: Vec<char> = Vec::new();
    let mut i: usize = 0;
    while i < bytes.len()
        invariant
            i <= bytes.len(),
            bytes@ == value.spec_bytes(),
            out@ == form_encode(bytes@.take(i as int)),
        decreases bytes.len() - i,
    {
        let b = bytes[i];
        assert(bytes@.take(i + 1).drop_last() =~= bytes@.take(i as int));
        let unchanged = b == 0x2A || b == 0x2D || b == 0x2E || (0x30 <= b && b <= 0x39) || (0x41
            <= b && b <= 0x5A) || b == 0x5F || (0x61 <= b && b <= 0x7A);
        let ghost before = out@;
        if unchanged {
            out.push(b as char);
            assert(out@ =~= before + seq![b as char]);
        } else if b == 0x20 {
            out.push('+');
            assert(out@ =~= before + seq!['+']);
        } else {
            out.push('%');
            out.push(hex_upper_exec(b / 16));
            out.push(hex_upper_exec(b % 16));
            assert(out@ =~= before + seq!['%', hex_upper(b / 16), hex_upper(b % 16)]);
        }
        i = i + 1;
    }
    assert(bytes@.take(bytes.len() as int) =~= bytes@);
    string_of(&out)
}

/// Builds `prefix + server + path + encode(pid) + suffix`.
fn api_url(server: &str, path: &str, pid: &str, suffix: &str) -> (r: String)
    ensures
        r@ == server@ + path@ + form_encode(encode_utf8(pid@)) + suffix@,
{
    let mut v = chars_of(server);
    push_all(&mut v, &chars_of(path));
    let enc = encode_query_value(pid);
    push_all(&mut v, &chars_of(enc.as_str()));
    push_all(&mut v, &chars_of(suffix));
    string_of(&v)
}

/// Dataset metadata request: `{server}/api/datasets/:persistentId/?persistentId={pid}`.
pub fn dataset_url(server_url: &str, dataset_pid: &str) -> (r: String)
    ensures
        r@ == server_url@ + "/api/datasets/:persistentId/?persistentId="@ + form_encode(encode_utf8(dataset_pid@)) + ""@,
{
    api_url(server_url, "/api/datasets/:persistentId/?persistentId=", dataset_pid, "")
}

/// Direct-upload probe: upload URLs for a one-byte file.
pub fn direct_probe_url(server_url: &str, dataset_pid: &str) -> (r: String)
    ensures
        r@ == server_url@ + "/api/datasets/:persistentId/uploadurls?persistentId="@ + form_encode(encode_utf8(dataset_pid@)) + "&size=1"@,
{
    api_url(
        server_url,
        "/api/datasets/:persistentId/uploadurls?persistentId=",
        dataset_pid,
        "&size=1",
    )
}

/// Upload URLs for a file of `size` bytes.
pub fn upload_urls_url(server_url: &str, dataset_pid: &str, size: u64) -> (r: String)
    ensures
        r@ == server_url@ + "/api/datasets/:persistentId/uploadurls?persistentId="@ + form_encode(encode_utf8(dataset_pid@)) + "&size="@ + decimal(size as nat),
{
    let base = api_url(
        server_url,
        "/api/datasets/:persistentId/uploadurls?persistentId=",
        dataset_pid,
        "&size=",
    );
    let mut v = chars_of(base.as_str());
    push_all(&mut v, &decimal_exec(size));
    string_of(&v)
}

/// Listing of the files of the latest dataset version.
pub fn dataset_files_url(server_url: &str, dataset_pid: &str) -> (r: String)
    ensures
        r@ == server_url@ + "/api/datasets/:persistentId/versions/:latest/files?persistentId="@
            + form_encode(encode_utf8(dataset_pid@)) + ""@,
{
    api_url(
        server_url,
        "/api/datasets/:persistentId/versions/:latest/files?persistentId=",
        dataset_pid,
        "",
    )
}

/// File registration (classic upload, or registration of a direct upload).
pub fn add_file_url(server_url: &str, dataset_pid: &str) -> (r: String)
    ensures
        r@ == server_url@ + "/api/datasets/:persistentId/add?persistentId="@ + form_encode(encode_utf8(dataset_pid@)) + ""@,
{
    api_url(server_url, "/api/datasets/:persistentId/add?persistentId=", dataset_pid, "")
}

/// Number of recent datasets asked for: at least 1, at most 50.
pub open spec fn recent_limit(limit: usize) -> nat {
    if limit < 1 {
        1
    } else if limit > 50 {
        50
    } else {
        limit as nat
    }
}

/// Search request for the most recent datasets, restricted to a collection
/// when an alias is given.
pub fn recent_search_url(base_url: &str, limit: usize, alias: &Option<String>) -> (r: String)
    ensures
        r@ == base_url@ + "/api/search?q=*&type=dataset&sort=date&order=desc&per_page="@
            + decimal(recent_limit(limit)) + match alias {
            Some(a) => "&subtree="@ + form_encode(encode_utf8(a@)),
            None => Seq::<char>::empty(),
        },
{
    let capped: usize = if limit < 1 {
        1
    } else if limit > 50 {
        50
    } else {
        limit
    };
    let mut v = chars_of(base_url);
    push_all(&mut v, &chars_of("/api/search?q=*&type=dataset&sort=date&order=desc&per_page="));
    push_all(&mut v, &decimal_exec(capped as u64));
    let ghost before = v@;
    match alias {
        Some(a) => {
            push_all(&mut v, &chars_of("&subtree="));
            let enc = encode_query_value(a.as_str());
            push_all(&mut v, &chars_of(enc.as_str()));
        },
        None => {
            assert(v@ =~= before + Seq::<char>::empty());
        },
    }
    string_of(&v)
}

// ---------------------------------------------------------------------------
// HTTP statuses
// ---------------------------------------------------------------------------

/// Name for the canonical reason phrase that the `http` crate knows for a
/// status code (`StatusCode::canonical_reason`), if any.
pub uninterp spec fn status_reason(code: u16) -> Option<Seq<char>>;

/// `StatusCode::from_u16(code)` followed by `canonical_reason`.
///
/// Claims: the reason phrase is `status_reason(code)`, a function of the code
/// alone.
#[verifier::external_body]
fn canonical_reason(code: u16) -> (r: Option<String>)
    requires
        100 <= code <= 999,
    ensures
        opt_view(r) == status_reason(code),
{
    match reqwest::StatusCode::from_u16(code) {
        Ok(status) => match status.canonical_reason() {
            Some(reason) => Some(reason.to_string()),
            None => None,
        },
        Err(_) => None,
    }
}

/// How a status is printed (`Display` of `StatusCode`): the code, a space,
/// and the reason phrase or `<unknown status code>`.
pub open spec fn status_text(code: u16) -> Seq<char> {
    decimal(code as nat) + " "@ + match status_reason(code) {
        Some(r) => r,
        None => "<unknown status code>"@,
    }
}

/// How a status is printed.
pub fn status_display(code: u16) -> (r: String)
    requires
        100 <= code <= 999,
    ensures
        r@ == status_text(code),
{
    let mut v = decimal_exec(code as u64);
    push_all(&mut v, &chars_of(" "));
    match canonical_reason(code) {
        Some(reason) => push_all(&mut v, &chars_of(reason.as_str())),
        None => push_all(&mut v, &chars_of("<unknown status code>")),
    }
    string_of(&v)
}

/// A 2xx status.
pub open spec fn is_success(code: u16) -> bool {
    200 <= code <= 299
}

/// Outcome of an HTTP request: the request failed (with the error text), or
/// the server answered with a status code.
#[derive(Debug, Clone)]
pub enum HttpReply {
    Failed(String),
    Status(u16),
}

/// A status code is a three-digit number.
pub open spec fn reply_valid(r: HttpReply) -> bool {
    r matches HttpReply::Status(c) ==> 100 <= c <= 999
}

// ---------------------------------------------------------------------------
// Destination validation
// ---------------------------------------------------------------------------

/// `r` has exactly the given fields.
pub open spec fn validation_is(
    r: DestinationValidationResult,
    ok: bool,
    normalized: Option<Seq<char>>,
    title: Option<Seq<char>>,
    id: Option<i64>,
    upload: Option<bool>,
    direct: Option<bool>,
    kind: Option<DestinationErrorKind>,
    message: Seq<char>,
) -> bool {
    &&& r.ok == ok
    &&& opt_view(r.normalized_server_url) == normalized
    &&& opt_view(r.dataset_title) == title
    &&& r.dataset_id == id
    &&& r.upload_supported == upload
    &&& r.direct_upload_supported == direct
    &&& r.error_kind == kind
    &&& opt_view(r.message) == Some(message)
}

fn validation(
    ok: bool,
    normalized: Option<String>,
    title: Option<String>,
    id: Option<i64>,
    upload: Option<bool>,
    direct: Option<bool>,
    kind: Option<DestinationErrorKind>,
    message: String,
) -> (r: DestinationValidationResult)
    ensures
        validation_is(
            r,
            ok,
            opt_view(normalized),
            opt_view(title),
            id,
            upload,
            direct,
            kind,
            message@,
        ),
{
    DestinationValidationResult {
        ok,
        normalized_server_url: normalized,
        dataset_title: title,
        dataset_id: id,
        upload_supported: upload,
        direct_upload_supported: direct,
        error_kind: kind,
        message: Some(message),
    }
}

/// Result for a server URL that could not be normalized.
pub fn invalid_url_result(err: &AppError) -> (r: DestinationValidationResult)
    ensures
        validation_is(
            r,
            false,
            None,
            None,
            None,
            None,
            None,
            Some(DestinationErrorKind::InvalidInput),
            crate::domain::errors::error_message(*err),
        ),
{
    validation(
        false,
        None,
        None,
        None,
        None,
        None,
        Some(DestinationErrorKind::InvalidInput),
        err.message(),
    )
}

/// What the reply to the dataset request decides, if anything: a failed
/// request is a network error, 401 and 403 an authentication error, 404 an
/// unknown dataset, any other non-2xx status an unexpected one. A 2xx reply
/// decides nothing yet (`None`).
pub open spec fn dataset_reply_outcome(
    normalized: Seq<char>,
    reply: HttpReply,
    r: Option<DestinationValidationResult>,
) -> bool {
    match reply {
        HttpReply::Failed(text) => r matches Some(v) && validation_is(
            v,
            false,
            Some(normalized),
            None,
            None,
            None,
            None,
            Some(DestinationErrorKind::Network),
            text@,
        ),
        HttpReply::Status(c) => if c == 401 || c == 403 {
            r matches Some(v) && validation_is(
                v,
                false,
                Some(normalized),
                None,
                None,
                Some(false),
                Some(false),
                Some(DestinationErrorKind::Auth),
                "Authentication failed. Verify API token and permissions."@,
            )
        } else if c == 404 {
            r matches Some(v) && validation_is(
                v,
                false,
                Some(normalized),
                None,
                None,
                Some(false),
                Some(false),
                Some(DestinationErrorKind::DatasetNotFound),
                "Dataset PID not found on target server."@,
            )
        } else if !is_success(c) {
            r matches Some(v) && validation_is(
                v,
                false,
                Some(normalized),
                None,
                None,
                Some(false),
                Some(false),
                Some(DestinationErrorKind::Unknown),
                "Server returned unexpected status: "@ + status_text(c),
            )
        } else {
            r is None
        },
    }
}

/// Interprets the reply to the dataset request of a destination check.
pub fn dataset_reply_result(normalized: &str, reply: &HttpReply) -> (r: Option<
    DestinationValidationResult,
>)
    requires
        reply_valid(*reply),
    ensures
        dataset_reply_outcome(normalized@, *reply, r),
{
    match reply {
        HttpReply::Failed(text) => Some(
            validation(
                false,
                Some(owned(normalized)),
                None,
                None,
                None,
                None,
                Some(DestinationErrorKind::Network),
                text.clone(),
            ),
        ),
        HttpReply::Status(c) => {
            let c = *c;
            if c == 401 || c == 403 {
                Some(
                    validation(
                        false,
                        Some(owned(normalized)),
                        None,
                        None,
                        Some(false),
                        Some(false),
                        Some(DestinationErrorKind::Auth),
                        owned("Authentication failed. Verify API token and permissions."),
                    ),
                )
            } else if c == 404 {
                Some(
                    validation(
                        false,
                        Some(owned(normalized)),
                        None,
                        None,
                        Some(false),
                        Some(false),
                        Some(DestinationErrorKind::DatasetNotFound),
                        owned("Dataset PID not found on target server."),
                    ),
                )
            } else if !(200 <= c && c <= 299) {
                let status = status_display(c);
                let mut m = chars_of("Server returned unexpected status: ");
                push_all(&mut m, &chars_of(status.as_str()));
                Some(
                    validation(
                        false,
                        Some(owned(normalized)),
                        None,
                        None,
                        Some(false),
                        Some(false),
                        Some(DestinationErrorKind::Unknown),
                        string_of(&m),
                    ),
                )
            } else {
                None
            }
        },
    }
}

/// Result when the dataset reply is not readable JSON.
pub fn dataset_payload_error_result(normalized: &str, error_text: &str) -> (r:
    DestinationValidationResult)
    ensures
        validation_is(
            r,
            false,
            Some(normalized@),
            None,
            None,
            Some(false),
            Some(false),
            Some(DestinationErrorKind::Unknown),
            "Cannot parse dataset response: "@ + error_text@,
        ),
{
    let mut m = chars_of("Cannot parse dataset response: ");
    push_all(&mut m, &chars_of(error_text));
    validation(
        false,
        Some(owned(normalized)),
        None,
        None,
        Some(false),
        Some(false),
        Some(DestinationErrorKind::Unknown),
        string_of(&m),
    )
}

/// Final result of a destination check, given the reply to the direct-upload
/// probe: 403 means the token cannot request uploads; a 2xx reply means
/// direct upload is available; anything else (a failed probe included) leaves
/// classic upload only.
pub open spec fn probe_outcome(
    normalized: Seq<char>,
    title: Option<Seq<char>>,
    id: Option<i64>,
    probe: HttpReply,
    r: DestinationValidationResult,
) -> bool {
    if probe matches HttpReply::Status(c) && c == 403 {
        validation_is(
            r,
            false,
            Some(normalized),
            title,
            id,
            Some(false),
            Some(false),
            Some(DestinationErrorKind::Permission),
            "Token can read dataset but cannot request upload permissions."@,
        )
    } else {
        validation_is(
            r,
            true,
            Some(normalized),
            title,
            id,
            Some(true),
            Some(probe matches HttpReply::Status(c) && is_success(c)),
            None,
            "Destination validated successfully."@,
        )
    }
}

/// Interprets the reply to the direct-upload probe and completes the check.
pub fn probe_reply_result(
    normalized: &str,
    title: Option<String>,
    id: Option<i64>,
    probe: &HttpReply,
) -> (r: DestinationValidationResult)
    ensures
        probe_outcome(normalized@, opt_view(title), id, *probe, r),
{
    let mut direct = false;
    match probe {
        HttpReply::Status(c) => {
            if 200 <= *c && *c <= 299 {
                direct = true;
            } else if *c == 403 {
                return validation(
                    false,
                    Some(owned(normalized)),
                    title,
                    id,
                    Some(false),
                    Some(false),
                    Some(DestinationErrorKind::Permission),
                    owned("Token can read dataset but cannot request upload permissions."),
                );
            }
        },
        HttpReply::Failed(_) => {},
    }
    validation(
        true,
        Some(owned(normalized)),
        title,
        id,
        Some(true),
        Some(direct),
        None,
        owned("Destination validated successfully."),
    )
}

/// A validation result reports success exactly when it carries no error kind.
pub proof fn law_validation_ok_iff_no_error(
    normalized: Seq<char>,
    reply: HttpReply,
    dataset_result: Option<DestinationValidationResult>,
    title: Option<Seq<char>>,
    id: Option<i64>,
    probe: HttpReply,
    final_result: DestinationValidationResult,
)
    requires
        dataset_reply_outcome(normalized, reply, dataset_result),
        probe_outcome(normalized, title, id, probe, final_result),
    ensures
        dataset_result matches Some(v) ==> !v.ok && v.error_kind is Some,
        final_result.ok <==> final_result.error_kind is None,
{
}

/// One field of the citation metadata block: its `typeName`, and its
/// `value` when that is a string.
#[derive(Debug, Clone)]
pub struct CitationField {
    pub field_type: Option<String>,
    pub value: Option<String>,
}

/// The field is a `title` with a string value.
pub open spec fn is_title_field(f: CitationField) -> bool {
    (f.field_type matches Some(t) && t@ == "title"@) && f.value is Some
}

/// Value of the first `title` field with a string value.
pub open spec fn first_title(fields: Seq<CitationField>) -> Option<Seq<char>>
    decreases fields.len(),
{
    if fields.len() == 0 {
        None
    } else if is_title_field(fields[0]) {
        opt_view(fields[0].value)
    } else {
        first_title(fields.drop_first())
    }
}

/// The dataset title among the citation fields.
pub fn dataset_title_from_fields(fields: &[CitationField]) -> (r: Option<String>)
    ensures
        opt_view(r) == first_title(fields@),
{
    let mut i: usize = 0;
    assert(fields@.skip(0) =~= fields@);
    while i < fields.len()
        invariant
            i <= fields.len(),
            first_title(fields@) == first_title(fields@.skip(i as int)),
        decreases fields.len() - i,
    {
        let f = &fields[i];
        assert(fields@.skip(i as int)[0] == fields@[i as int]);
        assert(fields@.skip(i as int).drop_first() =~= fields@.skip(i + 1));
        let is_title = match &f.field_type {
            Some(t) => str_eq(t.as_str(), "title"),
            None => false,
        };
        if is_title && f.value.is_some() {
            return clone_opt(&f.value);
        }
        i = i + 1;
    }
    None
}

// ---------------------------------------------------------------------------
// Remote inventory
// ---------------------------------------------------------------------------

/// The fields of one entry of the file listing: `label`,
/// `directoryLabel`, `dataFile.filesize`, and the checksum type and value.
#[derive(Debug, Clone)]
pub struct FileEntry {
    pub label: Option<String>,
    pub directory_label: Option<String>,
    pub filesize: Option<u64>,
    pub checksum_type: Option<String>,
    pub checksum_value: Option<String>,
}

/// Path key of a listed file: its label, under its normalized directory
/// label when that is not blank.
pub open spec fn entry_path_key(directory: Seq<char>, label: Seq<char>) -> Seq<char> {
    if trim_ws(directory).len() == 0 {
        label
    } else {
        normalize_relative(directory) + "/"@ + label
    }
}

/// The remote file described by a listing entry; entries without a label are
/// left out.
pub fn remote_file_from_entry(entry: FileEntry) -> (r: Option<RemoteDatasetFile>)
    ensures
        entry.label is None ==> r is None,
        entry.label matches Some(label) ==> r matches Some(f) && f.file_name@ == label@
            && f.path_key@ == entry_path_key(
            match entry.directory_label {
                Some(d) => d@,
                None => ""@,
            },
            label@,
        ) && f.size_bytes == match entry.filesize {
            Some(n) => n,
            None => 0,
        } && opt_view(f.checksum_type) == opt_view(entry.checksum_type) && opt_view(
            f.checksum_value,
        ) == opt_view(entry.checksum_value),
{
    match entry.label {
        None => None,
        Some(label) => {
            let directory = match &entry.directory_label {
                Some(d) => d.clone(),
                None => owned(""),
            };
            let blank = trim(&chars_of(directory.as_str())).len() == 0;
            let path_key = if blank {
                label.clone()
            } else {
                let mut v = normalize_relative_exec(directory.as_str());
                push_all(&mut v, &chars_of("/"));
                push_all(&mut v, &chars_of(label.as_str()));
                string_of(&v)
            };
            Some(
                RemoteDatasetFile {
                    path_key,
                    file_name: label,
                    size_bytes: match entry.filesize {
                        Some(n) => n,
                        None => 0,
                    },
                    checksum_type: entry.checksum_type,
                    checksum_value: entry.checksum_value,
                },
            )
        },
    }
}

fn network_error2(a: &str, b: &str) -> (r: AppError)
    ensures
        r matches AppError::Network(m) && m@ == a@ + b@,
{
    let mut v = chars_of(a);
    push_all(&mut v, &chars_of(b));
    AppError::Network(string_of(&v))
}

fn network_error4(a: &str, b: &str, c: &str, d: &str) -> (r: AppError)
    ensures
        r matches AppError::Network(m) && m@ == a@ + b@ + c@ + d@,
{
    let mut v = chars_of(a);
    push_all(&mut v, &chars_of(b));
    push_all(&mut v, &chars_of(c));
    push_all(&mut v, &chars_of(d));
    AppError::Network(string_of(&v))
}

/// Error for a file listing answered with a non-2xx status.
pub fn file_listing_error(code: u16, body: &str) -> (r: AppError)
    requires
        100 <= code <= 999,
    ensures
        r matches AppError::Network(m) && m@ == "Dataverse file listing failed (HTTP "@
            + status_text(code) + "): "@ + body@,
{
    let status = status_display(code);
    network_error4("Dataverse file listing failed (HTTP ", status.as_str(), "): ", body)
}

// ---------------------------------------------------------------------------
// Recent datasets
// ---------------------------------------------------------------------------

/// A search hit: its persistent id (`global_id` or `globalId`) and its name
/// (`name` or `title`), when those are strings.
#[derive(Debug, Clone)]
pub struct SearchHit {
    pub global_id: Option<String>,
    pub name: Option<String>,
}

/// The persistent id and title of the dataset option of a search hit: the
/// trimmed persistent id, which must not be blank, and the trimmed name (the
/// id when there is no name).
pub open spec fn hit_option(hit: SearchHit) -> Option<(Seq<char>, Seq<char>)> {
    match hit.global_id {
        None => None,
        Some(g) => if trim_ws(g@).len() == 0 {
            None
        } else {
            Some(
                (
                    trim_ws(g@),
                    match hit.name {
                        Some(n) => trim_ws(n@),
                        None => trim_ws(trim_ws(g@)),
                    },
                ),
            )
        },
    }
}

/// The dataset option of a search hit (see `hit_option`).
pub fn recent_option_from_hit(hit: &SearchHit) -> (r: Option<RecentDatasetOption>)
    ensures
        match hit_option(*hit) {
            None => r is None,
            Some((pid, title)) => r matches Some(o) && o.persistent_id@ == pid && o.title@ == title,
        },
{
    match &hit.global_id {
        None => None,
        Some(g) => {
            let pid = trim(&chars_of(g.as_str()));
            if pid.len() == 0 {
                return None;
            }
            let title = match &hit.name {
                Some(n) => trim(&chars_of(n.as_str())),
                None => trim(&pid),
            };
            Some(RecentDatasetOption { persistent_id: string_of(&pid), title: string_of(&title) })
        },
    }
}

/// Error for a search answered with a non-2xx status other than 404.
pub fn recent_lookup_status_error(code: u16) -> (r: AppError)
    requires
        100 <= code <= 999,
    ensures
        r matches AppError::Network(m) && m@ == "Dataverse recent dataset lookup failed (HTTP "@
            + status_text(code) + ")"@,
{
    let status = status_display(code);
    let mut v = chars_of("Dataverse recent dataset lookup failed (HTTP ");
    push_all(&mut v, &chars_of(status.as_str()));
    push_all(&mut v, &chars_of(")"));
    AppError::Network(string_of(&v))
}

/// Error when every API base answered 404: the last base tried and its body.
pub fn recent_lookup_not_found_error(base_url: &str, body: &str) -> (r: AppError)
    ensures
        r matches AppError::Network(m) && m@
            == "Dataverse recent dataset lookup failed (HTTP 404): base URL "@ + base_url@
            + " not found. "@ + body@,
{
    network_error4(
        "Dataverse recent dataset lookup failed (HTTP 404): base URL ",
        base_url,
        " not found. ",
        body,
    )
}

/// Error when no API base could be tried.
pub fn recent_lookup_exhausted_error() -> (r: AppError)
    ensures
        r matches AppError::Network(m) && m@
            == "Dataverse recent dataset lookup failed for all server URL variants."@,
{
    AppError::Network(owned("Dataverse recent dataset lookup failed for all server URL variants."))
}

/// What to do with the reply of one API base to the search.
pub enum LookupStep {
    /// 404: this base has no search; try the next one.
    TryNext,
    /// Another failure status: the lookup fails with this error.
    Fail(AppError),
    /// A success status: read the payload.
    Parse,
}

/// The step for a search reply with HTTP status `code`.
pub fn lookup_step(code: u16) -> (r: LookupStep)
    requires
        100 <= code <= 999,
    ensures
        code == 404 ==> r is TryNext,
        200 <= code <= 299 ==> r is Parse,
        code != 404 && !(200 <= code <= 299) ==> (r matches LookupStep::Fail(AppError::Network(m))
            && m@ == "Dataverse recent dataset lookup failed (HTTP "@ + status_text(code) + ")"@),
{
    if code == 404 {
        LookupStep::TryNext
    } else if 200 <= code && code <= 299 {
        LookupStep::Parse
    } else {
        LookupStep::Fail(recent_lookup_status_error(code))
    }
}

/// The error once every API base was tried without a reply to parse: the
/// last 404 (base and body) when there was one.
pub fn recent_lookup_end_error(last_404: Option<(String, String)>) -> (r: AppError)
    ensures
        match last_404 {
            Some((base, body)) => r matches AppError::Network(m) && m@
                == "Dataverse recent dataset lookup failed (HTTP 404): base URL "@ + base@
                + " not found. "@ + body@,
            None => r matches AppError::Network(m) && m@
                == "Dataverse recent dataset lookup failed for all server URL variants."@,
        },
{
    match last_404 {
        Some((base, body)) => recent_lookup_not_found_error(base.as_str(), body.as_str()),
        None => recent_lookup_exhausted_error(),
    }
}

/// The `data` member of a search reply, as far as the hits are concerned.
pub enum SearchData {
    /// The reply has no `data`.
    Missing,
    /// `data` has an `items` member: its entries when it is an array.
    WithItems(Option<Vec<SearchHit>>),
    /// `data` has no `items` member: its entries when it is an array itself.
    Plain(Option<Vec<SearchHit>>),
}

/// The hits of a search reply.
pub open spec fn chosen_hits(data: SearchData) -> Seq<SearchHit> {
    match data {
        SearchData::WithItems(Some(v)) => v@,
        SearchData::Plain(Some(v)) => v@,
        _ => Seq::empty(),
    }
}

/// The options of a list of hits, in order, dropping the hits that give none.
pub open spec fn hit_options(hits: Seq<SearchHit>) -> Seq<(Seq<char>, Seq<char>)>
    decreases hits.len(),
{
    if hits.len() == 0 {
        Seq::empty()
    } else {
        let p = hit_options(hits.drop_last());
        match hit_option(hits.last()) {
            Some(o) => p.push(o),
            None => p,
        }
    }
}

/// Persistent id and title of each option, in order.
pub open spec fn option_views(v: Seq<RecentDatasetOption>) -> Seq<(Seq<char>, Seq<char>)> {
    v.map_values(|o: RecentDatasetOption| (o.persistent_id@, o.title@))
}

/// The dataset options of a search reply.
pub fn recent_options(data: &SearchData) -> (r: Vec<RecentDatasetOption>)
    ensures
        option_views(r@) == hit_options(chosen_hits(*data)),
{
    let empty: Vec<SearchHit> = Vec::new();
    let hits = match data {
        SearchData::WithItems(Some(v)) => v,
        SearchData::Plain(Some(v)) => v,
        _ => &empty,
    };
    assert(hits@ == chosen_hits(*data));
    let mut out: Vec<RecentDatasetOption> = Vec::new();
    let mut i: usize = 0;
    while i < hits.len()
        invariant
            i <= hits.len(),
            option_views(out@) == hit_options(hits@.take(i as int)),
        decreases hits.len() - i,
    {
        let ghost before = out@;
        assert(hits@.take(i + 1).drop_last() =~= hits@.take(i as int));
        assert(hits@.take(i + 1).last() == hits@[i as int]);
        match recent_option_from_hit(&hits[i]) {
            Some(o) => {
                out.push(o);
                assert(option_views(out@) =~= option_views(before).push(
                    (out@.last().persistent_id@, out@.last().title@),
                ));
            },
            None => {},
        }
        i = i + 1;
    }
    assert(hits@.take(hits.len() as int) =~= hits@);
    out
}

/// Error when the search reply body cannot be read.
pub fn recent_lookup_body_error(error_text: &str) -> (r: AppError)
    ensures
        r matches AppError::Network(m) && m@
            == "Dataverse recent dataset lookup could not read response body: "@ + error_text@,
{
    network_error2("Dataverse recent dataset lookup could not read response body: ", error_text)
}

/// Error when the search reply is not readable JSON.
pub fn recent_lookup_payload_error(error_text: &str) -> (r: AppError)
    ensures
        r matches AppError::Network(m) && m@
            == "Dataverse recent dataset lookup returned an unreadable payload: "@ + error_text@,
{
    network_error2("Dataverse recent dataset lookup returned an unreadable payload: ", error_text)
}

// ---------------------------------------------------------------------------
// Uploads
// ---------------------------------------------------------------------------

/// Index of the last `/` of `s`, or -1.
pub open spec fn last_slash(s: Seq<char>) -> int
    decreases s.len(),
{
    if s.len() == 0 {
        -1
    } else if s.last() == '/' {
        s.len() - 1
    } else {
        last_slash(s.drop_last())
    }
}

/// Directory part of a relative path: the normalized path up to its last
/// `/`, none for a path without directory.
pub open spec fn directory_of(relative_path: Seq<char>) -> Option<Seq<char>> {
    let n = normalize_relative(relative_path);
    if last_slash(n) >= 0 {
        Some(n.take(last_slash(n)))
    } else {
        None
    }
}

/// Directory label under which a file is registered in the dataset.
pub fn directory_label(relative_path: &str) -> (r: Option<String>)
    ensures
        opt_view(r) == directory_of(relative_path@),
{
    let n = normalize_relative_exec(relative_path);
    assert(n@.take(n.len() as int) =~= n@);
    let mut j: usize = n.len();
    while j > 0 && n[j - 1] != '/'
        invariant
            j <= n.len(),
            last_slash(n@) == last_slash(n@.take(j as int)),
        decreases j,
    {
        assert(n@.take(j as int).drop_last() =~= n@.take(j - 1));
        j = j - 1;
    }
    assert(n@.take(n.len() as int) =~= n@) by {}
    if j == 0 {
        assert(n@.take(0).len() == 0);
        None
    } else {
        assert(n@.take(j as int).last() == '/');
        let d = crate::text::copy_range(&n, 0, j - 1);
        assert(d@ =~= n@.take(j - 1));
        Some(string_of(&d))
    }
}

/// Name for the MIME type that `mime_guess` knows first for a file
/// extension (`mime_guess::from_ext(ext).first_or_octet_stream()`, as its
/// essence string).
pub uninterp spec fn mime_for_extension(ext: Seq<char>) -> Seq<char>;

/// `mime_guess::from_ext(ext).first_or_octet_stream().essence_str()`.
///
/// Claims: the result is `mime_for_extension(ext)`, a function of the
/// extension alone (the crate looks it up, ignoring ASCII case, in a table
/// built into it); for the empty extension it is
/// `application/octet-stream`, since the crate guesses nothing for it.
#[verifier::external_body]
fn mime_type_for_extension(ext: &str) -> (r: String)
    ensures
        r@ == mime_for_extension(ext@),
        ext@.len() == 0 ==> r@ == "application/octet-stream"@,
{
    mime_guess::from_ext(ext).first_or_octet_stream().essence_str().to_string()
}

/// The MIME type guessed for a file from the extension of its path
/// (`mime_guess::from_path`): that of its extension, or that of no
/// extension.
pub open spec fn mime_for_path(path: Seq<char>) -> Seq<char> {
    mime_for_extension(
        match path_extension(path) {
            Some(e) => e,
            None => Seq::empty(),
        },
    )
}

/// The MIME type guessed for a file from its path.
pub fn guess_mime_type(path: &str) -> (r: String)
    ensures
        r@ == mime_for_path(path@),
{
    match path_extension_exec(path) {
        Some(e) => mime_type_for_extension(e.as_str()),
        None => {
            let empty = String::new();
            mime_type_for_extension(empty.as_str())
        },
    }
}

/// The metadata sent with a file: its name and directory label, and for a
/// direct upload the guessed MIME type, the storage identifier and the
/// SHA-256 checksum.
#[derive(Debug, Clone)]
pub struct RegistrationFields {
    pub file_name: String,
    pub directory_label: Option<String>,
    pub mime_type: String,
    pub storage_identifier: Option<String>,
    pub checksum_sha256: Option<String>,
}

/// Metadata of a classic upload of `item`.
pub fn classic_upload_fields(item: &ScannedItem) -> (r: RegistrationFields)
    ensures
        r.file_name@ == item.file_name@,
        opt_view(r.directory_label) == directory_of(item.relative_path@),
        r.mime_type@ == mime_for_path(item.local_path@),
        r.storage_identifier is None,
        r.checksum_sha256 is None,
{
    RegistrationFields {
        file_name: item.file_name.clone(),
        directory_label: directory_label(item.relative_path.as_str()),
        mime_type: guess_mime_type(item.local_path.as_str()),
        storage_identifier: None,
        checksum_sha256: None,
    }
}

/// Metadata registering a file sent by direct upload.
pub fn direct_registration_fields(
    item: &ScannedItem,
    storage_identifier: &str,
    checksum_sha256: &str,
) -> (r: RegistrationFields)
    ensures
        r.file_name@ == item.file_name@,
        opt_view(r.directory_label) == directory_of(item.relative_path@),
        r.mime_type@ == mime_for_path(item.local_path@),
        opt_view(r.storage_identifier) == Some(storage_identifier@),
        opt_view(r.checksum_sha256) == Some(checksum_sha256@),
{
    RegistrationFields {
        file_name: item.file_name.clone(),
        directory_label: directory_label(item.relative_path.as_str()),
        mime_type: guess_mime_type(item.local_path.as_str()),
        storage_identifier: Some(owned(storage_identifier)),
        checksum_sha256: Some(owned(checksum_sha256)),
    }
}

/// Why a direct upload did not happen.
#[derive(Debug, Clone)]
pub enum DirectUploadError {
    /// The server does not offer direct upload for this file (classic upload follows).
    Unsupported(String),
    /// The direct upload failed.
    Failed(AppError),
}

/// Interprets the status of the upload-URL request: 404 and 400 mean direct
/// upload is unsupported (with the body), 403 that it is denied, any other
/// non-2xx status that it failed; 2xx lets the upload proceed (`None`).
pub fn direct_init_status(code: u16, body: &str) -> (r: Option<DirectUploadError>)
    requires
        100 <= code <= 999,
    ensures
        (code == 404 || code == 400) ==> (r matches Some(DirectUploadError::Unsupported(m))
            && m@ == body@),
        code == 403 ==> (r matches Some(DirectUploadError::Failed(e)) && e matches AppError::Network(
            m,
        ) && m@ == "Direct upload permission denied"@),
        (code != 404 && code != 400 && code != 403 && !is_success(code)) ==> (r matches Some(
            DirectUploadError::Failed(e),
        ) && e matches AppError::Network(m) && m@ == "Direct upload init failed (HTTP "@
            + status_text(code) + "): "@ + body@),
        is_success(code) ==> r is None,
{
    if code == 404 || code == 400 {
        return Some(DirectUploadError::Unsupported(owned(body)));
    }
    if code == 403 {
        return Some(
            DirectUploadError::Failed(AppError::Network(owned("Direct upload permission denied"))),
        );
    }
    if !(200 <= code && code <= 299) {
        let status = status_display(code);
        return Some(
            DirectUploadError::Failed(
                network_error4("Direct upload init failed (HTTP ", status.as_str(), "): ", body),
            ),
        );
    }
    None
}

/// Where the file goes in a direct upload.
#[derive(Debug, Clone)]
pub enum UploadTarget {
    /// One URL for the whole file.
    Single(String),
    /// One URL per part.
    Multipart,
}

/// A single URL is used when given, part URLs otherwise; with neither,
/// direct upload is unsupported.
pub fn choose_upload_target(url: Option<String>, has_part_urls: bool) -> (r: Result<
    UploadTarget,
    DirectUploadError,
>)
    ensures
        url matches Some(u) ==> (r matches Ok(UploadTarget::Single(v)) && v@ == u@),
        url is None && has_part_urls ==> (r matches Ok(UploadTarget::Multipart)),
        url is None && !has_part_urls ==> (r matches Err(DirectUploadError::Unsupported(m)) && m@
            == "No upload URL returned by Dataverse"@),
{
    match url {
        Some(u) => Ok(UploadTarget::Single(u)),
        None => if has_part_urls {
            Ok(UploadTarget::Multipart)
        } else {
            Err(DirectUploadError::Unsupported(owned("No upload URL returned by Dataverse")))
        },
    }
}

/// What follows a direct upload attempt.
#[derive(Debug, Clone)]
pub enum DirectFollowUp {
    /// The file was uploaded directly.
    Done,
    /// Direct upload is unsupported: upload the file the classic way.
    FallBackToClassic,
    /// The upload failed.
    Fail(AppError),
}

/// A direct upload that succeeded is done; an unsupported one falls back to
/// classic upload; a failed one fails the upload.
pub fn after_direct_attempt(outcome: Result<(), DirectUploadError>) -> (r: DirectFollowUp)
    ensures
        outcome is Ok ==> r is Done,
        outcome matches Err(DirectUploadError::Unsupported(_)) ==> r is FallBackToClassic,
        outcome matches Err(DirectUploadError::Failed(e)) ==> (r matches DirectFollowUp::Fail(
            f,
        ) && f == e),
{
    match outcome {
        Ok(()) => DirectFollowUp::Done,
        Err(DirectUploadError::Unsupported(_)) => DirectFollowUp::FallBackToClassic,
        Err(DirectUploadError::Failed(e)) => DirectFollowUp::Fail(e),
    }
}

/// Error for a whole-file direct upload answered with a non-2xx status.
pub fn direct_put_error(code: u16) -> (r: AppError)
    requires
        100 <= code <= 999,
    ensures
        r matches AppError::Network(m) && m@ == "Direct upload failed with status "@ + status_text(
            code,
        ),
{
    let status = status_display(code);
    network_error2("Direct upload failed with status ", status.as_str())
}

/// Error for a part upload answered with a non-2xx status.
pub fn part_upload_error(code: u16) -> (r: AppError)
    requires
        100 <= code <= 999,
    ensures
        r matches AppError::Network(m) && m@ == "Multipart part upload failed with status "@
            + status_text(code),
{
    let status = status_display(code);
    network_error2("Multipart part upload failed with status ", status.as_str())
}

/// Error for a multipart completion answered with a non-2xx status.
pub fn multipart_completion_error(code: u16, body: &str) -> (r: AppError)
    requires
        100 <= code <= 999,
    ensures
        r matches AppError::Network(m) && m@ == "Multipart completion failed (HTTP "@
            + status_text(code) + "): "@ + body@,
{
    let status = status_display(code);
    network_error4("Multipart completion failed (HTTP ", status.as_str(), "): ", body)
}

/// Error when the server gave part URLs but no completion URL.
pub fn missing_completion_url_error() -> (r: AppError)
    ensures
        r matches AppError::InvalidInput(m) && m@ == "multipart complete URL missing"@,
{
    bad_request("multipart complete URL missing")
}

/// Error for a registration of a direct upload answered with a non-2xx status.
pub fn registration_error(code: u16, body: &str) -> (r: AppError)
    requires
        100 <= code <= 999,
    ensures
        r matches AppError::Network(m) && m@ == "Registering direct upload failed (HTTP "@
            + status_text(code) + "): "@ + body@,
{
    let status = status_display(code);
    network_error4("Registering direct upload failed (HTTP ", status.as_str(), "): ", body)
}

/// Error for a classic upload answered with a non-2xx status.
pub fn classic_upload_error(file_name: &str, code: u16, body: &str) -> (r: AppError)
    requires
        100 <= code <= 999,
    ensures
        r matches AppError::Network(m) && m@ == "Classic upload failed for "@ + file_name@
            + " (HTTP "@ + status_text(code) + "): "@ + body@,
{
    let status = status_display(code);
    let mut v = chars_of("Classic upload failed for ");
    push_all(&mut v, &chars_of(file_name));
    push_all(&mut v, &chars_of(" (HTTP "));
    push_all(&mut v, &chars_of(status.as_str()));
    push_all(&mut v, &chars_of("): "));
    push_all(&mut v, &chars_of(body));
    AppError::Network(string_of(&v))
}

/// Default part size of a multipart upload (5 MiB).
pub const DEFAULT_PART_SIZE: u64 = 5242880;

/// One part of a multipart upload.
#[derive(Debug, Clone)]
pub struct PartUpload {
    /// Part number (from 1).
    pub index: u64,
    pub url: String,
    /// Byte offset of the part in the file.
    pub offset: u64,
    /// Number of bytes of the part.
    pub length: u64,
    /// Bytes sent by the parts before this one.
    pub uploaded_before: u64,
}

/// The part URLs whose part number reads as a `u64`, with that number.
pub open spec fn parsed_parts(urls: Seq<(String, String)>) -> Seq<(u64, String)>
    decreases urls.len(),
{
    if urls.len() == 0 {
        Seq::empty()
    } else {
        let p = parsed_parts(urls.drop_last());
        match crate::text::parse_unsigned(urls.last().0@, u64::MAX as nat) {
            Some(v) => p.push((v as u64, urls.last().1)),
            None => p,
        }
    }
}

/// Parts ordered by part number.
pub open spec fn sorted_by_index(s: Seq<(u64, String)>) -> bool {
    forall|i: int, j: int| 0 <= i < j < s.len() ==> s[i].0 <= s[j].0
}

/// Offset of part `index`, when it is a valid part number whose offset fits.
pub open spec fn part_offset(index: u64, part_size: u64) -> Option<nat> {
    if index >= 1 && (index - 1) * part_size <= u64::MAX {
        Some(((index - 1) * part_size) as nat)
    } else {
        None
    }
}

/// Length of the part at `offset`: the part size, cut at the end of the file.
pub open spec fn part_length(offset: nat, total_size: u64, part_size: u64) -> nat {
    let remaining: nat = if total_size > offset {
        (total_size - offset) as nat
    } else {
        0
    };
    if part_size < remaining {
        part_size as nat
    } else {
        remaining
    }
}

/// The uploads of the given parts, in their order: parts without a valid
/// offset or with nothing to send are left out; `sent` bytes precede them.
pub open spec fn plan_from(
    parts: Seq<(u64, String)>,
    total_size: u64,
    part_size: u64,
    sent: nat,
) -> Seq<PartUpload>
    decreases parts.len(),
{
    if parts.len() == 0 {
        Seq::empty()
    } else {
        let rest = parts.drop_first();
        match part_offset(parts[0].0, part_size) {
            None => plan_from(rest, total_size, part_size, sent),
            Some(offset) => {
                let length = part_length(offset, total_size, part_size);
                if length == 0 {
                    plan_from(rest, total_size, part_size, sent)
                } else {
                    let next_sent: nat = if sent + length > u64::MAX {
                        u64::MAX as nat
                    } else {
                        sent + length
                    };
                    seq![
                        PartUpload {
                            index: parts[0].0,
                            url: parts[0].1,
                            offset: offset as u64,
                            length: length as u64,
                            uploaded_before: sent as u64,
                        },
                    ] + plan_from(rest, total_size, part_size, next_sent)
                }
            },
        }
    }
}

proof fn lemma_insert_multiset<A>(s: Seq<A>, i: int, x: A)
    requires
        0 <= i <= s.len(),
    ensures
        s.insert(i, x).to_multiset() =~= s.to_multiset().insert(x),
{
    broadcast use vstd::seq_lib::group_to_multiset_ensures;

    let t = s.insert(i, x);
    assert(t.remove(i) =~= s);
    assert(t[i] == x);
    assert(t.contains(x));
    assert(t.to_multiset().count(x) > 0);
    assert(t.to_multiset() =~= t.to_multiset().remove(x).insert(x));
}

/// The parts sorted by part number (stable), as a permutation of the input.
fn sort_parts(parts: Vec<(u64, String)>) -> (r: Vec<(u64, String)>)
    ensures
        sorted_by_index(r@),
        r@.to_multiset() =~= parts@.to_multiset(),
{
    broadcast use vstd::seq_lib::group_to_multiset_ensures;

    let ghost all = parts@;
    let mut r: Vec<(u64, String)> = Vec::new();
    for x in it: parts
        invariant
            it.seq() == all,
            sorted_by_index(r@),
            r@.to_multiset() =~= all.take(it.index() as int).to_multiset(),
    {
        let ghost k = it.index();
        assert(all.take(k + 1) =~= all.take(k as int).push(x));
        proof {
            vstd::seq_lib::to_multiset_build(all.take(k as int), x);
        }
        let mut p: usize = 0;
        while p < r.len() && r[p].0 <= x.0
            invariant
                p <= r.len(),
                forall|q: int| 0 <= q < p ==> r@[q].0 <= x.0,
            decreases r.len() - p,
        {
            p = p + 1;
        }
        proof {
            lemma_insert_multiset(r@, p as int, x);
        }
        let ghost before = r@;
        r.insert(p, x);
        assert forall|i: int, j: int| 0 <= i < j < r@.len() implies r@[i].0 <= r@[j].0 by {
            if j < p {
                assert(r@[i] == before[i] && r@[j] == before[j]);
            } else if j == p {
                assert(r@[i] == before[i]);
            } else if i < p {
                assert(r@[i] == before[i] && r@[j] == before[j - 1]);
            } else if i == p {
                assert(r@[j] == before[j - 1]);
            } else {
                assert(r@[i] == before[i - 1] && r@[j] == before[j - 1]);
            }
        }
    }
    assert(all.take(all.len() as int) =~= all);
    r
}

fn parse_part_numbers(urls: Vec<(String, String)>) -> (r: Vec<(u64, String)>)
    ensures
        r@ == parsed_parts(urls@),
{
    let ghost all = urls@;
    let mut r: Vec<(u64, String)> = Vec::new();
    for entry in it: urls
        invariant
            it.seq() == all,
            r@ == parsed_parts(all.take(it.index() as int)),
    {
        let ghost k = it.index();
        assert(all.take(k + 1).drop_last() =~= all.take(k as int));
        let (key, url) = entry;
        let kc = chars_of(key.as_str());
        match crate::text::parse_unsigned_exec(&kc, u64::MAX) {
            Some(v) => {
                r.push((v, url));
            },
            None => {},
        }
    }
    assert(all.take(all.len() as int) =~= all);
    r
}

/// Plans a multipart upload of a file of `total_size` bytes: the part URLs
/// (keyed by part number) in part-number order, each with its offset, length
/// and the bytes sent before it.
pub fn plan_multipart(total_size: u64, part_size: Option<u64>, urls: Vec<(String, String)>) -> (r:
    Vec<PartUpload>)
    ensures
        exists|sorted: Seq<(u64, String)>|
            #![trigger sorted_by_index(sorted)]
            sorted_by_index(sorted) && sorted.to_multiset() =~= parsed_parts(urls@).to_multiset()
                && r@ == plan_from(
                sorted,
                total_size,
                match part_size {
                    Some(p) => p,
                    None => DEFAULT_PART_SIZE,
                },
                0,
            ),
{
    let ps: u64 = match part_size {
        Some(p) => p,
        None => DEFAULT_PART_SIZE,
    };
    let parsed = parse_part_numbers(urls);
    let sorted = sort_parts(parsed);
    let ghost sorted_view = sorted@;
    let mut r: Vec<PartUpload> = Vec::new();
    let mut sent: u64 = 0;
    assert(sorted_view.skip(0) =~= sorted_view);
    for part in it: sorted
        invariant
            it.seq() == sorted_view,
            r@ + plan_from(sorted_view.skip(it.index() as int), total_size, ps, sent as nat)
                == plan_from(sorted_view, total_size, ps, 0),
    {
        let ghost k = it.index();
        let ghost rest = sorted_view.skip(k as int);
        assert(rest[0] == part);
        assert(rest.drop_first() =~= sorted_view.skip(k + 1));
        let ghost before = r@;
        let (index, url) = part;
        let offset_opt: Option<u64> = match index.checked_sub(1) {
            Some(v) => v.checked_mul(ps),
            None => None,
        };
        match offset_opt {
            None => {},
            Some(offset) => {
                let remaining = total_size.saturating_sub(offset);
                let length = if ps < remaining {
                    ps
                } else {
                    remaining
                };
                if length != 0 {
                    let part_plan = PartUpload {
                        index,
                        url,
                        offset,
                        length,
                        uploaded_before: sent,
                    };
                    let ghost one = part_plan;
                    r.push(part_plan);
                    sent = sent.saturating_add(length);
                    assert(r@ =~= before + seq![one]);
                    assert(before + plan_from(rest, total_size, ps, (sent - 0) as nat) =~= before
                        + plan_from(rest, total_size, ps, sent as nat));
                    assert((before + seq![one]) + plan_from(
                        sorted_view.skip(k + 1),
                        total_size,
                        ps,
                        sent as nat,
                    ) =~= before + (seq![one] + plan_from(
                        sorted_view.skip(k + 1),
                        total_size,
                        ps,
                        sent as nat,
                    )));
                }
            },
        }
    }
    assert(sorted_view.skip(sorted_view.len() as int) =~= Seq::<(u64, String)>::empty());
    assert(r@ + Seq::<PartUpload>::empty() =~= r@);
    r
}

/// Parts of a plan never overlap the end of the file and follow each other in
/// the order of their numbers: every planned part has a positive length and
/// lies within the file.
pub proof fn law_planned_parts_within_file(
    parts: Seq<(u64, String)>,
    total_size: u64,
    part_size: u64,
    sent: nat,
    i: int,
)
    requires
        0 <= i < plan_from(parts, total_size, part_size, sent).len(),
    ensures
        plan_from(parts, total_size, part_size, sent)[i].length > 0,
        plan_from(parts, total_size, part_size, sent)[i].offset + plan_from(
            parts,
            total_size,
            part_size,
            sent,
        )[i].length <= total_size,
        plan_from(parts, total_size, part_size, sent)[i].length <= part_size,
    decreases parts.len(),
{
    if parts.len() > 0 {
        let rest = parts.drop_first();
        match part_offset(parts[0].0, part_size) {
            None => {
                law_planned_parts_within_file(rest, total_size, part_size, sent, i);
            },
            Some(offset) => {
                let length = part_length(offset, total_size, part_size);
                if length == 0 {
                    law_planned_parts_within_file(rest, total_size, part_size, sent, i);
                } else if i > 0 {
                    let next_sent: nat = if sent + length > u64::MAX {
                        u64::MAX as nat
                    } else {
                        sent + length
                    };
                    law_planned_parts_within_file(rest, total_size, part_size, next_sent, i - 1);
                }
            },
        }
    }
}

} // verus!
