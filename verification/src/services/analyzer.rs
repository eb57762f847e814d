//! Pre-transfer analysis: compares the scanned local files with the remote
//! dataset inventory and decides, per file, whether it is uploaded, skipped as
//! already present, or flagged as a conflict.
//!
//! Rules, in order:
//! - same path and same size: skip as existing;
//! - same path, different size: conflict (the remote file is kept);
//! - otherwise a single remote file with the same name and size: when the
//!   remote side publishes a SHA-256 checksum the local checksum decides
//!   (equal: skip, different: conflict, not computable: conflict), otherwise
//!   skip as a likely duplicate;
//! - several remote files with the same name and size: conflict;
//! - no match: ready for upload.
use vstd::prelude::*;

use crate::domain::models::{
    AnalysisDecisionKind, AnalysisItemDecision, AnalysisSummary, ScannedItem,
};
use crate::services::dataverse_client::RemoteDatasetFile;
use crate::text::{
    chars_of, clone_opt, drop_leading, drop_trailing, eq_ignore_ascii_case,
    eq_ignore_ascii_case_exec, opt_view, owned, replace_char, replace_char_exec, seq_eq,
    trim_end_class, trim_start_class, CharClass,
};

verus! {

/// Relative path with backslashes turned into slashes and surrounding slashes removed.
pub open spec fn normalize_relative(s: Seq<char>) -> Seq<char> {
    drop_trailing(
        drop_leading(replace_char(s, '\\', '/'), CharClass::Is('/')),
        CharClass::Is('/'),
    )
}

/// Normalizes a relative path for comparison.
pub fn normalize_relative_exec(s: &str) -> (r: Vec<char>)
    ensures
        r@ == normalize_relative(s@),
{
    let v = chars_of(s);
    let a = replace_char_exec(&v, '\\', '/');
    let b = trim_start_class(&a, CharClass::Is('/'));
    trim_end_class(&b, CharClass::Is('/'))
}

/// The remote file sits at the item's relative path.
pub open spec fn path_match(item: ScannedItem, r: RemoteDatasetFile) -> bool {
    normalize_relative(r.path_key@) == normalize_relative(item.relative_path@)
}

/// The remote file has the item's file name and size.
pub open spec fn name_size_match(item: ScannedItem, r: RemoteDatasetFile) -> bool {
    r.file_name@ == item.file_name@ && r.size_bytes == item.size_bytes
}

/// Some remote file sits at the item's relative path.
pub open spec fn any_path_match(item: ScannedItem, rs: Seq<RemoteDatasetFile>) -> bool {
    exists|i: int| 0 <= i < rs.len() && path_match(item, #[trigger] rs[i])
}

/// Some remote file sits at the item's relative path with the item's size.
pub open spec fn any_path_match_same_size(item: ScannedItem, rs: Seq<RemoteDatasetFile>) -> bool {
    exists|i: int|
        0 <= i < rs.len() && path_match(item, #[trigger] rs[i]) && rs[i].size_bytes
            == item.size_bytes
}

/// Number of remote files with the item's name and size.
pub open spec fn name_size_count(item: ScannedItem, rs: Seq<RemoteDatasetFile>) -> nat
    decreases rs.len(),
{
    if rs.len() == 0 {
        0
    } else {
        name_size_count(item, rs.drop_last()) + if name_size_match(item, rs.last()) {
            1nat
        } else {
            0nat
        }
    }
}

/// Index of the first remote file with the item's name and size, or -1.
pub open spec fn first_name_size(item: ScannedItem, rs: Seq<RemoteDatasetFile>) -> int
    decreases rs.len(),
{
    if rs.len() == 0 {
        -1
    } else if first_name_size(item, rs.drop_last()) >= 0 {
        first_name_size(item, rs.drop_last())
    } else if name_size_match(item, rs.last()) {
        rs.len() - 1
    } else {
        -1
    }
}

/// The SHA-256 checksum published for a remote file, if its checksum type is
/// SHA-256 (`SHA-256` or `SHA256`, any ASCII case).
pub open spec fn remote_sha256(r: RemoteDatasetFile) -> Option<Seq<char>> {
    match r.checksum_type {
        Some(t) => if eq_ignore_ascii_case(t@, "sha-256"@) || eq_ignore_ascii_case(
            t@,
            "sha256"@,
        ) {
            opt_view(r.checksum_value)
        } else {
            None
        },
        None => None,
    }
}

/// The rule of the analysis that applies to one file.
pub enum MatchRule {
    SamePathSameSize,
    SamePathOtherSize,
    ChecksumConfirmed,
    ChecksumMismatch,
    ChecksumUnavailable,
    LikelyDuplicate,
    AmbiguousCandidates,
    NoMatch,
}

/// The local checksum is needed for the item: no remote file at its path, a
/// single remote file with its name and size, and that file has a SHA-256.
pub open spec fn needs_local_checksum(item: ScannedItem, rs: Seq<RemoteDatasetFile>) -> bool {
    !any_path_match(item, rs) && name_size_count(item, rs) == 1 && remote_sha256(
        rs[first_name_size(item, rs)],
    ) is Some
}

/// The rule that applies to `item`, given the remote files and the local
/// SHA-256 checksum (consulted only when `needs_local_checksum`).
pub open spec fn match_rule(
    item: ScannedItem,
    rs: Seq<RemoteDatasetFile>,
    local: Option<Seq<char>>,
) -> MatchRule {
    if any_path_match(item, rs) {
        if any_path_match_same_size(item, rs) {
            MatchRule::SamePathSameSize
        } else {
            MatchRule::SamePathOtherSize
        }
    } else if name_size_count(item, rs) == 0 {
        MatchRule::NoMatch
    } else if name_size_count(item, rs) == 1 {
        match remote_sha256(rs[first_name_size(item, rs)]) {
            Some(v) => match local {
                Some(l) => if eq_ignore_ascii_case(l, v) {
                    MatchRule::ChecksumConfirmed
                } else {
                    MatchRule::ChecksumMismatch
                },
                None => MatchRule::ChecksumUnavailable,
            },
            None => MatchRule::LikelyDuplicate,
        }
    } else {
        MatchRule::AmbiguousCandidates
    }
}

/// Decision kind of a matching rule.
pub open spec fn rule_kind(rule: MatchRule) -> AnalysisDecisionKind {
    match rule {
        MatchRule::SamePathSameSize => AnalysisDecisionKind::SkipExisting,
        MatchRule::SamePathOtherSize => AnalysisDecisionKind::Conflict,
        MatchRule::ChecksumConfirmed => AnalysisDecisionKind::SkipExisting,
        MatchRule::ChecksumMismatch => AnalysisDecisionKind::Conflict,
        MatchRule::ChecksumUnavailable => AnalysisDecisionKind::Conflict,
        MatchRule::LikelyDuplicate => AnalysisDecisionKind::SkipExisting,
        MatchRule::AmbiguousCandidates => AnalysisDecisionKind::Conflict,
        MatchRule::NoMatch => AnalysisDecisionKind::Ready,
    }
}

/// Reason recorded with a matching rule.
pub open spec fn rule_reason(rule: MatchRule) -> Option<Seq<char>> {
    match rule {
        MatchRule::SamePathSameSize => Some(
            "File already exists remotely with same path and size"@,
        ),
        MatchRule::SamePathOtherSize => Some(
            "Remote file exists at same path with different size. Safe-skip policy keeps it unchanged."@,
        ),
        MatchRule::ChecksumConfirmed => Some(
            "Duplicate confirmed by SHA-256 checksum (same name + size)."@,
        ),
        MatchRule::ChecksumMismatch => Some("Checksum mismatch for same name + size candidate."@),
        MatchRule::ChecksumUnavailable => Some(
            "Cannot compute local checksum for ambiguous candidate."@,
        ),
        MatchRule::LikelyDuplicate => Some(
            "Likely duplicate detected by file name + size (different folder)."@,
        ),
        MatchRule::AmbiguousCandidates => Some(
            "Multiple remote candidates match name + size. Manual review recommended."@,
        ),
        MatchRule::NoMatch => None,
    }
}

/// The checksum recorded in the decision: the local one when it decided.
pub open spec fn rule_checksum(rule: MatchRule, local: Option<Seq<char>>) -> Option<Seq<char>> {
    match rule {
        MatchRule::ChecksumConfirmed => local,
        MatchRule::ChecksumMismatch => local,
        _ => None,
    }
}

/// `d` is the decision the analysis owes for `item`.
pub open spec fn decision_for(
    d: AnalysisItemDecision,
    item: ScannedItem,
    rs: Seq<RemoteDatasetFile>,
    local: Option<String>,
) -> bool {
    let rule = match_rule(item, rs, opt_view(local));
    &&& d.item_id@ == item.item_id@
    &&& d.local_path@ == item.local_path@
    &&& d.relative_path@ == item.relative_path@
    &&& d.file_name@ == item.file_name@
    &&& d.size_bytes == item.size_bytes
    &&& d.decision == rule_kind(rule)
    &&& opt_view(d.reason) == rule_reason(rule)
    &&& opt_view(d.checksum_sha256) == rule_checksum(rule, opt_view(local))
}

/// Decision kind of item `i`.
pub open spec fn kind_at(
    items: Seq<ScannedItem>,
    rs: Seq<RemoteDatasetFile>,
    locals: Seq<Option<String>>,
    i: int,
) -> AnalysisDecisionKind {
    rule_kind(match_rule(items[i], rs, opt_view(locals[i])))
}

/// Number of the first `n` items whose decision is `k`.
pub open spec fn count_kind(
    items: Seq<ScannedItem>,
    rs: Seq<RemoteDatasetFile>,
    locals: Seq<Option<String>>,
    k: AnalysisDecisionKind,
    n: int,
) -> nat
    decreases n,
{
    if n <= 0 {
        0
    } else {
        count_kind(items, rs, locals, k, n - 1) + if kind_at(items, rs, locals, n - 1) == k {
            1nat
        } else {
            0nat
        }
    }
}

/// Total size of the first `n` items.
pub open spec fn sum_sizes(items: Seq<ScannedItem>, n: int) -> nat
    decreases n,
{
    if n <= 0 {
        0
    } else {
        sum_sizes(items, n - 1) + items[n - 1].size_bytes as nat
    }
}

/// Total size of the first `n` items whose decision is `k`.
pub open spec fn sum_sizes_of_kind(
    items: Seq<ScannedItem>,
    rs: Seq<RemoteDatasetFile>,
    locals: Seq<Option<String>>,
    k: AnalysisDecisionKind,
    n: int,
) -> nat
    decreases n,
{
    if n <= 0 {
        0
    } else {
        sum_sizes_of_kind(items, rs, locals, k, n - 1) + if kind_at(items, rs, locals, n - 1)
            == k {
            items[n - 1].size_bytes as nat
        } else {
            0nat
        }
    }
}

/// Blocking error of an analysis that leaves nothing to upload.
pub const NO_ELIGIBLE_FILES: &'static str = "No files are eligible for upload after analysis.";

/// The summary the analysis owes for the given items.
pub open spec fn summary_for(
    s: AnalysisSummary,
    items: Seq<ScannedItem>,
    rs: Seq<RemoteDatasetFile>,
    locals: Seq<Option<String>>,
) -> bool {
    let n = items.len() as int;
    &&& s.total_files == n
    &&& s.total_bytes == sum_sizes(items, n)
    &&& s.to_upload_files == count_kind(items, rs, locals, AnalysisDecisionKind::Ready, n)
    &&& s.to_upload_bytes == sum_sizes_of_kind(items, rs, locals, AnalysisDecisionKind::Ready, n)
    &&& s.skipped_existing_files == count_kind(
        items,
        rs,
        locals,
        AnalysisDecisionKind::SkipExisting,
        n,
    )
    &&& s.conflict_files == count_kind(items, rs, locals, AnalysisDecisionKind::Conflict, n)
    &&& s.ignored_files == count_kind(items, rs, locals, AnalysisDecisionKind::Ignored, n)
    &&& s.error_files == count_kind(items, rs, locals, AnalysisDecisionKind::Error, n)
    &&& if s.to_upload_files == 0 {
        s.blocking_errors@.len() == 1 && s.blocking_errors@[0]@ == NO_ELIGIBLE_FILES@
    } else {
        s.blocking_errors@.len() == 0
    }
}

proof fn lemma_sum_sizes_monotone(items: Seq<ScannedItem>, i: int, n: int)
    requires
        0 <= i <= n,
    ensures
        sum_sizes(items, i) <= sum_sizes(items, n),
    decreases n - i,
{
    if i < n {
        lemma_sum_sizes_monotone(items, i, n - 1);
    }
}

proof fn lemma_kind_sizes_bounded(
    items: Seq<ScannedItem>,
    rs: Seq<RemoteDatasetFile>,
    locals: Seq<Option<String>>,
    k: AnalysisDecisionKind,
    n: int,
)
    ensures
        sum_sizes_of_kind(items, rs, locals, k, n) <= sum_sizes(items, n),
        count_kind(items, rs, locals, k, n) <= if n < 0 { 0 } else { n },
    decreases n,
{
    if n > 0 {
        lemma_kind_sizes_bounded(items, rs, locals, k, n - 1);
    }
}

/// A file whose relative path and size both match a remote file is skipped
/// as already existing.
pub proof fn law_same_path_same_size_skips(
    item: ScannedItem,
    rs: Seq<RemoteDatasetFile>,
    local: Option<Seq<char>>,
    j: int,
)
    requires
        0 <= j < rs.len(),
        path_match(item, rs[j]),
        rs[j].size_bytes == item.size_bytes,
    ensures
        rule_kind(match_rule(item, rs, local)) == AnalysisDecisionKind::SkipExisting,
{
}

/// A file whose relative path matches remote files none of which has its size
/// is a conflict: the remote file is never overwritten.
pub proof fn law_same_path_other_size_conflicts(
    item: ScannedItem,
    rs: Seq<RemoteDatasetFile>,
    local: Option<Seq<char>>,
    j: int,
)
    requires
        0 <= j < rs.len(),
        path_match(item, rs[j]),
        forall|k: int|
            0 <= k < rs.len() && path_match(item, #[trigger] rs[k]) ==> rs[k].size_bytes
                != item.size_bytes,
    ensures
        rule_kind(match_rule(item, rs, local)) == AnalysisDecisionKind::Conflict,
{
}

/// A file with no remote counterpart by path nor by name and size is ready
/// for upload.
pub proof fn law_no_match_is_ready(
    item: ScannedItem,
    rs: Seq<RemoteDatasetFile>,
    local: Option<Seq<char>>,
)
    requires
        forall|k: int| 0 <= k < rs.len() ==> !path_match(item, #[trigger] rs[k]),
        forall|k: int| 0 <= k < rs.len() ==> !name_size_match(item, #[trigger] rs[k]),
    ensures
        rule_kind(match_rule(item, rs, local)) == AnalysisDecisionKind::Ready,
{
    lemma_no_name_size_match(item, rs);
}

proof fn lemma_no_name_size_match(item: ScannedItem, rs: Seq<RemoteDatasetFile>)
    requires
        forall|k: int| 0 <= k < rs.len() ==> !name_size_match(item, #[trigger] rs[k]),
    ensures
        name_size_count(item, rs) == 0,
    decreases rs.len(),
{
    if rs.len() > 0 {
        let t = rs.drop_last();
        assert forall|k: int| 0 <= k < t.len() implies !name_size_match(item, #[trigger] t[k]) by {
            assert(t[k] == rs[k]);
        }
        lemma_no_name_size_match(item, t);
        assert(!name_size_match(item, rs[rs.len() - 1]));
    }
}

/// A file is a same-name-and-size candidate only when both its name and its
/// size agree: a file with no remote file at its relative path, and no remote
/// file that has both its name and its size, is ready for upload (with no
/// reason recorded), even when remote files share its name at another size
/// or its size under another name.
pub proof fn law_name_and_size_must_both_match(
    item: ScannedItem,
    rs: Seq<RemoteDatasetFile>,
    local: Option<Seq<char>>,
)
    requires
        forall|k: int|
            0 <= k < rs.len() ==> normalize_relative((#[trigger] rs[k]).path_key@)
                != normalize_relative(item.relative_path@),
        forall|k: int|
            0 <= k < rs.len() ==> (#[trigger] rs[k]).file_name@ != item.file_name@
                || rs[k].size_bytes != item.size_bytes,
    ensures
        rule_kind(match_rule(item, rs, local)) == AnalysisDecisionKind::Ready,
        rule_reason(match_rule(item, rs, local)) is None,
{
    lemma_no_name_size_match(item, rs);
}

proof fn lemma_first_name_size_range(item: ScannedItem, rs: Seq<RemoteDatasetFile>)
    ensures
        -1 <= first_name_size(item, rs) < rs.len(),
        name_size_count(item, rs) > 0 <==> first_name_size(item, rs) >= 0,
    decreases rs.len(),
{
    if rs.len() > 0 {
        lemma_first_name_size_range(item, rs.drop_last());
    }
}

proof fn lemma_match_gives_count(item: ScannedItem, rs: Seq<RemoteDatasetFile>, j: int)
    requires
        0 <= j < rs.len(),
        name_size_match(item, rs[j]),
    ensures
        name_size_count(item, rs) >= 1,
    decreases rs.len(),
{
    if j < rs.len() - 1 {
        assert(rs.drop_last()[j] == rs[j]);
        lemma_match_gives_count(item, rs.drop_last(), j);
    }
}

proof fn lemma_unique_candidate(item: ScannedItem, rs: Seq<RemoteDatasetFile>, j: int)
    requires
        0 <= j < rs.len(),
        name_size_match(item, rs[j]),
        forall|k: int| 0 <= k < rs.len() && k != j ==> !name_size_match(item, #[trigger] rs[k]),
    ensures
        name_size_count(item, rs) == 1,
        first_name_size(item, rs) == j,
    decreases rs.len(),
{
    let t = rs.drop_last();
    if j == rs.len() - 1 {
        assert forall|k: int| 0 <= k < t.len() implies !name_size_match(item, #[trigger] t[k]) by {
            assert(t[k] == rs[k]);
        }
        lemma_no_name_size_match(item, t);
        lemma_first_name_size_range(item, t);
    } else {
        assert(t[j] == rs[j]);
        assert forall|k: int| 0 <= k < t.len() && k != j implies !name_size_match(
            item,
            #[trigger] t[k],
        ) by {
            assert(t[k] == rs[k]);
        }
        lemma_unique_candidate(item, t, j);
        assert(!name_size_match(item, rs[rs.len() - 1]));
    }
}

proof fn lemma_two_candidates(item: ScannedItem, rs: Seq<RemoteDatasetFile>, j1: int, j2: int)
    requires
        0 <= j1 < j2 < rs.len(),
        name_size_match(item, rs[j1]),
        name_size_match(item, rs[j2]),
    ensures
        name_size_count(item, rs) >= 2,
    decreases rs.len(),
{
    let t = rs.drop_last();
    assert(t[j1] == rs[j1]);
    if j2 == rs.len() - 1 {
        lemma_match_gives_count(item, t, j1);
    } else {
        assert(t[j2] == rs[j2]);
        lemma_two_candidates(item, t, j1, j2);
    }
}

/// A file with no remote file at its relative path and exactly one remote
/// file with both its name and its size, which publishes no SHA-256
/// checksum, is skipped as a likely duplicate.
pub proof fn law_single_candidate_without_checksum_skips(
    item: ScannedItem,
    rs: Seq<RemoteDatasetFile>,
    local: Option<Seq<char>>,
    j: int,
)
    requires
        forall|k: int|
            0 <= k < rs.len() ==> normalize_relative((#[trigger] rs[k]).path_key@)
                != normalize_relative(item.relative_path@),
        0 <= j < rs.len(),
        rs[j].file_name@ == item.file_name@ && rs[j].size_bytes == item.size_bytes,
        forall|k: int|
            0 <= k < rs.len() && k != j ==> (#[trigger] rs[k]).file_name@ != item.file_name@
                || rs[k].size_bytes != item.size_bytes,
        remote_sha256(rs[j]) is None,
    ensures
        rule_kind(match_rule(item, rs, local)) == AnalysisDecisionKind::SkipExisting,
        rule_reason(match_rule(item, rs, local)) == Some(
            "Likely duplicate detected by file name + size (different folder)."@,
        ),
{
    lemma_unique_candidate(item, rs, j);
}

/// A file with no remote file at its relative path and two or more remote
/// files with both its name and its size is a conflict left for review.
pub proof fn law_several_candidates_conflict(
    item: ScannedItem,
    rs: Seq<RemoteDatasetFile>,
    local: Option<Seq<char>>,
    j1: int,
    j2: int,
)
    requires
        forall|k: int|
            0 <= k < rs.len() ==> normalize_relative((#[trigger] rs[k]).path_key@)
                != normalize_relative(item.relative_path@),
        0 <= j1 < j2 < rs.len(),
        rs[j1].file_name@ == item.file_name@ && rs[j1].size_bytes == item.size_bytes,
        rs[j2].file_name@ == item.file_name@ && rs[j2].size_bytes == item.size_bytes,
    ensures
        rule_kind(match_rule(item, rs, local)) == AnalysisDecisionKind::Conflict,
        rule_reason(match_rule(item, rs, local)) == Some(
            "Multiple remote candidates match name + size. Manual review recommended."@,
        ),
{
    lemma_two_candidates(item, rs, j1, j2);
}

/// A remote file of another size, not at the file's relative path, changes
/// nothing in the file's analysis, whatever its name: adding it to the
/// remote files leaves the rule that applies, and so the decision, as it was.
pub proof fn law_remote_of_other_size_is_irrelevant(
    item: ScannedItem,
    rs: Seq<RemoteDatasetFile>,
    extra: RemoteDatasetFile,
    local: Option<Seq<char>>,
)
    requires
        extra.size_bytes != item.size_bytes,
        normalize_relative(extra.path_key@) != normalize_relative(item.relative_path@),
    ensures
        match_rule(item, rs.push(extra), local) == match_rule(item, rs, local),
{
    let rs2 = rs.push(extra);
    assert(rs2.drop_last() =~= rs);
    assert(rs2.last() == extra);
    lemma_first_name_size_range(item, rs);
    assert(any_path_match(item, rs2) == any_path_match(item, rs)) by {
        if any_path_match(item, rs2) {
            let i = choose|i: int| 0 <= i < rs2.len() && path_match(item, #[trigger] rs2[i]);
            assert(i < rs.len());
            assert(rs2[i] == rs[i]);
        }
        if any_path_match(item, rs) {
            let i = choose|i: int| 0 <= i < rs.len() && path_match(item, #[trigger] rs[i]);
            assert(rs2[i] == rs[i]);
        }
    }
    assert(any_path_match_same_size(item, rs2) == any_path_match_same_size(item, rs)) by {
        if any_path_match_same_size(item, rs2) {
            let i = choose|i: int|
                0 <= i < rs2.len() && path_match(item, #[trigger] rs2[i]) && rs2[i].size_bytes
                    == item.size_bytes;
            assert(i < rs.len());
            assert(rs2[i] == rs[i]);
        }
        if any_path_match_same_size(item, rs) {
            let i = choose|i: int|
                0 <= i < rs.len() && path_match(item, #[trigger] rs[i]) && rs[i].size_bytes
                    == item.size_bytes;
            assert(rs2[i] == rs[i]);
        }
    }
    assert(name_size_count(item, rs2) == name_size_count(item, rs));
    assert(first_name_size(item, rs2) == first_name_size(item, rs));
    if first_name_size(item, rs) >= 0 {
        assert(rs2[first_name_size(item, rs)] == rs[first_name_size(item, rs)]);
    }
}

/// Every file gets exactly one decision, so the per-decision counts of a
/// summary add up to its number of files, and the bytes to upload never
/// exceed the bytes scanned.
pub proof fn law_summary_counts_partition(
    s: AnalysisSummary,
    items: Seq<ScannedItem>,
    rs: Seq<RemoteDatasetFile>,
    locals: Seq<Option<String>>,
)
    requires
        summary_for(s, items, rs, locals),
    ensures
        s.to_upload_files + s.skipped_existing_files + s.conflict_files + s.ignored_files
            + s.error_files == s.total_files,
        s.to_upload_bytes <= s.total_bytes,
{
    lemma_counts_partition(items, rs, locals, items.len() as int);
    lemma_kind_sizes_bounded(items, rs, locals, AnalysisDecisionKind::Ready, items.len() as int);
}

proof fn lemma_counts_partition(
    items: Seq<ScannedItem>,
    rs: Seq<RemoteDatasetFile>,
    locals: Seq<Option<String>>,
    n: int,
)
    requires
        n >= 0,
    ensures
        count_kind(items, rs, locals, AnalysisDecisionKind::Ready, n) + count_kind(
            items,
            rs,
            locals,
            AnalysisDecisionKind::SkipExisting,
            n,
        ) + count_kind(items, rs, locals, AnalysisDecisionKind::Conflict, n) + count_kind(
            items,
            rs,
            locals,
            AnalysisDecisionKind::Ignored,
            n,
        ) + count_kind(items, rs, locals, AnalysisDecisionKind::Error, n) == n,
    decreases n,
{
    if n > 0 {
        lemma_counts_partition(items, rs, locals, n - 1);
    }
}

/// A file with a single same-name, same-size remote candidate (and no remote
/// file at its path) whose SHA-256 checksum is published is skipped exactly
/// when its local checksum matches that one, ASCII case ignored.
pub proof fn law_checksum_escalation(
    item: ScannedItem,
    rs: Seq<RemoteDatasetFile>,
    local: Option<Seq<char>>,
)
    requires
        needs_local_checksum(item, rs),
    ensures
        rule_kind(match_rule(item, rs, local)) == AnalysisDecisionKind::SkipExisting <==> (
        local matches Some(l) && eq_ignore_ascii_case(
            l,
            remote_sha256(rs[first_name_size(item, rs)])->0,
        )),
{
}

/// Compares the scanned files with the files of the dataset.
#[derive(Debug, Clone, Copy)]
pub struct AnalyzerService;

impl Default for AnalyzerService {
    fn default() -> (r: Self) {
        AnalyzerService
    }
}

/// What a scan of the remote files finds for one item.
struct MatchScan {
    path_hit: bool,
    path_same_size: bool,
    name_size_count: usize,
    first_name_size: usize,
}

/// Whether the SHA-256 checksum of a remote file is published, and its value.
pub fn remote_checksum_sha256(remote: &RemoteDatasetFile) -> (r: Option<String>)
    ensures
        opt_view(r) == remote_sha256(*remote),
{
    match &remote.checksum_type {
        Some(t) => {
            let tv = chars_of(t.as_str());
            let a = chars_of("sha-256");
            let b = chars_of("sha256");
            if eq_ignore_ascii_case_exec(&tv, &a) || eq_ignore_ascii_case_exec(&tv, &b) {
                clone_opt(&remote.checksum_value)
            } else {
                None
            }
        },
        None => None,
    }
}

fn scan_remotes(
    item: &ScannedItem,
    item_key: &Vec<char>,
    remote_files: &[RemoteDatasetFile],
    remote_keys: &Vec<Vec<char>>,
) -> (m: MatchScan)
    requires
        item_key@ == normalize_relative(item.relative_path@),
        remote_keys.len() == remote_files.len(),
        forall|j: int|
            0 <= j < remote_keys.len() ==> (#[trigger] remote_keys[j])@ == normalize_relative(
                remote_files[j].path_key@,
            ),
    ensures
        m.path_hit == any_path_match(*item, remote_files@),
        m.path_same_size == any_path_match_same_size(*item, remote_files@),
        m.name_size_count == name_size_count(*item, remote_files@),
        name_size_count(*item, remote_files@) > 0 ==> m.first_name_size == first_name_size(
            *item,
            remote_files@,
        ),
        name_size_count(*item, remote_files@) > 0 ==> 0 <= first_name_size(
            *item,
            remote_files@,
        ) < remote_files.len(),
{
    let ghost rs = remote_files@;
    let mut path_hit = false;
    let mut path_same_size = false;
    let mut count: usize = 0;
    let mut first: usize = 0;
    let mut j: usize = 0;
    while j < remote_files.len()
        invariant
            rs == remote_files@,
            j <= remote_files.len(),
            item_key@ == normalize_relative(item.relative_path@),
            remote_keys.len() == remote_files.len(),
            forall|k: int|
                0 <= k < remote_keys.len() ==> (#[trigger] remote_keys[k])@ == normalize_relative(
                    remote_files[k].path_key@,
                ),
            path_hit == (exists|k: int| 0 <= k < j && path_match(*item, #[trigger] rs[k])),
            path_same_size == (exists|k: int|
                0 <= k < j && path_match(*item, #[trigger] rs[k]) && rs[k].size_bytes
                    == item.size_bytes),
            count == name_size_count(*item, rs.take(j as int)),
            count <= j,
            count > 0 ==> first == first_name_size(*item, rs.take(j as int)),
            count > 0 ==> 0 <= first_name_size(*item, rs.take(j as int)) < j,
            count == 0 ==> first_name_size(*item, rs.take(j as int)) == -1,
        decreases remote_files.len() - j,
    {
        let ghost prev = rs.take(j as int);
        let ghost next = rs.take(j + 1);
        assert(next.drop_last() =~= prev);
        assert(next.last() == rs[j as int]);
        let r = &remote_files[j];
        let same_path = seq_eq(&remote_keys[j], item_key);
        if same_path {
            path_hit = true;
            if r.size_bytes == item.size_bytes {
                path_same_size = true;
            }
        }
        let nm = r.file_name == item.file_name && r.size_bytes == item.size_bytes;
        if nm {
            if count == 0 {
                first = j;
            }
            count = count + 1;
        }
        j = j + 1;
    }
    assert(rs.take(remote_files.len() as int) =~= rs);
    MatchScan {
        path_hit,
        path_same_size,
        name_size_count: count,
        first_name_size: first,
    }
}

fn make_decision(
    item: &ScannedItem,
    kind: AnalysisDecisionKind,
    reason: Option<&str>,
    checksum: Option<String>,
) -> (d: AnalysisItemDecision)
    ensures
        d.item_id@ == item.item_id@,
        d.local_path@ == item.local_path@,
        d.relative_path@ == item.relative_path@,
        d.file_name@ == item.file_name@,
        d.size_bytes == item.size_bytes,
        d.decision == kind,
        opt_view(d.reason) == (match reason {
            Some(s) => Some(s@),
            None => None,
        }),
        opt_view(d.checksum_sha256) == opt_view(checksum),
{
    AnalysisItemDecision {
        item_id: item.item_id.clone(),
        local_path: item.local_path.clone(),
        relative_path: item.relative_path.clone(),
        file_name: item.file_name.clone(),
        size_bytes: item.size_bytes,
        checksum_sha256: checksum,
        decision: kind,
        reason: match reason {
            Some(s) => Some(owned(s)),
            None => None,
        },
    }
}

fn decide_item(
    item: &ScannedItem,
    remote_files: &[RemoteDatasetFile],
    remote_keys: &Vec<Vec<char>>,
    local: &Option<String>,
) -> (d: AnalysisItemDecision)
    requires
        remote_keys.len() == remote_files.len(),
        forall|j: int|
            0 <= j < remote_keys.len() ==> (#[trigger] remote_keys[j])@ == normalize_relative(
                remote_files[j].path_key@,
            ),
    ensures
        decision_for(d, *item, remote_files@, *local),
{
    let key = normalize_relative_exec(item.relative_path.as_str());
    let m = scan_remotes(item, &key, remote_files, remote_keys);
    if m.path_hit {
        if m.path_same_size {
            make_decision(
                item,
                AnalysisDecisionKind::SkipExisting,
                Some("File already exists remotely with same path and size"),
                None,
            )
        } else {
            make_decision(
                item,
                AnalysisDecisionKind::Conflict,
                Some(
                    "Remote file exists at same path with different size. Safe-skip policy keeps it unchanged.",
                ),
                None,
            )
        }
    } else if m.name_size_count == 1 {
        let remote = &remote_files[m.first_name_size];
        match remote_checksum_sha256(remote) {
            Some(remote_sha) => match local {
                Some(l) => {
                    let lv = chars_of(l.as_str());
                    let rv = chars_of(remote_sha.as_str());
                    if eq_ignore_ascii_case_exec(&lv, &rv) {
                        make_decision(
                            item,
                            AnalysisDecisionKind::SkipExisting,
                            Some("Duplicate confirmed by SHA-256 checksum (same name + size)."),
                            Some(l.clone()),
                        )
                    } else {
                        make_decision(
                            item,
                            AnalysisDecisionKind::Conflict,
                            Some("Checksum mismatch for same name + size candidate."),
                            Some(l.clone()),
                        )
                    }
                },
                None => make_decision(
                    item,
                    AnalysisDecisionKind::Conflict,
                    Some("Cannot compute local checksum for ambiguous candidate."),
                    None,
                ),
            },
            None => make_decision(
                item,
                AnalysisDecisionKind::SkipExisting,
                Some("Likely duplicate detected by file name + size (different folder)."),
                None,
            ),
        }
    } else if m.name_size_count > 1 {
        make_decision(
            item,
            AnalysisDecisionKind::Conflict,
            Some("Multiple remote candidates match name + size. Manual review recommended."),
            None,
        )
    } else {
        make_decision(item, AnalysisDecisionKind::Ready, None, None)
    }
}

/// For each item, whether its local SHA-256 checksum is needed by `analyze`.
pub fn local_checksum_requests(
    scanned_items: &[ScannedItem],
    remote_files: &[RemoteDatasetFile],
) -> (r: Vec<bool>)
    ensures
        r.len() == scanned_items.len(),
        forall|i: int|
            0 <= i < r.len() ==> r[i] == needs_local_checksum(
                #[trigger] scanned_items@[i],
                remote_files@,
            ),
{
    let remote_keys = normalized_keys(remote_files);
    let mut r: Vec<bool> = Vec::new();
    let mut i: usize = 0;
    while i < scanned_items.len()
        invariant
            i <= scanned_items.len(),
            r.len() == i,
            remote_keys.len() == remote_files.len(),
            forall|j: int|
                0 <= j < remote_keys.len() ==> (#[trigger] remote_keys[j])@ == normalize_relative(
                    remote_files[j].path_key@,
                ),
            forall|k: int|
                0 <= k < i ==> r[k] == needs_local_checksum(
                    #[trigger] scanned_items@[k],
                    remote_files@,
                ),
        decreases scanned_items.len() - i,
    {
        let item = &scanned_items[i];
        let key = normalize_relative_exec(item.relative_path.as_str());
        let m = scan_remotes(item, &key, remote_files, &remote_keys);
        let needed = if !m.path_hit && m.name_size_count == 1 {
            remote_checksum_sha256(&remote_files[m.first_name_size]).is_some()
        } else {
            false
        };
        r.push(needed);
        i = i + 1;
    }
    r
}

fn normalized_keys(remote_files: &[RemoteDatasetFile]) -> (keys: Vec<Vec<char>>)
    ensures
        keys.len() == remote_files.len(),
        forall|j: int|
            0 <= j < keys.len() ==> (#[trigger] keys[j])@ == normalize_relative(
                remote_files[j].path_key@,
            ),
{
    let mut keys: Vec<Vec<char>> = Vec::new();
    let mut j: usize = 0;
    while j < remote_files.len()
        invariant
            j <= remote_files.len(),
            keys.len() == j,
            forall|k: int|
                0 <= k < j ==> (#[trigger] keys[k])@ == normalize_relative(
                    remote_files[k].path_key@,
                ),
        decreases remote_files.len() - j,
    {
        keys.push(normalize_relative_exec(remote_files[j].path_key.as_str()));
        j = j + 1;
    }
    keys
}

impl AnalyzerService {
    /// A new analyzer.
    pub fn new() -> (r: Self) {
        AnalyzerService
    }

    /// Decides, for every scanned item, how the transfer treats it, and sums
    /// the decisions up.
    ///
    /// `local_checksums[i]` is the SHA-256 checksum (lower-case hex) of the
    /// local file of item `i`, or `None` when it could not be computed; it is
    /// consulted only for the items of `local_checksum_requests`.
    pub fn analyze(
        &self,
        scanned_items: &[ScannedItem],
        remote_files: &[RemoteDatasetFile],
        local_checksums: &[Option<String>],
    ) -> (r: (AnalysisSummary, Vec<AnalysisItemDecision>))
        requires
            local_checksums.len() == scanned_items.len(),
            sum_sizes(scanned_items@, scanned_items.len() as int) <= u64::MAX,
        ensures
            r.1.len() == scanned_items.len(),
            forall|i: int|
                0 <= i < r.1.len() ==> decision_for(
                    #[trigger] r.1@[i],
                    scanned_items@[i],
                    remote_files@,
                    local_checksums@[i],
                ),
            summary_for(r.0, scanned_items@, remote_files@, local_checksums@),
    {
        let ghost items = scanned_items@;
        let ghost rs = remote_files@;
        let ghost locals = local_checksums@;
        let remote_keys = normalized_keys(remote_files);
        let mut total_files: u64 = 0;
        let mut total_bytes: u64 = 0;
        let mut to_upload_files: u64 = 0;
        let mut to_upload_bytes: u64 = 0;
        let mut skipped: u64 = 0;
        let mut conflicts: u64 = 0;
        let mut ignored: u64 = 0;
        let mut errors: u64 = 0;
        let mut decisions: Vec<AnalysisItemDecision> = Vec::new();
        let mut i: usize = 0;
        while i < scanned_items.len()
            invariant
                items == scanned_items@,
                rs == remote_files@,
                locals == local_checksums@,
                local_checksums.len() == scanned_items.len(),
                sum_sizes(items, items.len() as int) <= u64::MAX,
                i <= scanned_items.len(),
                remote_keys.len() == remote_files.len(),
                forall|j: int|
                    0 <= j < remote_keys.len() ==> (#[trigger] remote_keys[j])@
                        == normalize_relative(remote_files[j].path_key@),
                decisions.len() == i,
                forall|k: int|
                    0 <= k < i ==> decision_for(
                        #[trigger] decisions@[k],
                        items[k],
                        rs,
                        locals[k],
                    ),
                total_files == i,
                total_bytes == sum_sizes(items, i as int),
                to_upload_files == count_kind(items, rs, locals, AnalysisDecisionKind::Ready, i as int),
                to_upload_bytes == sum_sizes_of_kind(
                    items,
                    rs,
                    locals,
                    AnalysisDecisionKind::Ready,
                    i as int,
                ),
                skipped == count_kind(items, rs, locals, AnalysisDecisionKind::SkipExisting, i as int),
                conflicts == count_kind(items, rs, locals, AnalysisDecisionKind::Conflict, i as int),
                ignored == count_kind(items, rs, locals, AnalysisDecisionKind::Ignored, i as int),
                errors == count_kind(items, rs, locals, AnalysisDecisionKind::Error, i as int),
            decreases scanned_items.len() - i,
        {
            let item = &scanned_items[i];
            let d = decide_item(item, remote_files, &remote_keys, &local_checksums[i]);
            proof {
                lemma_sum_sizes_monotone(items, i + 1, items.len() as int);
                lemma_kind_sizes_bounded(items, rs, locals, AnalysisDecisionKind::Ready, i + 1);
                lemma_kind_sizes_bounded(items, rs, locals, AnalysisDecisionKind::SkipExisting, i as int);
                lemma_kind_sizes_bounded(items, rs, locals, AnalysisDecisionKind::Conflict, i as int);
                lemma_kind_sizes_bounded(items, rs, locals, AnalysisDecisionKind::Ignored, i as int);
                lemma_kind_sizes_bounded(items, rs, locals, AnalysisDecisionKind::Error, i as int);
                lemma_kind_sizes_bounded(items, rs, locals, AnalysisDecisionKind::Ready, i as int);
                assert(kind_at(items, rs, locals, i as int) == d.decision);
            }
            total_files = total_files + 1;
            total_bytes = total_bytes + item.size_bytes;
            match d.decision {
                AnalysisDecisionKind::Ready => {
                    to_upload_files = to_upload_files + 1;
                    to_upload_bytes = to_upload_bytes + item.size_bytes;
                },
                AnalysisDecisionKind::SkipExisting => {
                    skipped = skipped + 1;
                },
                AnalysisDecisionKind::Conflict => {
                    conflicts = conflicts + 1;
                },
                AnalysisDecisionKind::Ignored => {
                    ignored = ignored + 1;
                },
                AnalysisDecisionKind::Error => {
                    errors = errors + 1;
                },
            }
            decisions.push(d);
            i = i + 1;
        }
        let mut blocking_errors: Vec<String> = Vec::new();
        if to_upload_files == 0 {
            blocking_errors.push(owned(NO_ELIGIBLE_FILES));
        }
        let summary = AnalysisSummary {
            total_files,
            total_bytes,
            to_upload_files,
            to_upload_bytes,
            skipped_existing_files: skipped,
            conflict_files: conflicts,
            ignored_files: ignored,
            error_files: errors,
            blocking_errors,
        };
        (summary, decisions)
    }
}

} // verus!
