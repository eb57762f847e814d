//! Bookkeeping of a scan of the selected sources: which files become items,
//! which are counted as duplicates, unreadable or ignored links, and the
//! totals of the scan.
//!
//! Walking the file system is done by the caller, which reports each entry
//! it meets to a [`ScanState`].
use vstd::prelude::*;

use crate::domain::errors::{bad_request, AppError, AppResult};
use crate::domain::models::{ItemState, ScanSummary, ScannedItem, SourceEntry};
use crate::services::ids::{is_v4_uuid_text, new_uuid};
use crate::text::{
    chars_of, concat, contains_text, owned, path_file_name, path_file_name_exec, string_of,
    string_views,
};

verus! {

/// The result of a scan: its counters and the items found.
pub struct ScanOutcome {
    pub summary: ScanSummary,
    pub items: Vec<ScannedItem>,
}

/// Scans the selected sources.
#[derive(Default)]
pub struct ScannerService;

impl ScannerService {
    /// A new scanner.
    pub fn new() -> (r: Self) {
        ScannerService
    }
}

/// Path components joined by `/`.
pub open spec fn join_with_slash(parts: Seq<Seq<char>>) -> Seq<char>
    decreases parts.len(),
{
    if parts.len() == 0 {
        Seq::empty()
    } else if parts.len() == 1 {
        parts[0]
    } else {
        join_with_slash(parts.drop_last()) + seq!['/'] + parts.last()
    }
}

/// A relative path written with `/` between its components, whatever the
/// separator of the platform.
pub fn normalize_relative(components: &[String]) -> (r: String)
    ensures
        r@ == join_with_slash(string_views(components@)),
{
    let mut acc: Vec<char> = Vec::new();
    let mut i: usize = 0;
    while i < components.len()
        invariant
            i <= components.len(),
            acc@ == join_with_slash(string_views(components@).take(i as int)),
        decreases components.len() - i,
    {
        let part = chars_of(components[i].as_str());
        let ghost parts = string_views(components@).take(i + 1);
        assert(parts.drop_last() =~= string_views(components@).take(i as int));
        assert(parts.last() == part@);
        if i == 0 {
            acc = part;
            assert(parts =~= seq![part@]);
        } else {
            acc = concat(&acc, &['/']);
            acc = concat(&acc, &part);
        }
        i = i + 1;
    }
    assert(string_views(components@).take(components.len() as int) =~= string_views(
        components@,
    ));
    string_of(&acc)
}

/// Fails with `NoSources` when no source is selected.
pub fn check_sources(sources: &[SourceEntry]) -> (r: AppResult<()>)
    ensures
        r is Ok <==> sources.len() > 0,
        r matches Err(e) ==> e is NoSources,
{
    if sources.len() == 0 {
        Err(AppError::NoSources)
    } else {
        Ok(())
    }
}

/// The file name of a source of kind `File`, or the error for a path without
/// a final name.
pub fn file_source_name(path: &str) -> (r: AppResult<String>)
    ensures
        match path_file_name(path@) {
            Some(n) => r matches Ok(s) && s@ == n,
            None => r matches Err(AppError::InvalidInput(m)) && m@ == "invalid file name"@,
        },
{
    match path_file_name_exec(path) {
        Some(n) => Ok(n),
        None => Err(bad_request("invalid file name")),
    }
}

/// Local paths of a list of items, in order.
pub open spec fn local_paths(items: Seq<ScannedItem>) -> Seq<Seq<char>> {
    items.map_values(|it: ScannedItem| it.local_path@)
}

/// Sum of the sizes of a list of items.
pub open spec fn sum_item_sizes(items: Seq<ScannedItem>) -> nat
    decreases items.len(),
{
    if items.len() == 0 {
        0
    } else {
        sum_item_sizes(items.drop_last()) + items.last().size_bytes as nat
    }
}

/// Identifiers of a list of sources, in order.
pub open spec fn source_ids(sources: Seq<SourceEntry>) -> Seq<Seq<char>> {
    sources.map_values(|src: SourceEntry| src.id@)
}

/// An item as the scan creates it: waiting for analysis, with no checksum,
/// decision, reason or message yet, nothing uploaded and no attempt made.
pub open spec fn is_fresh_item(it: ScannedItem) -> bool {
    &&& it.checksum_sha256 is None
    &&& it.decision is None
    &&& it.state == ItemState::PendingScan
    &&& it.reason is None
    &&& it.uploaded_bytes == 0
    &&& it.attempts == 0
    &&& it.message is None
}

/// What a scan has found so far.
pub struct ScanState {
    source_ids: Vec<String>,
    seen: Vec<String>,
    summary: ScanSummary,
    items: Vec<ScannedItem>,
}

impl ScanState {
    /// The counters so far.
    pub closed spec fn summary_view(&self) -> ScanSummary {
        self.summary
    }

    /// The items found so far, in order.
    pub closed spec fn items_view(&self) -> Seq<ScannedItem> {
        self.items@
    }

    /// The identifiers of the sources being scanned, in order.
    pub closed spec fn source_ids_view(&self) -> Seq<Seq<char>> {
        string_views(self.source_ids@)
    }

    /// Every local path seen has given exactly one item, the totals are
    /// those of the items, and every item is fresh and belongs to one of the
    /// sources.
    pub closed spec fn wf(&self) -> bool {
        &&& string_views(self.seen@) == local_paths(self.items@)
        &&& local_paths(self.items@).no_duplicates()
        &&& self.summary.total_files == self.items@.len()
        &&& self.summary.total_bytes == sum_item_sizes(self.items@)
        &&& forall|i: int| 0 <= i < self.items@.len() ==> is_fresh_item(#[trigger] self.items@[i])
        &&& forall|i: int|
            0 <= i < self.items@.len() ==> string_views(self.source_ids@).contains(
                (#[trigger] self.items@[i]).source_id@,
            )
    }

    /// A scan of `sources` that has found nothing yet; with no source
    /// selected it fails with `NoSources`.
    pub fn start(sources: &[SourceEntry]) -> (r: AppResult<Self>)
        ensures
            r is Ok <==> sources.len() > 0,
            r matches Err(e) ==> e is NoSources,
            r matches Ok(st) ==> {
                &&& st.wf()
                &&& st.source_ids_view() == source_ids(sources@)
                &&& st.items_view().len() == 0
                &&& st.summary_view().total_files == 0
                &&& st.summary_view().total_bytes == 0
                &&& st.summary_view().unreadable_count == 0
                &&& st.summary_view().ignored_symlink_count == 0
                &&& st.summary_view().duplicate_path_count == 0
            },
    {
        if sources.len() == 0 {
            return Err(AppError::NoSources);
        }
        let mut ids: Vec<String> = Vec::new();
        let mut i: usize = 0;
        while i < sources.len()
            invariant
                i <= sources.len(),
                string_views(ids@) == source_ids(sources@.take(i as int)),
            decreases sources.len() - i,
        {
            let ghost before = string_views(ids@);
            ids.push(sources[i].id.clone());
            proof {
                assert(sources@.take(i + 1).drop_last() =~= sources@.take(i as int));
                assert(string_views(ids@) =~= before.push(sources@[i as int].id@));
                assert(source_ids(sources@.take(i + 1)) =~= source_ids(sources@.take(i as int)).push(sources@[i as int].id@));
            }
            i = i + 1;
        }
        assert(sources@.take(sources.len() as int) =~= sources@);
        let r = ScanState { source_ids: ids, seen: Vec::new(), summary: ScanSummary::default(), items: Vec::new() };
        assert(string_views(r.seen@) =~= local_paths(r.items@));
        Ok(r)
    }

    /// The counters so far.
    pub fn summary(&self) -> (r: ScanSummary)
        ensures
            r == self.summary_view(),
    {
        self.summary
    }

    /// A source that is gone from the file system, or an entry of a folder
    /// that cannot be read: one more unreadable entry.
    pub fn record_unreadable(&mut self)
        requires
            old(self).wf(),
            old(self).summary_view().unreadable_count < u64::MAX,
        ensures
            final(self).wf(),
            final(self).source_ids_view() == old(self).source_ids_view(),
            final(self).items_view() == old(self).items_view(),
            final(self).summary_view() == (ScanSummary {
                unreadable_count: (old(self).summary_view().unreadable_count + 1) as u64,
                ..old(self).summary_view()
            }),
    {
        self.summary.unreadable_count = self.summary.unreadable_count + 1;
    }

    /// A symbolic link inside a folder: it is not followed, only counted.
    pub fn record_symlink(&mut self)
        requires
            old(self).wf(),
            old(self).summary_view().ignored_symlink_count < u64::MAX,
        ensures
            final(self).wf(),
            final(self).source_ids_view() == old(self).source_ids_view(),
            final(self).items_view() == old(self).items_view(),
            final(self).summary_view() == (ScanSummary {
                ignored_symlink_count: (old(self).summary_view().ignored_symlink_count + 1) as u64,
                ..old(self).summary_view()
            }),
    {
        self.summary.ignored_symlink_count = self.summary.ignored_symlink_count + 1;
    }

    /// Whether a file at this canonical path has already been found; if so
    /// it is counted as a duplicate and nothing else changes.
    pub fn record_duplicate_if_seen(&mut self, canonical_path: &str) -> (dup: bool)
        requires
            old(self).wf(),
            old(self).summary_view().duplicate_path_count < u64::MAX,
        ensures
            final(self).wf(),
            final(self).source_ids_view() == old(self).source_ids_view(),
            dup == local_paths(old(self).items_view()).contains(canonical_path@),
            final(self).items_view() == old(self).items_view(),
            final(self).summary_view() == (if dup {
                ScanSummary {
                    duplicate_path_count: (old(self).summary_view().duplicate_path_count
                        + 1) as u64,
                    ..old(self).summary_view()
                }
            } else {
                old(self).summary_view()
            }),
    {
        let path = chars_of(canonical_path);
        if contains_text(&self.seen, &path) {
            self.summary.duplicate_path_count = self.summary.duplicate_path_count + 1;
            true
        } else {
            false
        }
    }

    /// A file found for the first time in the source at `source_index`: it
    /// becomes a new item waiting for analysis, named after the last
    /// component of its relative path, with a fresh identifier. A relative
    /// path without a final name is refused.
    pub fn push_new_file(
        &mut self,
        source_index: usize,
        canonical_path: &str,
        relative_path: &str,
        size_bytes: u64,
        modified_at: Option<i64>,
    ) -> (r: AppResult<()>)
        requires
            old(self).wf(),
            source_index < old(self).source_ids_view().len(),
            !local_paths(old(self).items_view()).contains(canonical_path@),
            old(self).summary_view().total_files < u64::MAX,
            old(self).summary_view().total_bytes + size_bytes <= u64::MAX,
        ensures
            final(self).wf(),
            final(self).source_ids_view() == old(self).source_ids_view(),
            r is Ok <==> path_file_name(relative_path@) is Some,
            r matches Err(AppError::InvalidInput(m)) ==> m@ == "invalid file name"@,
            r is Err ==> final(self).items_view() == old(self).items_view()
                && final(self).summary_view() == old(self).summary_view(),
            r is Ok ==> {
                let items = final(self).items_view();
                let it = items.last();
                &&& items.len() == old(self).items_view().len() + 1
                &&& items.take(old(self).items_view().len() as int) == old(self).items_view()
                &&& is_v4_uuid_text(it.item_id@)
                &&& it.source_id@ == old(self).source_ids_view()[source_index as int]
                &&& it.local_path@ == canonical_path@
                &&& it.relative_path@ == relative_path@
                &&& Some(it.file_name@) == path_file_name(relative_path@)
                &&& it.size_bytes == size_bytes
                &&& it.modified_at == modified_at
                &&& it.checksum_sha256 is None
                &&& it.decision is None
                &&& it.state == ItemState::PendingScan
                &&& it.reason is None
                &&& it.uploaded_bytes == 0
                &&& it.attempts == 0
                &&& it.message is None
                &&& final(self).summary_view() == (ScanSummary {
                    total_files: (old(self).summary_view().total_files + 1) as u64,
                    total_bytes: (old(self).summary_view().total_bytes + size_bytes) as u64,
                    ..old(self).summary_view()
                })
            },
    {
        let file_name = match path_file_name_exec(relative_path) {
            Some(n) => n,
            None => {
                return Err(bad_request("invalid file name"));
            },
        };
        let ghost old_items = self.items@;
        let ghost old_seen = string_views(self.seen@);
        let ghost ids = string_views(self.source_ids@);
        assert(ids[source_index as int] == self.source_ids@[source_index as int]@);
        self.seen.push(owned(canonical_path));
        self.summary.total_files = self.summary.total_files + 1;
        self.summary.total_bytes = self.summary.total_bytes + size_bytes;
        let item = ScannedItem {
            item_id: new_uuid(),
            source_id: self.source_ids[source_index].clone(),
            local_path: owned(canonical_path),
            relative_path: owned(relative_path),
            file_name,
            size_bytes,
            modified_at,
            checksum_sha256: None,
            decision: None,
            state: ItemState::PendingScan,
            reason: None,
            uploaded_bytes: 0,
            attempts: 0,
            message: None,
        };
        self.items.push(item);
        proof {
            assert(self.items@.take(old_items.len() as int) =~= old_items);
            assert(self.items@.drop_last() =~= old_items);
            assert(local_paths(self.items@) =~= local_paths(old_items).push(canonical_path@));
            assert(string_views(self.seen@) =~= old_seen.push(canonical_path@));
            assert(ids.contains(self.items@.last().source_id@));
            assert forall|i: int| 0 <= i < self.items@.len() implies is_fresh_item(#[trigger] self.items@[i])
                && ids.contains(self.items@[i].source_id@) by {
                if i < old_items.len() {
                    assert(self.items@[i] == old_items[i]);
                }
            }
            let names = local_paths(self.items@);
            assert forall|i: int, j: int|
                0 <= i < names.len() && 0 <= j < names.len() && i != j implies names[i]
                != names[j] by {
                if i < old_items.len() && j < old_items.len() {
                    assert(names[i] == local_paths(old_items)[i]);
                    assert(names[j] == local_paths(old_items)[j]);
                } else if i == old_items.len() {
                    assert(names[j] == local_paths(old_items)[j]);
                } else {
                    assert(names[i] == local_paths(old_items)[i]);
                }
            }
        }
        Ok(())
    }

    /// The outcome of the scan: each local path gives one item, the totals
    /// are those of the items, and every item is fresh and belongs to one of
    /// the sources.
    pub fn finish(self) -> (r: ScanOutcome)
        requires
            self.wf(),
        ensures
            r.summary == self.summary_view(),
            r.items@ == self.items_view(),
            local_paths(r.items@).no_duplicates(),
            r.summary.total_files == r.items@.len(),
            r.summary.total_bytes == sum_item_sizes(r.items@),
            forall|i: int| 0 <= i < r.items@.len() ==> is_fresh_item(#[trigger] r.items@[i]),
            forall|i: int|
                0 <= i < r.items@.len() ==> self.source_ids_view().contains(
                    (#[trigger] r.items@[i]).source_id@,
                ),
    {
        ScanOutcome { summary: self.summary, items: self.items }
    }
}

/// A well-formed scan state has found each local path once, counts as many
/// files and bytes as its items hold, and holds only fresh items of its
/// sources.
pub proof fn law_scan_counts_items(state: &ScanState)
    requires
        state.wf(),
    ensures
        local_paths(state.items_view()).no_duplicates(),
        state.summary_view().total_files == state.items_view().len(),
        state.summary_view().total_bytes == sum_item_sizes(state.items_view()),
        forall|i: int|
            0 <= i < state.items_view().len() ==> is_fresh_item(#[trigger] state.items_view()[i]),
        forall|i: int|
            0 <= i < state.items_view().len() ==> state.source_ids_view().contains(
                (#[trigger] state.items_view()[i]).source_id@,
            ),
{
}

} // verus!
