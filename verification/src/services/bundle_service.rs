//! Planning of the ZIP bundle that carries a folder structure as one upload:
//! the names under which files are stored in the archive, the archive's own
//! name, and the progress counters reported while it is written.
//!
//! Walking folders and writing the archive are done by the caller; every
//! decision about names and counters is made here.
use vstd::prelude::*;
use vstd::set_lib::lemma_len_subset;
use vstd::seq_lib::seq_to_set_is_finite;

use crate::domain::errors::{bad_request, AppError, AppResult};
use crate::domain::models::SourceKind;
use crate::services::clock::{compact_utc_timestamp, is_compact_stamp};
use crate::text::{
    chars_of, clone_opt, concat, contains_text, decimal, decimal_exec, ends_with, ends_with_exec,
    find_last, join3, lemma_decimal_injective, lemma_last_index_of, last_index_of, opt_view, owned,
    path_file_name, path_file_name_exec, path_join, path_join_exec, starts_with, starts_with_exec,
    string_of, string_views,
};

verus! {

/// The archive written for a bundle.
pub struct BundleArtifact {
    pub archive_path: String,
    pub file_name: String,
    pub size_bytes: u64,
}

/// Counters reported while the bundle is written.
pub struct BundleBuildProgress {
    pub total_files: u64,
    pub processed_files: u64,
    pub total_bytes: u64,
    pub processed_bytes: u64,
    pub current_entry: Option<String>,
}

/// One file to put into the bundle: where it is read from, under which name
/// it is stored, and its size.
pub struct BundleInputFile {
    pub file_path: String,
    pub archive_entry: String,
    pub size_bytes: u64,
}

/// Builds bundles in a directory of temporary files.
pub struct BundleService {
    temp_dir: String,
}

// ---------------------------------------------------------------------------
// Archive entry names
// ---------------------------------------------------------------------------

/// `path.rsplit_once('.')` when the part before the dot is not empty and the
/// part after it holds no `/`; otherwise the whole path and no extension.
pub open spec fn split_ext(path: Seq<char>) -> (Seq<char>, Seq<char>) {
    let i = last_index_of(path, '.');
    if i > 0 && !path.skip(i + 1).contains('/') {
        (path.take(i), path.skip(i + 1))
    } else {
        (path, Seq::empty())
    }
}

/// The name tried for the `idx`-th copy of a name with base `base` and
/// extension `ext`: `base_idx.ext`, or `base_idx` without an extension.
pub open spec fn numbered_name(base: Seq<char>, ext: Seq<char>, idx: nat) -> Seq<char> {
    if ext.len() == 0 {
        base + seq!['_'] + decimal(idx)
    } else {
        base + seq!['_'] + decimal(idx) + seq!['.'] + ext
    }
}

/// `name` is what `unique_archive_path` gives for `candidate` when the names
/// in `used` are taken: the candidate itself while it is free, else the
/// numbered name with the smallest number from 2 on that is free.
pub open spec fn unique_name(candidate: Seq<char>, used: Seq<Seq<char>>, name: Seq<char>) -> bool {
    if !used.contains(candidate) {
        name == candidate
    } else {
        let (base, ext) = split_ext(candidate);
        exists|idx: nat|
            #![trigger numbered_name(base, ext, idx)]
            idx >= 2 && name == numbered_name(base, ext, idx) && !used.contains(name) && (forall|
                j: nat,
            |
                #![trigger numbered_name(base, ext, j)]
                2 <= j < idx ==> used.contains(numbered_name(base, ext, j)))
    }
}

/// Splits a path into base and extension.
pub fn split_ext_exec(path: &[char]) -> (r: (Vec<char>, Vec<char>))
    ensures
        r.0@ == split_ext(path@).0,
        r.1@ == split_ext(path@).1,
{
    proof {
        lemma_last_index_of(path@, '.');
    }
    match find_last(path, '.') {
        Some(i) => {
            assert(i < path.len());
            if i > 0 {
                let ext = crate::text::copy_range(path, i + 1, path.len());
                assert(ext@ =~= path@.skip(i + 1));
                let mut slash = false;
                let mut k: usize = 0;
                while k < ext.len()
                    invariant
                        k <= ext.len(),
                        slash <==> ext@.take(k as int).contains('/'),
                    decreases ext.len() - k,
                {
                    if ext[k] == '/' {
                        assert(ext@.take(k + 1)[k as int] == '/');
                        slash = true;
                    } else {
                        assert(ext@.take(k + 1) =~= ext@.take(k as int).push(ext@[k as int]));
                    }
                    if slash {
                        assert(ext@.take(k + 1).contains('/')) by {
                            if !ext@.take(k as int).contains('/') {
                                assert(ext@.take(k + 1)[k as int] == '/');
                            } else {
                                let w = choose|w: int|
                                    0 <= w < k && ext@.take(k as int)[w] == '/';
                                assert(ext@.take(k + 1)[w] == '/');
                            }
                        }
                    }
                    k = k + 1;
                }
                assert(ext@.take(ext.len() as int) =~= ext@);
                if !slash {
                    let base = crate::text::copy_range(path, 0, i);
                    assert(base@ =~= path@.take(i as int));
                    return (base, ext);
                }
            }
            (crate::text::copy_range(path, 0, path.len()), Vec::new())
        },
        None => {
            let whole = crate::text::copy_range(path, 0, path.len());
            assert(whole@ =~= path@);
            (whole, Vec::new())
        },
    }
}

/// The numbered name for `idx`.
pub fn numbered_name_exec(base: &[char], ext: &[char], idx: u64) -> (r: Vec<char>)
    ensures
        r@ == numbered_name(base@, ext@, idx as nat),
{
    let mut r = concat(base, &['_']);
    let digits = decimal_exec(idx);
    r = concat(&r, &digits);
    if ext.len() > 0 {
        r = concat(&r, &['.']);
        r = concat(&r, ext);
        assert(r@ =~= base@ + seq!['_'] + decimal(idx as nat) + seq!['.'] + ext@);
    } else {
        assert(r@ =~= base@ + seq!['_'] + decimal(idx as nat));
    }
    r
}

/// Different numbers give different names.
proof fn lemma_numbered_name_injective(base: Seq<char>, ext: Seq<char>, a: nat, b: nat)
    requires
        numbered_name(base, ext, a) == numbered_name(base, ext, b),
    ensures
        a == b,
{
    let na = numbered_name(base, ext, a);
    let nb = numbered_name(base, ext, b);
    let start: int = base.len() as int + 1;
    assert(na.len() == nb.len());
    if ext.len() == 0 {
        assert(decimal(a).len() == decimal(b).len());
    } else {
        assert(na.len() == base.len() + 1 + decimal(a).len() + 1 + ext.len());
        assert(nb.len() == base.len() + 1 + decimal(b).len() + 1 + ext.len());
    }
    let la: int = decimal(a).len() as int;
    assert(na.subrange(start, start + la) =~= decimal(a));
    assert(nb.subrange(start, start + la) =~= decimal(b));
    lemma_decimal_injective(a, b);
}

/// The numbered names from 2 up to (excluding) `k`.
spec fn numbered_names_below(base: Seq<char>, ext: Seq<char>, k: nat) -> Set<Seq<char>>
    decreases k,
{
    if k <= 2 {
        Set::empty()
    } else {
        numbered_names_below(base, ext, (k - 1) as nat).insert(
            numbered_name(base, ext, (k - 1) as nat),
        )
    }
}

proof fn lemma_numbered_names_below(base: Seq<char>, ext: Seq<char>, k: nat)
    ensures
        numbered_names_below(base, ext, k).finite(),
        k >= 2 ==> numbered_names_below(base, ext, k).len() == k - 2,
        forall|j: nat| 2 <= j < k ==> numbered_names_below(base, ext, k).contains(
            #[trigger] numbered_name(base, ext, j),
        ),
        forall|x: Seq<char>| #[trigger]
            numbered_names_below(base, ext, k).contains(x) ==> exists|j: nat|
                2 <= j < k && x == numbered_name(base, ext, j),
    decreases k,
{
    if k > 2 {
        let km = (k - 1) as nat;
        lemma_numbered_names_below(base, ext, km);
        let prev = numbered_names_below(base, ext, km);
        let n = numbered_name(base, ext, km);
        if prev.contains(n) {
            let j = choose|j: nat| 2 <= j < km && n == numbered_name(base, ext, j);
            lemma_numbered_name_injective(base, ext, j, km);
        }
        assert forall|x: Seq<char>| #[trigger]
            numbered_names_below(base, ext, k).contains(x) implies exists|j: nat|
            2 <= j < k && x == numbered_name(base, ext, j) by {
            if x == n {
                assert(2 <= km < k && x == numbered_name(base, ext, km));
            } else {
                assert(prev.contains(x));
            }
        }
    }
}

/// While every numbered name from 2 up to `k` is taken, there are no more
/// such numbers than names in `used`.
proof fn lemma_taken_numbers_bounded(used: Seq<Seq<char>>, base: Seq<char>, ext: Seq<char>, k: nat)
    requires
        k >= 2,
        forall|j: nat|
            #![trigger numbered_name(base, ext, j)]
            2 <= j < k ==> used.contains(numbered_name(base, ext, j)),
    ensures
        k - 2 <= used.len(),
{
    lemma_numbered_names_below(base, ext, k);
    let s = numbered_names_below(base, ext, k);
    assert forall|x: Seq<char>| s.contains(x) implies used.to_set().contains(x) by {
        let j = choose|j: nat| 2 <= j < k && x == numbered_name(base, ext, j);
        assert(used.contains(numbered_name(base, ext, j)));
    }
    seq_to_set_is_finite(used);
    used.lemma_cardinality_of_set();
    lemma_len_subset(s, used.to_set());
}

/// The name under which `candidate` is stored in the archive, given the
/// names already used; the chosen name is recorded as used.
///
/// A free candidate is kept; a taken one gets the first free numbered name
/// `base_2.ext`, `base_3.ext`, ...
pub fn unique_archive_path(candidate: &str, used: &mut Vec<String>) -> (r: String)
    requires
        old(used).len() + 3 <= u64::MAX,
    ensures
        unique_name(candidate@, string_views(old(used)@), r@),
        !string_views(old(used)@).contains(r@),
        string_views(final(used)@) == string_views(old(used)@).push(r@),
{
    let ghost taken = string_views(used@);
    let cand = chars_of(candidate);
    if !contains_text(used, &cand) {
        let r = owned(candidate);
        used.push(owned(candidate));
        assert(string_views(used@) =~= taken.push(r@));
        return r;
    }
    let (base, ext) = split_ext_exec(&cand);
    let mut idx: u64 = 2;
    loop
        invariant
            2 <= idx,
            idx <= used.len() + 2,
            used.len() + 3 <= u64::MAX,
            used@ == old(used)@,
            taken == string_views(used@),
            base@ == split_ext(candidate@).0,
            ext@ == split_ext(candidate@).1,
            taken.contains(candidate@),
            forall|j: nat|
                #![trigger numbered_name(base@, ext@, j)]
                2 <= j < idx ==> taken.contains(numbered_name(base@, ext@, j)),
        decreases used.len() + 2 - idx,
    {
        let name = numbered_name_exec(&base, &ext, idx);
        if !contains_text(used, &name) {
            let r = string_of(&name);
            used.push(string_of(&name));
            assert(string_views(used@) =~= taken.push(r@));
            assert(unique_name(candidate@, taken, r@)) by {
                assert(r@ == numbered_name(base@, ext@, idx as nat));
            }
            return r;
        }
        proof {
            assert forall|j: nat|
                #![trigger numbered_name(base@, ext@, j)]
                2 <= j < idx + 1 implies taken.contains(numbered_name(base@, ext@, j)) by {
                if j == idx {
                    assert(name@ == numbered_name(base@, ext@, j));
                }
            }
            lemma_taken_numbers_bounded(taken, base@, ext@, (idx + 1) as nat);
        }
        idx = idx + 1;
    }
}

// ---------------------------------------------------------------------------
// The list of files to bundle
// ---------------------------------------------------------------------------

/// The archive names of a list of bundle inputs, in order.
pub open spec fn entry_names(files: Seq<BundleInputFile>) -> Seq<Seq<char>> {
    files.map_values(|f: BundleInputFile| f.archive_entry@)
}

/// Sum of the sizes of a list of bundle inputs.
pub open spec fn sum_input_bytes(files: Seq<BundleInputFile>) -> nat
    decreases files.len(),
{
    if files.len() == 0 {
        0
    } else {
        sum_input_bytes(files.drop_last()) + files.last().size_bytes as nat
    }
}

/// The files chosen for a bundle so far, each under a name that no other
/// file of the bundle has.
pub struct BundlePlan {
    used: Vec<String>,
    files: Vec<BundleInputFile>,
}

impl BundlePlan {
    /// The files chosen so far, in the order they were added.
    pub closed spec fn inputs(&self) -> Seq<BundleInputFile> {
        self.files@
    }

    /// The record of used names matches the files, and no two files share a
    /// name.
    pub closed spec fn wf(&self) -> bool {
        &&& string_views(self.used@) == entry_names(self.files@)
        &&& entry_names(self.files@).no_duplicates()
    }

    /// An empty plan.
    pub fn new() -> (r: Self)
        ensures
            r.wf(),
            r.inputs().len() == 0,
    {
        let r = BundlePlan { used: Vec::new(), files: Vec::new() };
        assert(string_views(r.used@) =~= entry_names(r.files@));
        r
    }

    /// Number of files chosen so far.
    pub fn len(&self) -> (r: usize)
        ensures
            r == self.inputs().len(),
    {
        self.files.len()
    }

    /// Adds a file stored under `name`, or under the first free numbered
    /// variant of it when `name` is already taken.
    pub fn add_entry(&mut self, file_path: &str, name: &str, size_bytes: u64)
        requires
            old(self).wf(),
            old(self).inputs().len() + 3 <= u64::MAX,
        ensures
            final(self).wf(),
            final(self).inputs().len() == old(self).inputs().len() + 1,
            final(self).inputs().take(old(self).inputs().len() as int) == old(self).inputs(),
            final(self).inputs().last().file_path@ == file_path@,
            final(self).inputs().last().size_bytes == size_bytes,
            unique_name(
                name@,
                entry_names(old(self).inputs()),
                final(self).inputs().last().archive_entry@,
            ),
    {
        let ghost old_files = self.files@;
        let entry = unique_archive_path(name, &mut self.used);
        let ghost entry_view = entry@;
        self.files.push(BundleInputFile { file_path: owned(file_path), archive_entry: entry, size_bytes });
        proof {
            assert(self.files@.take(old_files.len() as int) =~= old_files);
            assert(entry_names(self.files@) =~= entry_names(old_files).push(entry_view));
            let names = entry_names(self.files@);
            assert forall|i: int, j: int|
                0 <= i < names.len() && 0 <= j < names.len() && i != j implies names[i]
                != names[j] by {
                if i < old_files.len() && j < old_files.len() {
                    assert(names[i] == entry_names(old_files)[i]);
                    assert(names[j] == entry_names(old_files)[j]);
                } else if i == old_files.len() {
                    assert(names[j] == entry_names(old_files)[j]);
                } else {
                    assert(names[i] == entry_names(old_files)[i]);
                }
            }
        }
    }

    /// Adds a file found inside a folder source: it is stored as
    /// `root_name/relative`, made unique like any other name.
    pub fn add_folder_entry(&mut self, file_path: &str, root_name: &str, relative: &str, size_bytes: u64)
        requires
            old(self).wf(),
            old(self).inputs().len() + 3 <= u64::MAX,
        ensures
            final(self).wf(),
            final(self).inputs().len() == old(self).inputs().len() + 1,
            final(self).inputs().take(old(self).inputs().len() as int) == old(self).inputs(),
            final(self).inputs().last().file_path@ == file_path@,
            final(self).inputs().last().size_bytes == size_bytes,
            unique_name(
                root_name@ + seq!['/'] + relative@,
                entry_names(old(self).inputs()),
                final(self).inputs().last().archive_entry@,
            ),
    {
        let joined = join3(root_name, "/", relative);
        proof {
            reveal_strlit("/");
        }
        assert(joined@ =~= root_name@ + seq!['/'] + relative@);
        self.add_entry(file_path, joined.as_str(), size_bytes);
    }

    /// The planned files.
    pub fn into_files(self) -> (r: Vec<BundleInputFile>)
        ensures
            r@ == self.inputs(),
    {
        self.files
    }
}

/// No two files of a well-formed plan are stored under the same name.
pub proof fn law_archive_entries_distinct(plan: &BundlePlan)
    requires
        plan.wf(),
    ensures
        entry_names(plan.inputs()).no_duplicates(),
{
}

/// The final name of a source path, under which the source is stored in
/// the bundle, or the error for a path without one.
pub fn source_name(kind: SourceKind, path: &str) -> (r: AppResult<String>)
    ensures
        match path_file_name(path@) {
            Some(n) => r matches Ok(s) && s@ == n,
            None => r matches Err(AppError::InvalidInput(m)) && m@ == (match kind {
                SourceKind::File => "invalid source file name"@,
                SourceKind::Folder => "invalid source folder name"@,
            }),
        },
{
    match path_file_name_exec(path) {
        Some(n) => Ok(n),
        None => match kind {
            SourceKind::File => Err(bad_request("invalid source file name")),
            SourceKind::Folder => Err(bad_request("invalid source folder name")),
        },
    }
}

/// Total size of the files to bundle.
pub fn total_input_bytes(files: &[BundleInputFile]) -> (r: u64)
    requires
        sum_input_bytes(files@) <= u64::MAX,
    ensures
        r == sum_input_bytes(files@),
{
    let mut total: u64 = 0;
    let mut i: usize = 0;
    while i < files.len()
        invariant
            i <= files.len(),
            total == sum_input_bytes(files@.take(i as int)),
            sum_input_bytes(files@) <= u64::MAX,
        decreases files.len() - i,
    {
        proof {
            lemma_sum_input_bytes_prefix(files@, i + 1);
        }
        assert(files@.take(i + 1).drop_last() =~= files@.take(i as int));
        total = total + files[i].size_bytes;
        i = i + 1;
    }
    assert(files@.take(files.len() as int) =~= files@);
    total
}

proof fn lemma_sum_input_bytes_prefix(files: Seq<BundleInputFile>, k: int)
    requires
        0 <= k <= files.len(),
    ensures
        sum_input_bytes(files.take(k)) <= sum_input_bytes(files),
    decreases files.len(),
{
    if k < files.len() {
        assert(files.drop_last().take(k) =~= files.take(k));
        lemma_sum_input_bytes_prefix(files.drop_last(), k);
    } else {
        assert(files.take(k) =~= files);
    }
}

/// The label of an archive entry: its final name, or the whole entry when
/// it has none.
pub open spec fn entry_label(entry: Seq<char>) -> Seq<char> {
    match path_file_name(entry) {
        Some(n) => n,
        None => entry,
    }
}

/// The label shown for the entry being written.
pub fn entry_label_exec(entry: &str) -> (r: String)
    ensures
        r@ == entry_label(entry@),
{
    match path_file_name_exec(entry) {
        Some(n) => n,
        None => owned(entry),
    }
}

// ---------------------------------------------------------------------------
// Progress
// ---------------------------------------------------------------------------

impl BundleBuildProgress {
    /// Progress before anything is written.
    pub fn starting(total_files: u64, total_bytes: u64) -> (r: Self)
        ensures
            r.total_files == total_files,
            r.total_bytes == total_bytes,
            r.processed_files == 0,
            r.processed_bytes == 0,
            r.current_entry is None,
    {
        BundleBuildProgress {
            total_files,
            processed_files: 0,
            total_bytes,
            processed_bytes: 0,
            current_entry: None,
        }
    }

    /// Names the entry being written.
    pub fn set_entry(&mut self, label: &str)
        ensures
            final(self).total_files == old(self).total_files,
            final(self).total_bytes == old(self).total_bytes,
            final(self).processed_files == old(self).processed_files,
            final(self).processed_bytes == old(self).processed_bytes,
            final(self).current_entry matches Some(l) && l@ == label@,
    {
        self.current_entry = Some(owned(label));
    }

    /// Counts `delta` more bytes written, saturating at `u64::MAX`.
    pub fn record_bytes(&mut self, delta: u64)
        ensures
            final(self).total_files == old(self).total_files,
            final(self).total_bytes == old(self).total_bytes,
            final(self).processed_files == old(self).processed_files,
            final(self).current_entry == old(self).current_entry,
            final(self).processed_bytes == (if old(self).processed_bytes + delta > u64::MAX {
                u64::MAX as int
            } else {
                old(self).processed_bytes + delta
            }),
    {
        self.processed_bytes = self.processed_bytes.saturating_add(delta);
    }

    /// Counts one more file written, saturating at `u64::MAX`.
    pub fn record_file_done(&mut self)
        ensures
            final(self).total_files == old(self).total_files,
            final(self).total_bytes == old(self).total_bytes,
            final(self).processed_bytes == old(self).processed_bytes,
            final(self).current_entry == old(self).current_entry,
            final(self).processed_files == (if old(self).processed_files == u64::MAX {
                u64::MAX as int
            } else {
                old(self).processed_files + 1
            }),
    {
        self.processed_files = self.processed_files.saturating_add(1);
    }

    /// A copy of the counters.
    pub fn snapshot(&self) -> (r: Self)
        ensures
            r.total_files == self.total_files,
            r.total_bytes == self.total_bytes,
            r.processed_files == self.processed_files,
            r.processed_bytes == self.processed_bytes,
            opt_view(r.current_entry) == opt_view(self.current_entry),
    {
        BundleBuildProgress {
            total_files: self.total_files,
            processed_files: self.processed_files,
            total_bytes: self.total_bytes,
            processed_bytes: self.processed_bytes,
            current_entry: clone_opt(&self.current_entry),
        }
    }
}

// ---------------------------------------------------------------------------
// The archive file
// ---------------------------------------------------------------------------

/// Name of the archive written at the time `stamp`.
pub open spec fn bundle_file_name(stamp: Seq<char>) -> Seq<char> {
    "upload_bundle_"@ + stamp + ".zip"@
}

/// Whether a file in the temporary directory is a bundle archive: the
/// cleanup removes exactly these.
pub open spec fn is_bundle_archive_name(name: Seq<char>) -> bool {
    starts_with(name, "upload_bundle_"@) && ends_with(name, ".zip"@)
}

/// Name of the archive written at the time `stamp`.
pub fn bundle_file_name_exec(stamp: &str) -> (r: String)
    ensures
        r@ == bundle_file_name(stamp@),
{
    join3("upload_bundle_", stamp, ".zip")
}

/// Whether `name` is the name of a bundle archive.
pub fn is_bundle_archive_name_exec(name: &str) -> (r: bool)
    ensures
        r == is_bundle_archive_name(name@),
{
    let n = chars_of(name);
    let prefix = chars_of("upload_bundle_");
    let suffix = chars_of(".zip");
    starts_with_exec(&n, &prefix) && ends_with_exec(&n, &suffix)
}

/// Every archive the service writes is one that its cleanup removes.
pub proof fn law_bundle_names_are_cleaned_up(stamp: Seq<char>)
    ensures
        is_bundle_archive_name(bundle_file_name(stamp)),
{
    let n = bundle_file_name(stamp);
    assert(n.take("upload_bundle_"@.len() as int) =~= "upload_bundle_"@);
    assert(n.skip(n.len() - ".zip"@.len()) =~= ".zip"@);
}

/// Name for a new archive, stamped with the current time.
pub fn next_archive_file_name() -> (r: String)
    ensures
        exists|stamp: Seq<char>| is_compact_stamp(stamp) && r@ == bundle_file_name(stamp),
        is_bundle_archive_name(r@),
{
    let stamp = compact_utc_timestamp();
    let r = bundle_file_name_exec(stamp.as_str());
    proof {
        law_bundle_names_are_cleaned_up(stamp@);
    }
    r
}

impl BundleService {
    /// The directory of temporary archives.
    pub closed spec fn temp_dir_view(&self) -> Seq<char> {
        self.temp_dir@
    }

    /// A service writing its archives into `temp_dir`.
    pub fn new(temp_dir: String) -> (r: Self)
        ensures
            r.temp_dir_view() == temp_dir@,
    {
        BundleService { temp_dir }
    }

    /// The directory of temporary archives.
    pub fn temp_dir(&self) -> (r: &str)
        ensures
            r@ == self.temp_dir_view(),
    {
        self.temp_dir.as_str()
    }

    /// Where an archive of the given name is written.
    pub fn archive_path(&self, file_name: &str) -> (r: String)
        ensures
            r@ == path_join(self.temp_dir_view(), file_name@),
    {
        path_join_exec(self.temp_dir.as_str(), file_name)
    }
}

} // verus!
