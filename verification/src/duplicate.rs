//! Duplicate-file detection.
//!
//! The pipeline runs in phases: enumerate candidate files, bucket them by
//! exact size, sub-bucket the survivors by the partial hash of their first
//! 64 KiB, group files sharing size and partial hash by their full hash,
//! and finally turn each full-hash group of two or more files into a
//! DuplicateGroup with its original marked and wasted space computed.

use vstd::multiset::Multiset;
use vstd::prelude::*;

use crate::cleaner_models::{
    DuplicateAnalysisResult, DuplicateDetectorOptions, DuplicateFile, DuplicateGroup,
};
use crate::file_type::get_file_type;
use crate::hash::{partial_hash_result, HashCalculator};
use crate::path_util::{PathUtils, SystemPaths};
use crate::platform::{self, FileReadOutcome, FsEntry};
use crate::scan::ScanStatus;
use crate::scan_manager::ScanProgress;
use crate::seq_util::{lemma_filter_push, vec_index_mut};
use crate::text::str_chars;

verus! {

/// The phases of one detection run, in order.
#[derive(Debug, Clone, Copy, PartialEq, Eq, Structural)]
pub enum DuplicatePhase {
    Scanning,
    GroupingBySize,
    CalculatingHash,
    GroupingByHash,
    Finalizing,
}

/// A progress snapshot of one detection run. Percentages move through fixed
/// bands: scanning ends at 10, size bucketing at 20, hashing fills 20 to 90,
/// and finalizing ends at 100.
#[derive(Debug, Clone)]
pub struct DuplicateDetectionProgress {
    pub current_phase: DuplicatePhase,
    pub current_path: String,
    pub processed_files: u64,
    pub total_files: u64,
    pub found_groups: u64,
    pub percent: u64,
    pub status: ScanStatus,
}

impl ScanProgress for DuplicateDetectionProgress {
    open spec fn progress_status(&self) -> ScanStatus {
        self.status
    }

    open spec fn spec_with_status(&self, status: ScanStatus) -> Self {
        DuplicateDetectionProgress { status, ..*self }
    }

    proof fn lemma_with_status(&self, status: ScanStatus) {
    }

    fn set_status(&mut self, status: ScanStatus) {
        self.status = status;
    }

    fn event_name() -> (r: &'static str) {
        crate::events::EVENT_ANALYSIS_PROGRESS
    }
}

/// The percentage reported at `processed` of `total` files in `phase`.
pub open spec fn spec_phase_percent(phase: DuplicatePhase, processed: u64, total: u64) -> int {
    match phase {
        DuplicatePhase::Scanning => 0,
        DuplicatePhase::GroupingBySize => 10,
        DuplicatePhase::CalculatingHash => {
            if total == 0 {
                20
            } else if processed >= total {
                90
            } else {
                20 + ((processed as int) * 70 / (total as int))
            }
        },
        DuplicatePhase::GroupingByHash => 90,
        DuplicatePhase::Finalizing => 100,
    }
}

/// The percentage band of one phase.
pub fn phase_percent(phase: DuplicatePhase, processed: u64, total: u64) -> (r: u64)
    ensures
        r == spec_phase_percent(phase, processed, total),
        r <= 100,
{
    match phase {
        DuplicatePhase::Scanning => 0,
        DuplicatePhase::GroupingBySize => 10,
        DuplicatePhase::CalculatingHash => {
            if total == 0 {
                20
            } else if processed >= total {
                90
            } else {
                proof {
                    assert((processed as int) * 70 / (total as int) < 70) by (nonlinear_arith)
                        requires
                            0 < total,
                            processed < total,
                    ;
                }
                let scaled = ((processed as u128) * 70 / (total as u128)) as u64;
                20 + scaled
            }
        },
        DuplicatePhase::GroupingByHash => 90,
        DuplicatePhase::Finalizing => 100,
    }
}

/// One candidate file: its path, exact size and modification time.
#[derive(Debug)]
pub struct FileRecord {
    pub path: String,
    pub size: u64,
    pub modified_time: i64,
}

/// A copy of a candidate record.
pub fn copy_record(r: &FileRecord) -> (c: FileRecord)
    ensures
        c == *r,
{
    FileRecord { path: r.path.clone(), size: r.size, modified_time: r.modified_time }
}

/// One size bucket: every candidate of exactly this size.
#[derive(Debug)]
pub struct SizeGroup {
    pub size: u64,
    pub files: Vec<FileRecord>,
}

/// A candidate together with a hash string it was keyed by.
#[derive(Debug)]
pub struct KeyedFile {
    pub key: String,
    pub file: FileRecord,
}

/// One hash bucket: every keyed candidate with exactly this key.
#[derive(Debug)]
pub struct KeyGroup {
    pub key: String,
    pub files: Vec<KeyedFile>,
}

/// Some bucket has this size.
pub open spec fn has_size_group(groups: Seq<SizeGroup>, size: u64) -> bool {
    exists|i: int| 0 <= i < groups.len() && groups[i].size == size
}

/// Some bucket has this key.
pub open spec fn has_key_group(groups: Seq<KeyGroup>, key: Seq<char>) -> bool {
    exists|i: int| 0 <= i < groups.len() && groups[i].key@ == key
}

/// No element of `s` satisfies the predicate, so the filter is empty.
proof fn lemma_filter_all_false<A>(s: Seq<A>, pred: spec_fn(A) -> bool)
    requires
        forall|i: int| 0 <= i < s.len() ==> !pred(s[i]),
    ensures
        s.filter(pred) == Seq::<A>::empty(),
    decreases s.len(),
{
    reveal(Seq::filter);
    if s.len() == 0 {
        assert(s.filter(pred) =~= Seq::<A>::empty());
    } else {
        lemma_filter_all_false(s.drop_last(), pred);
        assert(s.filter(pred) =~= Seq::<A>::empty());
    }
}

/// Bucket candidates by exact byte size. Each bucket holds, in traversal
/// order, exactly the input files of its size; bucket sizes are distinct,
/// and every input file's size has a bucket.
pub fn group_by_size(files: &Vec<FileRecord>) -> (r: Vec<SizeGroup>)
    ensures
        forall|i: int, j: int| 0 <= i < j < r@.len() ==> r@[i].size != r@[j].size,
        forall|i: int|
            0 <= i < r@.len() ==> r@[i].files@ == files@.filter(
                |f: FileRecord| f.size == r@[i].size,
            ),
        forall|k: int| 0 <= k < files@.len() ==> has_size_group(r@, #[trigger] files@[k].size),
{
    let mut groups: Vec<SizeGroup> = Vec::new();
    let mut k: usize = 0;
    proof {
        assert(files@.take(0) =~= Seq::<FileRecord>::empty());
        assert forall|i: int| 0 <= i < groups@.len() implies groups@[i].files@ == files@.take(
            0,
        ).filter(|f: FileRecord| f.size == groups@[i].size) by {}
    }
    while k < files.len()
        invariant
            k <= files@.len(),
            forall|i: int, j: int| 0 <= i < j < groups@.len() ==> groups@[i].size != groups@[j].size,
            forall|i: int|
                0 <= i < groups@.len() ==> groups@[i].files@ == files@.take(k as int).filter(
                    |f: FileRecord| f.size == groups@[i].size,
                ),
            forall|m: int| 0 <= m < k ==> has_size_group(groups@, #[trigger] files@[m].size),
        decreases files@.len() - k,
    {
        let f = copy_record(&files[k]);
        let ghost pre = groups@;
        let size = f.size;
        let mut gi: usize = 0;
        let mut found = false;
        while gi < groups.len() && !found
            invariant
                gi <= groups@.len(),
                groups@ == pre,
                found ==> gi < groups@.len() && groups@[gi as int].size == size,
                !found ==> forall|j: int| 0 <= j < gi ==> groups@[j].size != size,
            decreases groups@.len() - gi + (if found {
                0int
            } else {
                1int
            }),
        {
            if groups[gi].size == size {
                found = true;
            } else {
                gi = gi + 1;
            }
        }
        proof {
            assert(files@.take(k + 1) =~= files@.take(k as int).push(files@[k as int]));
        }
        if found {
            let slot = vec_index_mut(&mut groups, gi);
            slot.files.push(f);
            proof {
                let pred = |fr: FileRecord| fr.size == pre[gi as int].size;
                lemma_filter_push(files@.take(k as int), pred, files@[k as int]);
                assert forall|i: int| 0 <= i < groups@.len() implies groups@[i].files@
                    == files@.take(k + 1).filter(|fr: FileRecord| fr.size == groups@[i].size) by {
                    if i != gi {
                        let predi = |fr: FileRecord| fr.size == groups@[i].size;
                        lemma_filter_push(files@.take(k as int), predi, files@[k as int]);
                    }
                }
                assert forall|m: int| 0 <= m < k + 1 implies has_size_group(
                    groups@,
                    #[trigger] files@[m].size,
                ) by {
                    if m < k {
                        assert(has_size_group(pre, files@[m].size));
                        let i = choose|i: int|
                            0 <= i < pre.len() && pre[i].size == files@[m].size;
                        assert(groups@[i].size == files@[m].size);
                    } else {
                        assert(groups@[gi as int].size == files@[m].size);
                    }
                }
            }
        } else {
            let mut one: Vec<FileRecord> = Vec::new();
            one.push(f);
            groups.push(SizeGroup { size, files: one });
            proof {
                let pred = |fr: FileRecord| fr.size == size;
                assert forall|m: int| 0 <= m < k implies files@[m].size != size by {
                    if files@[m].size == size {
                        assert(has_size_group(pre, files@[m].size));
                        let i = choose|i: int|
                            0 <= i < pre.len() && pre[i].size == files@[m].size;
                        assert(pre[i].size != size);
                    }
                }
                assert forall|m: int| 0 <= m < k + 1 implies has_size_group(
                    groups@,
                    #[trigger] files@[m].size,
                ) by {
                    if m < k {
                        assert(has_size_group(pre, files@[m].size));
                        let i = choose|i: int|
                            0 <= i < pre.len() && pre[i].size == files@[m].size;
                        assert(groups@[i].size == files@[m].size);
                    } else {
                        assert(groups@[groups@.len() - 1].size == files@[m].size);
                    }
                }
                lemma_filter_all_false(files@.take(k as int), pred);
                lemma_filter_push(files@.take(k as int), pred, files@[k as int]);
                assert(groups@[groups@.len() - 1].files@ =~= files@.take(k + 1).filter(pred));
                assert forall|i: int| 0 <= i < groups@.len() implies groups@[i].files@
                    == files@.take(k + 1).filter(|fr: FileRecord| fr.size == groups@[i].size) by {
                    if i < groups@.len() - 1 {
                        let predi = |fr: FileRecord| fr.size == groups@[i].size;
                        lemma_filter_push(files@.take(k as int), predi, files@[k as int]);
                    }
                }
            }
        }
        k = k + 1;
    }
    proof {
        assert(files@.take(files@.len() as int) =~= files@);
    }
    groups
}

/// Bucket keyed candidates by their key. Each bucket holds, in order,
/// exactly the inputs with its key: no two files with different keys share
/// a bucket, and all files sharing a key land in one bucket.
pub fn group_by_key(items: Vec<KeyedFile>) -> (r: Vec<KeyGroup>)
    ensures
        forall|i: int, j: int| 0 <= i < j < r@.len() ==> r@[i].key@ != r@[j].key@,
        forall|i: int|
            0 <= i < r@.len() ==> r@[i].files@ == items@.filter(
                |it: KeyedFile| it.key@ == r@[i].key@,
            ),
        forall|k: int| 0 <= k < items@.len() ==> has_key_group(r@, #[trigger] items@[k].key@),
{
    let ghost orig = items@;
    let mut rest = items;
    let mut groups: Vec<KeyGroup> = Vec::new();
    let ghost k: int = 0;
    proof {
        assert(orig.take(0) =~= Seq::<KeyedFile>::empty());
        assert(rest@ =~= orig.skip(0));
    }
    while rest.len() > 0
        invariant
            0 <= k <= orig.len(),
            rest@ == orig.skip(k),
            forall|i: int, j: int| 0 <= i < j < groups@.len() ==> groups@[i].key@ != groups@[j].key@,
            forall|i: int|
                0 <= i < groups@.len() ==> groups@[i].files@ == orig.take(k).filter(
                    |it: KeyedFile| it.key@ == groups@[i].key@,
                ),
            forall|m: int| 0 <= m < k ==> has_key_group(groups@, #[trigger] orig[m].key@),
        decreases rest@.len(),
    {
        let it = rest.remove(0);
        proof {
            assert(orig.skip(k).remove(0) =~= orig.skip(k + 1));
            assert(it == orig[k]);
        }
        let ghost pre = groups@;
        let mut gi: usize = 0;
        let mut found = false;
        while gi < groups.len() && !found
            invariant
                gi <= groups@.len(),
                groups@ == pre,
                found ==> gi < groups@.len() && groups@[gi as int].key@ == it.key@,
                !found ==> forall|j: int| 0 <= j < gi ==> groups@[j].key@ != it.key@,
            decreases groups@.len() - gi + (if found {
                0int
            } else {
                1int
            }),
        {
            if groups[gi].key == it.key {
                found = true;
            } else {
                gi = gi + 1;
            }
        }
        proof {
            assert(orig.take(k + 1) =~= orig.take(k).push(orig[k]));
        }
        if found {
            let slot = vec_index_mut(&mut groups, gi);
            slot.files.push(it);
            proof {
                let pred = |x: KeyedFile| x.key@ == pre[gi as int].key@;
                lemma_filter_push(orig.take(k), pred, orig[k]);
                assert forall|i: int| 0 <= i < groups@.len() implies groups@[i].files@ == orig.take(
                    k + 1,
                ).filter(|x: KeyedFile| x.key@ == groups@[i].key@) by {
                    if i != gi {
                        let predi = |x: KeyedFile| x.key@ == groups@[i].key@;
                        lemma_filter_push(orig.take(k), predi, orig[k]);
                    }
                }
                assert forall|m: int| 0 <= m < k + 1 implies has_key_group(
                    groups@,
                    #[trigger] orig[m].key@,
                ) by {
                    if m < k {
                        assert(has_key_group(pre, orig[m].key@));
                        let i = choose|i: int| 0 <= i < pre.len() && pre[i].key@ == orig[m].key@;
                        assert(groups@[i].key@ == orig[m].key@);
                    } else {
                        assert(groups@[gi as int].key@ == orig[m].key@);
                    }
                }
            }
        } else {
            let key = it.key.clone();
            let mut one: Vec<KeyedFile> = Vec::new();
            one.push(it);
            groups.push(KeyGroup { key, files: one });
            proof {
                let pred = |x: KeyedFile| x.key@ == orig[k].key@;
                assert forall|m: int| 0 <= m < k implies orig[m].key@ != orig[k].key@ by {
                    if orig[m].key@ == orig[k].key@ {
                        assert(has_key_group(pre, orig[m].key@));
                        let i = choose|i: int| 0 <= i < pre.len() && pre[i].key@ == orig[m].key@;
                        assert(pre[i].key@ != orig[k].key@);
                    }
                }
                assert forall|m: int| 0 <= m < k + 1 implies has_key_group(
                    groups@,
                    #[trigger] orig[m].key@,
                ) by {
                    if m < k {
                        assert(has_key_group(pre, orig[m].key@));
                        let i = choose|i: int| 0 <= i < pre.len() && pre[i].key@ == orig[m].key@;
                        assert(groups@[i].key@ == orig[m].key@);
                    } else {
                        assert(groups@[groups@.len() - 1].key@ == orig[m].key@);
                    }
                }
                lemma_filter_all_false(orig.take(k), pred);
                lemma_filter_push(orig.take(k), pred, orig[k]);
                assert(groups@[groups@.len() - 1].files@ =~= orig.take(k + 1).filter(pred));
                assert forall|i: int| 0 <= i < groups@.len() implies groups@[i].files@ == orig.take(
                    k + 1,
                ).filter(|x: KeyedFile| x.key@ == groups@[i].key@) by {
                    if i < groups@.len() - 1 {
                        let predi = |x: KeyedFile| x.key@ == groups@[i].key@;
                        lemma_filter_push(orig.take(k), predi, orig[k]);
                    }
                }
            }
        }
        proof {
            k = k + 1;
        }
    }
    proof {
        assert(orig.skip(k).len() == 0);
        assert(k == orig.len());
        assert(orig.take(orig.len() as int) =~= orig);
    }
    groups
}

/// Keep only the key buckets that hold at least two files.
pub fn keep_plural_groups(groups: Vec<KeyGroup>) -> (r: Vec<KeyGroup>)
    ensures
        r@ == groups@.filter(|g: KeyGroup| g.files@.len() >= 2),
{
    let ghost orig = groups@;
    let ghost pred = |g: KeyGroup| g.files@.len() >= 2;
    let mut rest = groups;
    let mut out: Vec<KeyGroup> = Vec::new();
    let ghost k: int = 0;
    proof {
        assert(orig.take(0) =~= Seq::<KeyGroup>::empty());
        crate::seq_util::lemma_filter_empty(orig.take(0), pred);
        assert(rest@ =~= orig.skip(0));
    }
    while rest.len() > 0
        invariant
            0 <= k <= orig.len(),
            rest@ == orig.skip(k),
            out@ == orig.take(k).filter(|g: KeyGroup| g.files@.len() >= 2),
        decreases rest@.len(),
    {
        let g = rest.remove(0);
        proof {
            assert(orig.skip(k).remove(0) =~= orig.skip(k + 1));
            assert(g == orig[k]);
            assert(orig.take(k + 1) =~= orig.take(k).push(orig[k]));
            lemma_filter_push(orig.take(k), |x: KeyGroup| x.files@.len() >= 2, orig[k]);
        }
        if g.files.len() >= 2 {
            out.push(g);
        }
        proof {
            k = k + 1;
        }
    }
    proof {
        assert(orig.skip(k).len() == 0);
        assert(k == orig.len());
        assert(orig.take(orig.len() as int) =~= orig);
    }
    out
}

/// How many members of `files` are marked as the original.
pub open spec fn count_originals(files: Seq<DuplicateFile>) -> int
    decreases files.len(),
{
    if files.len() == 0 {
        0
    } else {
        count_originals(files.drop_last()) + (if files.last().is_original {
            1int
        } else {
            0int
        })
    }
}

/// Member `i` is the marked original and the earliest-modified member, ties
/// broken by traversal order: everything earlier in the list was modified
/// strictly later.
pub open spec fn is_original_at(files: Seq<DuplicateFile>, i: int) -> bool {
    &&& 0 <= i < files.len()
    &&& files[i].is_original
    &&& forall|j: int| 0 <= j < files.len() ==> files[j].modified_time >= files[i].modified_time
    &&& forall|j: int| 0 <= j < i ==> files[j].modified_time > files[i].modified_time
}

/// A list whose only marked member is `i` has exactly one original.
proof fn lemma_single_original(files: Seq<DuplicateFile>, i: int)
    requires
        0 <= i < files.len(),
        files[i].is_original,
        forall|j: int| 0 <= j < files.len() && j != i ==> !files[j].is_original,
    ensures
        count_originals(files) == 1,
    decreases files.len(),
{
    if files.len() - 1 == i {
        lemma_no_original(files.drop_last());
    } else {
        lemma_single_original(files.drop_last(), i);
    }
}

/// A list with no marked member has no original.
proof fn lemma_no_original(files: Seq<DuplicateFile>)
    requires
        forall|j: int| 0 <= j < files.len() ==> !files[j].is_original,
    ensures
        count_originals(files) == 0,
    decreases files.len(),
{
    if files.len() > 0 {
        lemma_no_original(files.drop_last());
    }
}

/// Mark the earliest-modified member as the original (ties broken by
/// traversal order); everything else is left as it was.
pub fn mark_original(files: &mut Vec<DuplicateFile>)
    requires
        old(files)@.len() >= 1,
        forall|j: int| 0 <= j < old(files)@.len() ==> !old(files)@[j].is_original,
    ensures
        final(files)@.len() == old(files)@.len(),
        count_originals(final(files)@) == 1,
        exists|i: int| #[trigger] is_original_at(final(files)@, i),
        forall|j: int|
            0 <= j < final(files)@.len() ==> final(files)@[j].path == old(files)@[j].path
                && final(files)@[j].name == old(files)@[j].name && final(files)@[j].modified_time
                == old(files)@[j].modified_time,
{
    let mut best: usize = 0;
    let mut i: usize = 1;
    while i < files.len()
        invariant
            1 <= i <= files@.len(),
            best < i,
            forall|j: int| 0 <= j < i ==> files@[j].modified_time >= files@[best as int].modified_time,
            forall|j: int| 0 <= j < best ==> files@[j].modified_time > files@[best as int].modified_time,
        decreases files@.len() - i,
    {
        if files[i].modified_time < files[best].modified_time {
            best = i;
        }
        i = i + 1;
    }
    let ghost before = files@;
    let slot = vec_index_mut(files, best);
    let updated = DuplicateFile {
        path: slot.path.clone(),
        name: slot.name.clone(),
        modified_time: slot.modified_time,
        is_original: true,
    };
    *slot = updated;
    proof {
        lemma_single_original(files@, best as int);
        assert(is_original_at(files@, best as int));
    }
}

/// Every returned group is well formed: two or more members, wasted space
/// equal to size times (member count - 1), and exactly one member marked as
/// the original, the earliest-modified one.
pub open spec fn wf_group(g: DuplicateGroup) -> bool {
    &&& g.files@.len() >= 2
    &&& g.wasted_space == g.size * (g.files@.len() - 1)
    &&& count_originals(g.files@) == 1
    &&& exists|i: int| #[trigger] is_original_at(g.files@, i)
}

/// Groups sorted by wasted space, largest first.
pub open spec fn sorted_by_wasted_desc(groups: Seq<DuplicateGroup>) -> bool {
    forall|i: int, j: int| 0 <= i <= j < groups.len() ==> groups[i].wasted_space >= groups[j].wasted_space
}

/// Sort groups by wasted space, largest first; the result is a permutation
/// of the input.
pub fn sort_groups_by_wasted(groups: Vec<DuplicateGroup>) -> (r: Vec<DuplicateGroup>)
    ensures
        sorted_by_wasted_desc(r@),
        r@.to_multiset() == groups@.to_multiset(),
{
    broadcast use vstd::seq_lib::group_to_multiset_ensures;

    let ghost orig = groups@;
    let mut rest = groups;
    let mut out: Vec<DuplicateGroup> = Vec::new();
    while rest.len() > 0
        invariant
            sorted_by_wasted_desc(out@),
            out@.to_multiset().add(rest@.to_multiset()) == orig.to_multiset(),
        decreases rest@.len(),
    {
        let ghost rest_pre = rest@;
        let g = rest.remove(0);
        proof {
            broadcast use vstd::multiset::group_multiset_axioms;

            vstd::seq_lib::to_multiset_remove(rest_pre, 0);
            assert(rest_pre.contains(g));
            vstd::seq_lib::to_multiset_contains(rest_pre, g);
        }
        let mut idx: usize = 0;
        while idx < out.len() && out[idx].wasted_space >= g.wasted_space
            invariant
                idx <= out@.len(),
                forall|j: int| 0 <= j < idx ==> out@[j].wasted_space >= g.wasted_space,
            decreases out@.len() - idx,
        {
            idx = idx + 1;
        }
        let ghost out_pre = out@;
        out.insert(idx, g);
        proof {
            broadcast use vstd::multiset::group_multiset_axioms;
            broadcast use vstd::seq_lib::group_to_multiset_ensures;

            assert(out@ =~= out_pre.take(idx as int) + seq![g] + out_pre.skip(idx as int));
            assert(out_pre =~= out_pre.take(idx as int) + out_pre.skip(idx as int));
            vstd::seq_lib::lemma_multiset_commutative(
                out_pre.take(idx as int) + seq![g],
                out_pre.skip(idx as int),
            );
            vstd::seq_lib::lemma_multiset_commutative(out_pre.take(idx as int), seq![g]);
            vstd::seq_lib::lemma_multiset_commutative(
                out_pre.take(idx as int),
                out_pre.skip(idx as int),
            );
            assert(seq![g] =~= Seq::<DuplicateGroup>::empty().push(g));
            assert(Seq::<DuplicateGroup>::empty().to_multiset().len() == 0);
            assert(Seq::<DuplicateGroup>::empty().to_multiset() =~= Multiset::<
                DuplicateGroup,
            >::empty());
            assert(seq![g].to_multiset() =~= Multiset::<DuplicateGroup>::empty().insert(g));
            assert(out@.to_multiset() =~= out_pre.to_multiset().insert(g));
            assert(out@.to_multiset().add(rest@.to_multiset()) =~= orig.to_multiset());
            assert(idx < out@.len());
            assert forall|i: int, j: int| 0 <= i <= j < out@.len() implies out@[i].wasted_space
                >= out@[j].wasted_space by {
                if j >= idx && i < idx {
                    assert(out@[j] == out_pre[j - 1] || j == idx);
                } else if i > idx {
                    assert(out@[i] == out_pre[i - 1] && out@[j] == out_pre[j - 1]);
                } else if i == idx && j > idx {
                    assert(out@[j] == out_pre[j - 1]);
                    if idx < out_pre.len() {
                        assert(out_pre[idx as int].wasted_space < g.wasted_space);
                    }
                }
            }
        }
    }
    proof {
        broadcast use vstd::multiset::group_multiset_axioms;
        broadcast use vstd::seq_lib::group_to_multiset_ensures;

        assert(rest@.to_multiset().len() == 0);
        assert(rest@.to_multiset() =~= Multiset::<DuplicateGroup>::empty());
        assert(out@.to_multiset() =~= orig.to_multiset());
    }
    out
}

/// Keep only the size buckets that hold at least two files.
pub fn keep_plural_size_groups(groups: Vec<SizeGroup>) -> (r: Vec<SizeGroup>)
    ensures
        r@ == groups@.filter(|g: SizeGroup| g.files@.len() >= 2),
{
    let ghost orig = groups@;
    let ghost pred = |g: SizeGroup| g.files@.len() >= 2;
    let mut rest = groups;
    let mut out: Vec<SizeGroup> = Vec::new();
    let ghost k: int = 0;
    proof {
        assert(orig.take(0) =~= Seq::<SizeGroup>::empty());
        crate::seq_util::lemma_filter_empty(orig.take(0), pred);
        assert(rest@ =~= orig.skip(0));
    }
    while rest.len() > 0
        invariant
            0 <= k <= orig.len(),
            rest@ == orig.skip(k),
            out@ == orig.take(k).filter(|g: SizeGroup| g.files@.len() >= 2),
        decreases rest@.len(),
    {
        let g = rest.remove(0);
        proof {
            assert(orig.skip(k).remove(0) =~= orig.skip(k + 1));
            assert(g == orig[k]);
            assert(orig.take(k + 1) =~= orig.take(k).push(orig[k]));
            lemma_filter_push(orig.take(k), |x: SizeGroup| x.files@.len() >= 2, orig[k]);
        }
        if g.files.len() >= 2 {
            out.push(g);
        }
        proof {
            k = k + 1;
        }
    }
    proof {
        assert(orig.skip(k).len() == 0);
        assert(k == orig.len());
        assert(orig.take(orig.len() as int) =~= orig);
    }
    out
}

/// The path lies under one of the protected roots.
pub open spec fn under_protected(protected: Seq<String>, path: Seq<char>) -> bool {
    exists|i: int|
        0 <= i < protected.len() && crate::path_util::spec_is_subpath(protected[i]@, path)
}

/// The size passes the detector's size filter.
pub open spec fn size_in_range(options: DuplicateDetectorOptions, size: u64) -> bool {
    &&& size >= options.min_size
    &&& match options.max_size {
        Some(m) => size <= m,
        None => true,
    }
}

/// The running sum of group member counts, each step clamped at u64::MAX.
pub open spec fn sum_member_counts(groups: Seq<DuplicateGroup>) -> int
    decreases groups.len(),
{
    if groups.len() == 0 {
        0
    } else {
        clamp_add(sum_member_counts(groups.drop_last()), groups.last().files@.len() as int)
    }
}

/// The running sum of bytes held by each group, each step clamped.
pub open spec fn sum_group_bytes(groups: Seq<DuplicateGroup>) -> int
    decreases groups.len(),
{
    if groups.len() == 0 {
        0
    } else {
        clamp_add(
            sum_group_bytes(groups.drop_last()),
            groups.last().size * groups.last().files@.len(),
        )
    }
}

/// The running sum of wasted space, each step clamped.
pub open spec fn sum_wasted(groups: Seq<DuplicateGroup>) -> int
    decreases groups.len(),
{
    if groups.len() == 0 {
        0
    } else {
        clamp_add(sum_wasted(groups.drop_last()), groups.last().wasted_space as int)
    }
}

/// Addition saturating at u64::MAX.
pub open spec fn clamp_add(a: int, b: int) -> int {
    if a + b > u64::MAX {
        u64::MAX as int
    } else {
        a + b
    }
}

/// The record drawn from one traversal entry.
pub open spec fn record_of(e: FsEntry) -> FileRecord {
    FileRecord { path: e.path, size: e.size, modified_time: e.modified_time }
}

/// A record passed the candidate filter: its size is in range and it lies
/// under no protected root.
pub open spec fn candidate_ok(
    options: DuplicateDetectorOptions,
    protected: Seq<String>,
    rec: FileRecord,
) -> bool {
    size_in_range(options, rec.size) && !under_protected(protected, rec.path@)
}

/// A size bucket ready for hashing: two or more files, all of the bucket's
/// size, which is in range.
pub open spec fn bucket_ok(options: DuplicateDetectorOptions, g: SizeGroup) -> bool {
    &&& g.files@.len() >= 2
    &&& forall|j: int| 0 <= j < g.files@.len() ==> (#[trigger] g.files@[j]).size == g.size
    &&& size_in_range(options, g.size)
}

/// Every file of the key bucket has the given size.
pub open spec fn kgroup_sized(g: KeyGroup, size: u64) -> bool {
    forall|j: int| 0 <= j < g.files@.len() ==> (#[trigger] g.files@[j]).file.size == size
}

/// The record appears in the list.
pub open spec fn record_in(records: Seq<FileRecord>, rec: FileRecord) -> bool {
    exists|j: int| 0 <= j < records.len() && #[trigger] records[j] == rec
}

/// The path appears in the list of paths.
pub open spec fn path_from(files: Seq<String>, p: Seq<char>) -> bool {
    exists|j: int| 0 <= j < files.len() && (#[trigger] files[j])@ == p
}

/// The record appears among the keyed files.
pub open spec fn keyed_record_in(files: Seq<KeyedFile>, rec: FileRecord) -> bool {
    exists|j: int| 0 <= j < files.len() && (#[trigger] files[j]).file == rec
}

/// No two groups share both their size and their hash.
pub open spec fn groups_pairwise_distinct(gs: Seq<DuplicateGroup>) -> bool {
    forall|i: int, j: int|
        0 <= i < j < gs.len() ==> gs[i].size != gs[j].size || gs[i].hash@ != gs[j].hash@
}

/// Every file of the size bucket is drawn from the candidate list.
pub open spec fn bucket_members_in(cands: Seq<FileRecord>, g: SizeGroup) -> bool {
    forall|j: int| 0 <= j < g.files@.len() ==> record_in(cands, #[trigger] g.files@[j])
}

/// Every file of the key bucket is drawn from the candidate list.
pub open spec fn kgroup_members_in(cands: Seq<FileRecord>, g: KeyGroup) -> bool {
    forall|j: int| 0 <= j < g.files@.len() ==> record_in(cands, (#[trigger] g.files@[j]).file)
}

/// Buckets with pairwise distinct sizes keep them under a filter.
proof fn lemma_filter_keeps_distinct_sizes(s: Seq<SizeGroup>, pred: spec_fn(SizeGroup) -> bool)
    requires
        forall|i: int, j: int| 0 <= i < j < s.len() ==> s[i].size != s[j].size,
    ensures
        forall|i: int, j: int|
            0 <= i < j < s.filter(pred).len() ==> s.filter(pred)[i].size != s.filter(pred)[j].size,
    decreases s.len(),
{
    reveal(Seq::filter);
    if s.len() > 0 {
        let dl = s.drop_last();
        lemma_filter_keeps_distinct_sizes(dl, pred);
        crate::seq_util::lemma_filter_subset(dl, pred);
        assert forall|i: int, j: int|
            0 <= i < j < s.filter(pred).len() implies s.filter(pred)[i].size != s.filter(
            pred,
        )[j].size by {
            if pred(s.last()) && j == s.filter(pred).len() - 1 {
                assert(s.filter(pred)[i] == dl.filter(pred)[i]);
                assert(dl.contains(dl.filter(pred)[i]));
                let m = choose|m: int| 0 <= m < dl.len() && dl[m] == dl.filter(pred)[i];
                assert(s[m].size != s[s.len() - 1].size);
            }
        }
    }
}

/// Key buckets with pairwise distinct keys keep them under a filter.
proof fn lemma_filter_keeps_distinct_keys(s: Seq<KeyGroup>, pred: spec_fn(KeyGroup) -> bool)
    requires
        forall|i: int, j: int| 0 <= i < j < s.len() ==> s[i].key@ != s[j].key@,
    ensures
        forall|i: int, j: int|
            0 <= i < j < s.filter(pred).len() ==> s.filter(pred)[i].key@ != s.filter(
                pred,
            )[j].key@,
    decreases s.len(),
{
    reveal(Seq::filter);
    if s.len() > 0 {
        let dl = s.drop_last();
        lemma_filter_keeps_distinct_keys(dl, pred);
        crate::seq_util::lemma_filter_subset(dl, pred);
        assert forall|i: int, j: int|
            0 <= i < j < s.filter(pred).len() implies s.filter(pred)[i].key@ != s.filter(
            pred,
        )[j].key@ by {
            if pred(s.last()) && j == s.filter(pred).len() - 1 {
                assert(s.filter(pred)[i] == dl.filter(pred)[i]);
                assert(dl.contains(dl.filter(pred)[i]));
                let m = choose|m: int| 0 <= m < dl.len() && dl[m] == dl.filter(pred)[i];
                assert(s[m].key@ != s[s.len() - 1].key@);
            }
        }
    }
}

/// Two equal elements at distinct positions put the value twice in the
/// multiset.
proof fn lemma_dup_indices_count(s: Seq<DuplicateGroup>, i: int, j: int)
    requires
        0 <= i < j < s.len(),
        s[i] == s[j],
    ensures
        s.to_multiset().count(s[i]) >= 2,
{
    broadcast use vstd::seq_lib::group_to_multiset_ensures;

    vstd::seq_lib::to_multiset_remove(s, i);
    assert(s.remove(i)[j - 1] == s[j]);
    assert(s.remove(i).contains(s[i]));
    assert(s.remove(i).to_multiset().count(s[i]) > 0);
    assert(s.to_multiset().count(s[i]) == s.remove(i).to_multiset().count(s[i]) + 1);
}

/// A value the multiset holds twice sits at two distinct positions.
proof fn lemma_count2_gives_dup_indices(s: Seq<DuplicateGroup>, v: DuplicateGroup) -> (r: (int, int))
    requires
        s.to_multiset().count(v) >= 2,
    ensures
        0 <= r.0 < s.len(),
        0 <= r.1 < s.len(),
        r.0 != r.1,
        s[r.0] == v,
        s[r.1] == v,
{
    broadcast use vstd::seq_lib::group_to_multiset_ensures;

    assert(s.to_multiset().count(v) > 0);
    assert(s.contains(v));
    let m = choose|m: int| 0 <= m < s.len() && s[m] == v;
    vstd::seq_lib::to_multiset_remove(s, m);
    assert(s.remove(m).to_multiset().count(v) >= 1);
    assert(s.remove(m).contains(v));
    let m2 = choose|m2: int| 0 <= m2 < s.remove(m).len() && s.remove(m)[m2] == v;
    if m2 < m {
        (m, m2)
    } else {
        assert(s.remove(m)[m2] == s[m2 + 1]);
        (m, m2 + 1)
    }
}

/// A permutation of pairwise-distinct groups is pairwise distinct.
proof fn lemma_perm_preserves_distinct(a: Seq<DuplicateGroup>, b: Seq<DuplicateGroup>)
    requires
        a.to_multiset() == b.to_multiset(),
        groups_pairwise_distinct(a),
    ensures
        groups_pairwise_distinct(b),
{
    broadcast use vstd::seq_lib::group_to_multiset_ensures;

    assert forall|i: int, j: int| 0 <= i < j < b.len() implies b[i].size != b[j].size || b[i].hash@
        != b[j].hash@ by {
        if b[i].size == b[j].size && b[i].hash@ == b[j].hash@ {
            if b[i] == b[j] {
                lemma_dup_indices_count(b, i, j);
                let (m, m2) = lemma_count2_gives_dup_indices(a, b[i]);
                if m < m2 {
                    assert(a[m].size != a[m2].size || a[m].hash@ != a[m2].hash@);
                } else {
                    assert(a[m2].size != a[m].size || a[m2].hash@ != a[m].hash@);
                }
            } else {
                assert(b.contains(b[i]));
                assert(b.contains(b[j]));
                assert(a.to_multiset().count(b[i]) > 0);
                assert(a.to_multiset().count(b[j]) > 0);
                assert(a.contains(b[i]));
                assert(a.contains(b[j]));
                let m = choose|m: int| 0 <= m < a.len() && a[m] == b[i];
                let m2 = choose|m2: int| 0 <= m2 < a.len() && a[m2] == b[j];
                assert(m != m2);
                if m < m2 {
                    assert(a[m].size != a[m2].size || a[m].hash@ != a[m2].hash@);
                } else {
                    assert(a[m2].size != a[m].size || a[m2].hash@ != a[m].hash@);
                }
            }
        }
    }
}

/// The detector: its options, the shared hash calculator, and the protected
/// system roots that are never scanned.
pub struct DuplicateDetector {
    pub options: DuplicateDetectorOptions,
    pub hash_calculator: HashCalculator,
    pub protected_paths: Vec<String>,
}

impl DuplicateDetector {
    /// A detector with the default options.
    pub fn new() -> (r: DuplicateDetector)
        ensures
            r.options.min_size == 1048576,
            r.options.max_size is None,
            !r.options.include_hidden,
            r.options.use_cache,
    {
        Self::with_options(DuplicateDetectorOptions::default())
    }

    /// A detector with the given options; the hash cache follows
    /// `options.use_cache`.
    pub fn with_options(options: DuplicateDetectorOptions) -> (r: DuplicateDetector)
        ensures
            r.options == options,
            r.hash_calculator.spec_cache_enabled() == options.use_cache,
    {
        let use_cache = options.use_cache;
        DuplicateDetector {
            options,
            hash_calculator: HashCalculator::with_cache(use_cache),
            protected_paths: SystemPaths::get_protected_paths(),
        }
    }

    /// Drop every cached hash.
    pub fn clear_cache(&mut self)
        ensures
            final(self).hash_calculator.cache_view() == crate::hash::empty_cache_map(),
            final(self).options == old(self).options,
    {
        self.hash_calculator.clear_cache();
    }

    /// How many hashes are cached.
    pub fn cache_size(&self) -> (r: usize)
        ensures
            r == self.hash_calculator.cache_view().len(),
    {
        self.hash_calculator.cache_size()
    }

    /// Whether an entry is left out of the candidate set: under a protected
    /// root, outside the size range, or hidden while hidden files are out.
    pub open spec fn spec_should_skip(&self, path: Seq<char>, name: Seq<char>, size: u64) -> bool {
        ||| under_protected(self.protected_paths@, path)
        ||| !size_in_range(self.options, size)
        ||| (!self.options.include_hidden && name.len() > 0 && name[0] == '.')
    }

    /// The candidate filter on one traversal entry.
    pub fn should_skip(&self, entry: &FsEntry) -> (r: bool)
        ensures
            r == self.spec_should_skip(entry.path@, entry.name@, entry.size),
    {
        let mut i: usize = 0;
        while i < self.protected_paths.len()
            invariant
                i <= self.protected_paths@.len(),
                forall|j: int|
                    0 <= j < i ==> !crate::path_util::spec_is_subpath(
                        self.protected_paths@[j]@,
                        entry.path@,
                    ),
            decreases self.protected_paths@.len() - i,
        {
            if PathUtils::is_subpath(self.protected_paths[i].as_str(), entry.path.as_str()) {
                proof {
                    assert(under_protected(self.protected_paths@, entry.path@));
                }
                return true;
            }
            i = i + 1;
        }
        if entry.size < self.options.min_size {
            return true;
        }
        match self.options.max_size {
            Some(m) => {
                if entry.size > m {
                    return true;
                }
            },
            None => {},
        }
        if !self.options.include_hidden {
            let name = str_chars(entry.name.as_str());
            if name.len() > 0 && name[0] == '.' {
                return true;
            }
        }
        false
    }

    /// Exactly the offered regular files that pass the candidate filter,
    /// in order, as records.
    pub fn filter_candidates(&self, entries: Vec<FsEntry>) -> (r: Vec<FileRecord>)
        ensures
            r@ == entries@.filter(
                |e: FsEntry| e.is_file && !self.spec_should_skip(e.path@, e.name@, e.size),
            ).map_values(|e: FsEntry| record_of(e)),
            forall|i: int|
                0 <= i < r@.len() ==> candidate_ok(
                    self.options,
                    self.protected_paths@,
                    #[trigger] r@[i],
                ),
    {
        let ghost orig = entries@;
        let mut rest = entries;
        let mut out: Vec<FileRecord> = Vec::new();
        let ghost k: int = 0;
        proof {
            crate::seq_util::lemma_filter_empty(
                orig.take(0),
                |e: FsEntry| e.is_file && !self.spec_should_skip(e.path@, e.name@, e.size),
            );
            assert(orig.take(0) =~= Seq::<FsEntry>::empty());
            assert(out@ =~= orig.take(0).filter(
                |e: FsEntry| e.is_file && !self.spec_should_skip(e.path@, e.name@, e.size),
            ).map_values(|e: FsEntry| record_of(e)));
            assert(rest@ =~= orig.skip(0));
        }
        while rest.len() > 0
            invariant
                0 <= k <= orig.len(),
                rest@ == orig.skip(k),
                out@ == orig.take(k).filter(
                    |e: FsEntry| e.is_file && !self.spec_should_skip(e.path@, e.name@, e.size),
                ).map_values(|e: FsEntry| record_of(e)),
            decreases rest@.len(),
        {
            let entry = rest.remove(0);
            proof {
                assert(orig.skip(k).remove(0) =~= orig.skip(k + 1));
                assert(entry == orig[k]);
                assert(orig.take(k + 1) =~= orig.take(k).push(orig[k]));
                crate::seq_util::lemma_filter_push(
                    orig.take(k),
                    |e: FsEntry| e.is_file && !self.spec_should_skip(e.path@, e.name@, e.size),
                    orig[k],
                );
            }
            if entry.is_file && !self.should_skip(&entry) {
                let ghost e0 = orig[k];
                let rec = FileRecord {
                    path: entry.path,
                    size: entry.size,
                    modified_time: entry.modified_time,
                };
                proof {
                    assert(rec == record_of(e0));
                }
                out.push(rec);
                proof {
                    assert(orig.take(k).filter(
                        |e: FsEntry| e.is_file && !self.spec_should_skip(e.path@, e.name@, e.size),
                    ).push(e0).map_values(|e: FsEntry| record_of(e)) =~= orig.take(k).filter(
                        |e: FsEntry| e.is_file && !self.spec_should_skip(e.path@, e.name@, e.size),
                    ).map_values(|e: FsEntry| record_of(e)).push(record_of(e0)));
                }
            }
            proof {
                k = k + 1;
            }
        }
        proof {
            assert(orig.skip(k).len() == 0);
            assert(k == orig.len());
            assert(orig.take(orig.len() as int) =~= orig);
            assert forall|i: int| 0 <= i < out@.len() implies candidate_ok(
                self.options,
                self.protected_paths@,
                #[trigger] out@[i],
            ) by {
                orig.lemma_filter_pred(
                    |e: FsEntry| e.is_file && !self.spec_should_skip(e.path@, e.name@, e.size),
                    i,
                );
                assert(out@[i] == record_of(
                    orig.filter(
                        |e: FsEntry| e.is_file && !self.spec_should_skip(e.path@, e.name@, e.size),
                    )[i],
                ));
            }
        }
        out
    }

    /// Enumerate candidate files under the given roots: each root's offered
    /// entries go through `filter_candidates`; what a traversal offers, and
    /// which entries are readable at all, is the disk's.
    fn scan_files(&self, paths: &Vec<String>) -> (r: Vec<FileRecord>)
        ensures
            forall|i: int|
                0 <= i < r@.len() ==> candidate_ok(
                    self.options,
                    self.protected_paths@,
                    #[trigger] r@[i],
                ),
    {
        let mut records: Vec<FileRecord> = Vec::new();
        let mut p: usize = 0;
        while p < paths.len()
            invariant
                forall|i: int|
                    0 <= i < records@.len() ==> candidate_ok(
                        self.options,
                        self.protected_paths@,
                        #[trigger] records@[i],
                    ),
            decreases paths@.len() - p,
        {
            let entries = platform::walk_entries(&paths[p]);
            let mut part = self.filter_candidates(entries);
            records.append(&mut part);
            p = p + 1;
        }
        records
    }

    /// Key each file of one size bucket by the partial hash of its content;
    /// files that cannot be read in time are skipped. Every keyed file is
    /// drawn from the input bucket.
    fn partial_hash_bucket(&mut self, files: Vec<FileRecord>, size: u64) -> (r: Vec<KeyedFile>)
        requires
            forall|i: int| 0 <= i < files@.len() ==> files@[i].size == size,
        ensures
            forall|i: int| 0 <= i < r@.len() ==> (#[trigger] r@[i]).file.size == size,
            forall|i: int| 0 <= i < r@.len() ==> record_in(files@, (#[trigger] r@[i]).file),
            final(self).options == old(self).options,
            final(self).protected_paths == old(self).protected_paths,
    {
        let ghost orig = files@;
        let mut rest = files;
        let mut out: Vec<KeyedFile> = Vec::new();
        let ghost k: int = 0;
        proof {
            assert(rest@ =~= orig.skip(0));
        }
        while rest.len() > 0
            invariant
                0 <= k <= orig.len(),
                rest@ == orig.skip(k),
                forall|i: int| 0 <= i < orig.len() ==> (#[trigger] orig[i]).size == size,
                forall|i: int| 0 <= i < out@.len() ==> (#[trigger] out@[i]).file.size == size,
                forall|i: int| 0 <= i < out@.len() ==> record_in(orig, (#[trigger] out@[i]).file),
                self.options == old(self).options,
                self.protected_paths == old(self).protected_paths,
            decreases rest@.len(),
        {
            let f = rest.remove(0);
            proof {
                assert(orig.skip(k).remove(0) =~= orig.skip(k + 1));
                assert(f == orig[k]);
                assert(record_in(orig, f));
                k = k + 1;
            }
            match platform::read_file_with_timeout(&f.path, 30000) {
                FileReadOutcome::Data(data) => {
                    let hr = partial_hash_result(&data);
                    out.push(KeyedFile { key: hr.hash, file: f });
                },
                FileReadOutcome::TimedOut => {},
                FileReadOutcome::Failed => {},
            }
        }
        out
    }

    /// Re-key the files of one partial-hash bucket by their full hash; files
    /// that cannot be read in time are skipped. Every re-keyed file is drawn
    /// from the input bucket.
    fn full_hash_bucket(&mut self, files: Vec<KeyedFile>, size: u64) -> (r: Vec<KeyedFile>)
        requires
            forall|i: int| 0 <= i < files@.len() ==> (#[trigger] files@[i]).file.size == size,
        ensures
            forall|i: int| 0 <= i < r@.len() ==> (#[trigger] r@[i]).file.size == size,
            forall|i: int|
                0 <= i < r@.len() ==> keyed_record_in(files@, (#[trigger] r@[i]).file),
            final(self).options == old(self).options,
            final(self).protected_paths == old(self).protected_paths,
    {
        let ghost orig = files@;
        let mut rest = files;
        let mut out: Vec<KeyedFile> = Vec::new();
        let ghost k: int = 0;
        proof {
            assert(rest@ =~= orig.skip(0));
        }
        while rest.len() > 0
            invariant
                0 <= k <= orig.len(),
                rest@ == orig.skip(k),
                forall|i: int| 0 <= i < orig.len() ==> (#[trigger] orig[i]).file.size == size,
                forall|i: int| 0 <= i < out@.len() ==> (#[trigger] out@[i]).file.size == size,
                forall|i: int|
                    0 <= i < out@.len() ==> keyed_record_in(orig, (#[trigger] out@[i]).file),
                self.options == old(self).options,
                self.protected_paths == old(self).protected_paths,
            decreases rest@.len(),
        {
            let kf = rest.remove(0);
            proof {
                assert(orig.skip(k).remove(0) =~= orig.skip(k + 1));
                assert(kf == orig[k]);
                assert(keyed_record_in(orig, kf.file));
                k = k + 1;
            }
            match self.hash_calculator.calculate_file_hash(&kf.file.path) {
                Ok(hr) => {
                    out.push(KeyedFile { key: hr.hash, file: kf.file });
                },
                Err(_) => {},
            }
        }
        out
    }

    /// Turn one full-hash bucket of two or more same-size files into a
    /// DuplicateGroup: members in traversal order, the earliest-modified one
    /// marked as the original, wasted space size times (count - 1). Only a
    /// group whose wasted space exceeds u64::MAX is dropped.
    fn build_group(&self, group: KeyGroup, size: u64) -> (r: Option<DuplicateGroup>)
        requires
            group.files@.len() >= 2,
            forall|i: int| 0 <= i < group.files@.len() ==> (#[trigger] group.files@[i]).file.size == size,
        ensures
            match r {
                Some(dg) => wf_group(dg) && dg.size == size && dg.hash == group.key
                    && dg.files@.len() == group.files@.len() && (forall|k: int|
                    0 <= k < dg.files@.len() ==> (#[trigger] dg.files@[k]).path
                        == group.files@[k].file.path && dg.files@[k].modified_time
                        == group.files@[k].file.modified_time),
                None => size * (group.files@.len() - 1) > u64::MAX,
            },
    {
        let n = group.files.len();
        proof {
            assert(n >= 2);
            assert((size as int) * ((n - 1) as int) < 0x100000000000000000000000000000000int)
                by (nonlinear_arith)
                requires
                    size <= u64::MAX,
                    0 <= n - 1 <= usize::MAX,
            ;
        }
        let wasted_wide: u128 = (size as u128) * ((n - 1) as u128);
        if wasted_wide > 0xffff_ffff_ffff_ffff_u128 {
            return None;
        }
        let wasted: u64 = wasted_wide as u64;
        let first_ext = match PathUtils::get_extension(group.files[0].file.path.as_str()) {
            Some(e) => e,
            None => String::new(),
        };
        let file_type = get_file_type(first_ext.as_str());
        let ghost members = group.files@;
        let mut rest = group.files;
        let mut dup_files: Vec<DuplicateFile> = Vec::new();
        let ghost k: int = 0;
        proof {
            assert(rest@ =~= members.skip(0));
        }
        while rest.len() > 0
            invariant
                0 <= k <= members.len(),
                rest@ == members.skip(k),
                dup_files@.len() == k,
                forall|j: int| 0 <= j < dup_files@.len() ==> !(#[trigger] dup_files@[j]).is_original,
                forall|j: int|
                    0 <= j < dup_files@.len() ==> (#[trigger] dup_files@[j]).path
                        == members[j].file.path && dup_files@[j].modified_time
                        == members[j].file.modified_time,
            decreases rest@.len(),
        {
            let kf = rest.remove(0);
            proof {
                assert(members.skip(k).remove(0) =~= members.skip(k + 1));
                assert(kf == members[k]);
                k = k + 1;
            }
            let name = match PathUtils::get_filename(kf.file.path.as_str()) {
                Some(n) => n,
                None => String::new(),
            };
            dup_files.push(
                DuplicateFile {
                    path: kf.file.path,
                    name,
                    modified_time: kf.file.modified_time,
                    is_original: false,
                },
            );
        }
        proof {
            assert(members.skip(k).len() == 0);
            assert(k == members.len());
        }
        mark_original(&mut dup_files);
        Some(
            DuplicateGroup { hash: group.key, size, files: dup_files, wasted_space: wasted, file_type },
        )
    }

    /// Find all groups of byte-identical files under the given roots.
    ///
    /// Every returned group is well formed (two or more members, exact
    /// wasted space, exactly one original, the earliest-modified member),
    /// lies within the configured size range, and the groups come sorted by
    /// wasted space, largest first. The totals are the clamped sums over the
    /// groups.
    pub fn find_duplicates(&mut self, paths: &Vec<String>) -> (r: DuplicateAnalysisResult)
        ensures
            forall|i: int| 0 <= i < r.groups@.len() ==> wf_group(#[trigger] r.groups@[i]),
            forall|i: int|
                0 <= i < r.groups@.len() ==> size_in_range(
                    old(self).options,
                    (#[trigger] r.groups@[i]).size,
                ),
            forall|i: int, k: int|
                0 <= i < r.groups@.len() && 0 <= k < r.groups@[i].files@.len()
                    ==> !under_protected(
                    old(self).protected_paths@,
                    (#[trigger] r.groups@[i].files@[k]).path@,
                ),
            groups_pairwise_distinct(r.groups@),
            sorted_by_wasted_desc(r.groups@),
            r.total_groups == r.groups@.len(),
            r.total_files == sum_member_counts(r.groups@),
            r.total_size == sum_group_bytes(r.groups@),
            r.wasted_space == sum_wasted(r.groups@),
            final(self).options == old(self).options,
    {
        broadcast use vstd::seq_lib::group_to_multiset_ensures;

        let start_time = platform::now_millis();
        let records = self.scan_files(paths);
        let ghost cands = records@;
        let size_groups = group_by_size(&records);
        let plural = keep_plural_size_groups(size_groups);
        proof {
            let ppred = |g: SizeGroup| g.files@.len() >= 2;
            crate::seq_util::lemma_filter_subset(size_groups@, ppred);
            lemma_filter_keeps_distinct_sizes(size_groups@, ppred);
            assert forall|i: int| 0 <= i < plural@.len() implies bucket_ok(
                old(self).options,
                #[trigger] plural@[i],
            ) && bucket_members_in(cands, plural@[i]) by {
                size_groups@.lemma_filter_pred(ppred, i);
                assert(size_groups@.contains(plural@[i]));
                let gj = choose|gj: int|
                    0 <= gj < size_groups@.len() && size_groups@[gj] == plural@[i];
                let szpred = |f: FileRecord| f.size == size_groups@[gj].size;
                assert(plural@[i].files@ == records@.filter(szpred));
                crate::seq_util::lemma_filter_subset(records@, szpred);
                assert forall|j: int| 0 <= j < plural@[i].files@.len() implies (
                #[trigger] plural@[i].files@[j]).size == plural@[i].size && record_in(
                    cands,
                    plural@[i].files@[j],
                ) by {
                    records@.lemma_filter_pred(szpred, j);
                    assert(records@.contains(plural@[i].files@[j]));
                    let m = choose|m: int|
                        0 <= m < records@.len() && records@[m] == plural@[i].files@[j];
                    assert(record_in(cands, plural@[i].files@[j]));
                }
                assert(records@.contains(plural@[i].files@[0]));
                let m = choose|m: int|
                    0 <= m < records@.len() && records@[m] == plural@[i].files@[0];
                assert(candidate_ok(self.options, self.protected_paths@, records@[m]));
                assert(plural@[i].files@[0].size == plural@[i].size);
            }
        }
        let mut built: Vec<DuplicateGroup> = Vec::new();
        let mut rest = plural;
        while rest.len() > 0
            invariant
                forall|i: int| 0 <= i < built@.len() ==> wf_group(#[trigger] built@[i]),
                forall|i: int|
                    0 <= i < built@.len() ==> size_in_range(
                        old(self).options,
                        (#[trigger] built@[i]).size,
                    ),
                forall|i: int, k: int|
                    0 <= i < built@.len() && 0 <= k < built@[i].files@.len() ==> !under_protected(
                        old(self).protected_paths@,
                        (#[trigger] built@[i].files@[k]).path@,
                    ),
                groups_pairwise_distinct(built@),
                forall|i: int|
                    0 <= i < rest@.len() ==> bucket_ok(old(self).options, #[trigger] rest@[i])
                        && bucket_members_in(cands, rest@[i]),
                forall|i: int, j: int| 0 <= i < j < rest@.len() ==> rest@[i].size != rest@[j].size,
                forall|i: int, j: int|
                    0 <= i < built@.len() && 0 <= j < rest@.len() ==> (#[trigger] built@[i]).size
                        != (#[trigger] rest@[j]).size,
                forall|i: int|
                    0 <= i < cands.len() ==> candidate_ok(
                        old(self).options,
                        old(self).protected_paths@,
                        #[trigger] cands[i],
                    ),
                self.options == old(self).options,
                self.protected_paths == old(self).protected_paths,
            decreases rest@.len(),
        {
            let ghost rest_pre = rest@;
            let bucket = rest.remove(0);
            proof {
                assert(bucket_ok(old(self).options, bucket));
                assert(bucket_members_in(cands, bucket));
            }
            let size = bucket.size;
            proof {
                assert forall|j: int| 0 <= j < rest@.len() implies (#[trigger] rest@[j]).size
                    != size by {
                    assert(rest@[j] == rest_pre[j + 1]);
                }
            }
            let ghost bfiles = bucket.files@;
            let keyed = self.partial_hash_bucket(bucket.files, size);
            proof {
                assert forall|i: int| 0 <= i < keyed@.len() implies record_in(
                    cands,
                    (#[trigger] keyed@[i]).file,
                ) by {
                    assert(record_in(bfiles, keyed@[i].file));
                    let m = choose|m: int| 0 <= m < bfiles.len() && bfiles[m] == keyed@[i].file;
                    assert(record_in(cands, bfiles[m]));
                }
            }
            let kgroups = group_by_key(keyed);
            let pgroups = keep_plural_groups(kgroups);
            proof {
                let ppred = |g: KeyGroup| g.files@.len() >= 2;
                crate::seq_util::lemma_filter_subset(kgroups@, ppred);
                assert forall|i: int| 0 <= i < pgroups@.len() implies kgroup_sized(
                    #[trigger] pgroups@[i],
                    size,
                ) && kgroup_members_in(cands, pgroups@[i]) by {
                    assert(kgroups@.contains(pgroups@[i]));
                    let gj = choose|gj: int|
                        0 <= gj < kgroups@.len() && kgroups@[gj] == pgroups@[i];
                    let kpred = |x: KeyedFile| x.key@ == kgroups@[gj].key@;
                    assert(pgroups@[i].files@ == keyed@.filter(kpred));
                    crate::seq_util::lemma_filter_subset(keyed@, kpred);
                    assert forall|j: int| 0 <= j < pgroups@[i].files@.len() implies (
                    #[trigger] pgroups@[i].files@[j]).file.size == size && record_in(
                        cands,
                        pgroups@[i].files@[j].file,
                    ) by {
                        assert(keyed@.contains(pgroups@[i].files@[j]));
                        let m = choose|m: int|
                            0 <= m < keyed@.len() && keyed@[m] == pgroups@[i].files@[j];
                        assert(record_in(cands, keyed@[m].file));
                    }
                }
            }
            let mut full_all: Vec<KeyedFile> = Vec::new();
            let mut prest = pgroups;
            while prest.len() > 0
                invariant
                    forall|i: int| 0 <= i < full_all@.len() ==> (#[trigger] full_all@[i]).file.size == size,
                    forall|i: int|
                        0 <= i < full_all@.len() ==> record_in(
                            cands,
                            (#[trigger] full_all@[i]).file,
                        ),
                    forall|i: int|
                        0 <= i < prest@.len() ==> kgroup_sized(#[trigger] prest@[i], size)
                            && kgroup_members_in(cands, prest@[i]),
                    self.options == old(self).options,
                    self.protected_paths == old(self).protected_paths,
                decreases prest@.len(),
            {
                let pg = prest.remove(0);
                proof {
                    assert(kgroup_sized(pg, size));
                    assert(kgroup_members_in(cands, pg));
                }
                let ghost pgfiles = pg.files@;
                let full_part = self.full_hash_bucket(pg.files, size);
                let ghost fporig = full_part@;
                let mut fa_rest = full_part;
                let ghost fk: int = 0;
                proof {
                    assert(fa_rest@ =~= fporig.skip(0));
                }
                while fa_rest.len() > 0
                    invariant
                        0 <= fk <= fporig.len(),
                        fa_rest@ == fporig.skip(fk),
                        forall|i: int|
                            0 <= i < fporig.len() ==> (#[trigger] fporig[i]).file.size == size
                                && keyed_record_in(pgfiles, fporig[i].file),
                        forall|i: int|
                            0 <= i < pgfiles.len() ==> record_in(
                                cands,
                                (#[trigger] pgfiles[i]).file,
                            ),
                        forall|i: int|
                            0 <= i < full_all@.len() ==> (#[trigger] full_all@[i]).file.size
                                == size,
                        forall|i: int|
                            0 <= i < full_all@.len() ==> record_in(
                                cands,
                                (#[trigger] full_all@[i]).file,
                            ),
                    decreases fa_rest@.len(),
                {
                    let kf = fa_rest.remove(0);
                    proof {
                        assert(fporig.skip(fk).remove(0) =~= fporig.skip(fk + 1));
                        assert(kf == fporig[fk]);
                        assert(keyed_record_in(pgfiles, kf.file));
                        let m = choose|m: int|
                            0 <= m < pgfiles.len() && (#[trigger] pgfiles[m]).file == kf.file;
                        assert(record_in(cands, pgfiles[m].file));
                        fk = fk + 1;
                    }
                    full_all.push(kf);
                }
            }
            let fkgroups = group_by_key(full_all);
            let fgroups = keep_plural_groups(fkgroups);
            proof {
                let ppred = |g: KeyGroup| g.files@.len() >= 2;
                crate::seq_util::lemma_filter_subset(fkgroups@, ppred);
                lemma_filter_keeps_distinct_keys(fkgroups@, ppred);
                assert forall|i: int| 0 <= i < fgroups@.len() implies kgroup_sized(
                    #[trigger] fgroups@[i],
                    size,
                ) && fgroups@[i].files@.len() >= 2 && kgroup_members_in(cands, fgroups@[i]) by {
                    fkgroups@.lemma_filter_pred(ppred, i);
                    assert(fkgroups@.contains(fgroups@[i]));
                    let gj = choose|gj: int|
                        0 <= gj < fkgroups@.len() && fkgroups@[gj] == fgroups@[i];
                    let kpred = |x: KeyedFile| x.key@ == fkgroups@[gj].key@;
                    assert(fgroups@[i].files@ == full_all@.filter(kpred));
                    crate::seq_util::lemma_filter_subset(full_all@, kpred);
                    assert forall|j: int| 0 <= j < fgroups@[i].files@.len() implies (
                    #[trigger] fgroups@[i].files@[j]).file.size == size && record_in(
                        cands,
                        fgroups@[i].files@[j].file,
                    ) by {
                        assert(full_all@.contains(fgroups@[i].files@[j]));
                        let m = choose|m: int|
                            0 <= m < full_all@.len() && full_all@[m] == fgroups@[i].files@[j];
                        assert(record_in(cands, full_all@[m].file));
                    }
                }
            }
            let mut frest = fgroups;
            while frest.len() > 0
                invariant
                    forall|i: int| 0 <= i < built@.len() ==> wf_group(#[trigger] built@[i]),
                    forall|i: int|
                        0 <= i < built@.len() ==> size_in_range(
                            old(self).options,
                            (#[trigger] built@[i]).size,
                        ),
                    forall|i: int, k: int|
                        0 <= i < built@.len() && 0 <= k < built@[i].files@.len()
                            ==> !under_protected(
                            old(self).protected_paths@,
                            (#[trigger] built@[i].files@[k]).path@,
                        ),
                    groups_pairwise_distinct(built@),
                    forall|i: int, j: int|
                        0 <= i < built@.len() && 0 <= j < rest@.len() ==> (
                        #[trigger] built@[i]).size != (#[trigger] rest@[j]).size,
                    forall|i: int, j: int|
                        0 <= i < built@.len() && 0 <= j < frest@.len() && (
                        #[trigger] built@[i]).size == size ==> built@[i].hash@ != (
                        #[trigger] frest@[j]).key@,
                    forall|i: int, j: int| 0 <= i < j < frest@.len() ==> frest@[i].key@ != frest@[j].key@,
                    forall|i: int|
                        0 <= i < frest@.len() ==> kgroup_sized(#[trigger] frest@[i], size)
                            && frest@[i].files@.len() >= 2 && kgroup_members_in(
                            cands,
                            frest@[i],
                        ),
                    forall|i: int, j: int| 0 <= i < j < rest@.len() ==> rest@[i].size != rest@[j].size,
                    forall|j: int| 0 <= j < rest@.len() ==> (#[trigger] rest@[j]).size != size,
                    forall|i: int|
                        0 <= i < rest@.len() ==> bucket_ok(old(self).options, #[trigger] rest@[i])
                            && bucket_members_in(cands, rest@[i]),
                    forall|i: int|
                        0 <= i < cands.len() ==> candidate_ok(
                            old(self).options,
                            old(self).protected_paths@,
                            #[trigger] cands[i],
                        ),
                    size_in_range(old(self).options, size),
                    self.options == old(self).options,
                    self.protected_paths == old(self).protected_paths,
                decreases frest@.len(),
            {
                let ghost frest_pre = frest@;
                let fg = frest.remove(0);
                proof {
                    assert(kgroup_sized(fg, size) && fg.files@.len() >= 2);
                    assert(kgroup_members_in(cands, fg));
                }
                match self.build_group(fg, size) {
                    Some(dg) => {
                        proof {
                            assert forall|k: int| 0 <= k < dg.files@.len() implies !under_protected(
                                old(self).protected_paths@,
                                (#[trigger] dg.files@[k]).path@,
                            ) by {
                                assert(dg.files@[k].path == fg.files@[k].file.path);
                                assert(record_in(cands, fg.files@[k].file));
                                let m = choose|m: int|
                                    0 <= m < cands.len() && #[trigger] cands[m] == fg.files@[
                                    k].file;
                                assert(candidate_ok(
                                    old(self).options,
                                    old(self).protected_paths@,
                                    cands[m],
                                ));
                            }
                            assert(dg.hash == fg.key);
                            assert(dg.size == size);
                        }
                        built.push(dg);
                    },
                    None => {},
                }
            }
        }
        let sorted = sort_groups_by_wasted(built);
        proof {
            lemma_perm_preserves_distinct(built@, sorted@);
            assert forall|i: int| 0 <= i < sorted@.len() implies wf_group(#[trigger] sorted@[i])
                && size_in_range(old(self).options, sorted@[i].size) && (forall|k: int|
                0 <= k < sorted@[i].files@.len() ==> !under_protected(
                    old(self).protected_paths@,
                    (#[trigger] sorted@[i].files@[k]).path@,
                )) by {
                assert(sorted@.contains(sorted@[i]));
                assert(sorted@.to_multiset().count(sorted@[i]) > 0);
                let j = choose|j: int| 0 <= j < built@.len() && built@[j] == sorted@[i];
            }
        }
        let (total_files, total_size, wasted_space) = sum_totals(&sorted);
        let end_time = platform::now_millis();
        let duration_ms = if end_time >= start_time {
            end_time - start_time
        } else {
            0
        };
        let total_groups = sorted.len() as u64;
        DuplicateAnalysisResult {
            scan_id: platform::new_scan_uuid(),
            total_groups,
            total_files,
            total_size,
            wasted_space,
            groups: sorted,
            duration_ms,
        }
    }
}

/// The deletion-suggestion score of one group member: temp and download
/// locations gain points, desktop and document locations lose points, and
/// the marked original is always protected.
pub open spec fn spec_delete_score(f: DuplicateFile) -> int {
    let p = crate::text::lower_chars(f.path@);
    (if crate::text::contains_chars_seq(p, "\\temp\\"@) {
        50int
    } else {
        0int
    }) + (if crate::text::contains_chars_seq(p, "\\downloads\\"@) {
        30int
    } else {
        0int
    }) + (if crate::text::contains_chars_seq(p, "\\desktop\\"@) {
        -20int
    } else {
        0int
    }) + (if crate::text::contains_chars_seq(p, "\\documents\\"@) {
        -30int
    } else {
        0int
    }) + (if f.is_original {
        -100int
    } else {
        0int
    })
}

/// Member `e` is the one a suggestion keeps: the first member marked as the
/// original when one is marked — the detected original is always protected —
/// else the highest-scoring member with a negative score (earliest on
/// ties), else the first member.
pub open spec fn is_kept_member(files: Seq<DuplicateFile>, e: int) -> bool {
    if exists|i: int| 0 <= i < files.len() && (#[trigger] files[i]).is_original {
        &&& 0 <= e < files.len()
        &&& files[e].is_original
        &&& forall|j: int| 0 <= j < e ==> !(#[trigger] files[j]).is_original
    } else {
        ||| {
            &&& 0 <= e < files.len()
            &&& spec_delete_score(files[e]) < 0
            &&& forall|j: int|
                0 <= j < files.len() && spec_delete_score(#[trigger] files[j]) < 0
                    ==> spec_delete_score(files[j]) <= spec_delete_score(files[e])
            &&& forall|j: int|
                0 <= j < e ==> spec_delete_score(#[trigger] files[j]) >= 0 || spec_delete_score(
                    files[j],
                ) < spec_delete_score(files[e])
        }
        ||| {
            &&& e == 0
            &&& forall|j: int| 0 <= j < files.len() ==> spec_delete_score(#[trigger] files[j]) >= 0
        }
    }
}

impl DuplicateDetector {
    /// The deletion-suggestion score of one member.
    pub fn calculate_delete_score(&self, file: &DuplicateFile) -> (r: i32)
        ensures
            r == spec_delete_score(*file),
    {
        let chars = str_chars(file.path.as_str());
        let p = crate::text::to_lower_chars(chars.as_slice());
        let temp_pat = str_chars("\\temp\\");
        let down_pat = str_chars("\\downloads\\");
        let desk_pat = str_chars("\\desktop\\");
        let docs_pat = str_chars("\\documents\\");
        let mut score: i32 = 0;
        if crate::text::contains_chars(p.as_slice(), temp_pat.as_slice()) {
            score = score + 50;
        }
        if crate::text::contains_chars(p.as_slice(), down_pat.as_slice()) {
            score = score + 30;
        }
        if crate::text::contains_chars(p.as_slice(), desk_pat.as_slice()) {
            score = score - 20;
        }
        if crate::text::contains_chars(p.as_slice(), docs_pat.as_slice()) {
            score = score - 30;
        }
        if file.is_original {
            score = score - 100;
        }
        score
    }

    /// The index of the member a suggestion keeps.
    fn kept_member_index(&self, group: &DuplicateGroup) -> (r: usize)
        requires
            group.files@.len() >= 1,
        ensures
            is_kept_member(group.files@, r as int),
    {
        let mut oi: usize = 0;
        while oi < group.files.len()
            invariant
                oi <= group.files@.len(),
                forall|j: int| 0 <= j < oi ==> !(#[trigger] group.files@[j]).is_original,
            decreases group.files@.len() - oi,
        {
            if group.files[oi].is_original {
                proof {
                    assert((#[trigger] group.files@[oi as int]).is_original);
                }
                return oi;
            }
            oi = oi + 1;
        }
        proof {
            assert(forall|i: int|
                0 <= i < group.files@.len() ==> !(#[trigger] group.files@[i]).is_original);
        }
        let mut exc: usize = 0;
        let mut found_neg = false;
        let mut best_score: i32 = 0;
        let mut i: usize = 0;
        while i < group.files.len()
            invariant
                i <= group.files@.len(),
                forall|j: int|
                    0 <= j < group.files@.len() ==> !(#[trigger] group.files@[j]).is_original,
                found_neg ==> exc < i && spec_delete_score(group.files@[exc as int]) == best_score
                    && best_score < 0 && (forall|j: int|
                    0 <= j < i && spec_delete_score(#[trigger] group.files@[j]) < 0
                        ==> spec_delete_score(group.files@[j]) <= best_score) && (forall|j: int|
                    0 <= j < exc ==> spec_delete_score(#[trigger] group.files@[j]) >= 0
                        || spec_delete_score(group.files@[j]) < best_score),
                !found_neg ==> exc == 0 && forall|j: int|
                    0 <= j < i ==> spec_delete_score(#[trigger] group.files@[j]) >= 0,
            decreases group.files@.len() - i,
        {
            let s = self.calculate_delete_score(&group.files[i]);
            if s < 0 && (!found_neg || s > best_score) {
                exc = i;
                best_score = s;
                found_neg = true;
            }
            i = i + 1;
        }
        exc
    }

    /// The paths a suggestion offers for deletion: every member except the
    /// kept one, in traversal order.
    pub fn suggest_files_to_delete(&self, group: &DuplicateGroup) -> (r: Vec<String>)
        ensures
            group.files@.len() < 2 ==> r@.len() == 0,
            group.files@.len() >= 2 ==> exists|e: int|
                {
                    &&& #[trigger] is_kept_member(group.files@, e)
                    &&& r@.len() == group.files@.len() - 1
                    &&& forall|i: int| 0 <= i < e ==> (#[trigger] r@[i])@ == group.files@[i].path@
                    &&& forall|i: int|
                        e <= i < r@.len() ==> (#[trigger] r@[i])@ == group.files@[i + 1].path@
                },
    {
        if group.files.len() < 2 {
            return Vec::new();
        }
        let exc = self.kept_member_index(group);
        let mut out: Vec<String> = Vec::new();
        let mut i: usize = 0;
        while i < group.files.len()
            invariant
                i <= group.files@.len(),
                exc < group.files@.len(),
                i <= exc ==> out@.len() == i,
                i > exc ==> out@.len() == i - 1,
                forall|j: int| 0 <= j < exc && j < i ==> (#[trigger] out@[j])@ == group.files@[j].path@,
                forall|j: int|
                    exc <= j < out@.len() ==> (#[trigger] out@[j])@ == group.files@[j + 1].path@,
            decreases group.files@.len() - i,
        {
            if i != exc {
                out.push(group.files[i].path.clone());
            }
            i = i + 1;
        }
        proof {
            assert(is_kept_member(group.files@, exc as int));
        }
        out
    }

    /// The member marked as the original, when one is marked: the first such
    /// member.
    pub fn suggest_original<'a>(&self, group: &'a DuplicateGroup) -> (r: Option<&'a DuplicateFile>)
        ensures
            match r {
                Some(f) => exists|i: int|
                    0 <= i < group.files@.len() && *f == group.files@[i] && f.is_original && (forall|
                        j: int,
                    | 0 <= j < i ==> !(#[trigger] group.files@[j]).is_original),
                None => forall|j: int|
                    0 <= j < group.files@.len() ==> !(#[trigger] group.files@[j]).is_original,
            },
    {
        let mut i: usize = 0;
        while i < group.files.len()
            invariant
                i <= group.files@.len(),
                forall|j: int| 0 <= j < i ==> !(#[trigger] group.files@[j]).is_original,
            decreases group.files@.len() - i,
        {
            if group.files[i].is_original {
                return Some(&group.files[i]);
            }
            i = i + 1;
        }
        None
    }

    /// Compare two files cheaply: equal sizes first, then partial hashes,
    /// then full hashes. A file that cannot be read compares unequal. What
    /// the size lookups and reads return is outside; each comparison of the
    /// returned hash results is `crate::hash::hashes_equal`, whose contract
    /// fixes it exactly.
    pub fn quick_compare(&mut self, path1: &String, path2: &String) -> (r: bool)
        ensures
            final(self).options == old(self).options,
            final(self).protected_paths == old(self).protected_paths,
    {
        let meta1 = match platform::lookup_entry(path1) {
            Some(m) => m,
            None => {
                return false;
            },
        };
        let meta2 = match platform::lookup_entry(path2) {
            Some(m) => m,
            None => {
                return false;
            },
        };
        if meta1.size != meta2.size {
            return false;
        }
        match self.hash_calculator.quick_compare(path1, path2) {
            Ok(b) => b,
            Err(_) => false,
        }
    }

    /// Group a flat list of paths by pairwise quick comparison; every
    /// returned group holds at least two paths, each drawn from the input
    /// list.
    pub fn batch_quick_compare(&mut self, files: &Vec<String>) -> (r: Vec<Vec<String>>)
        ensures
            forall|i: int| 0 <= i < r@.len() ==> (#[trigger] r@[i])@.len() >= 2,
            forall|i: int, k: int|
                0 <= i < r@.len() && 0 <= k < r@[i]@.len() ==> path_from(
                    files@,
                    (#[trigger] r@[i]@[k])@,
                ),
            final(self).options == old(self).options,
            final(self).protected_paths == old(self).protected_paths,
    {
        let n = files.len();
        if n < 2 {
            return Vec::new();
        }
        let mut groups: Vec<Vec<String>> = Vec::new();
        let mut processed: Vec<bool> = vec![false; n];
        let mut i: usize = 0;
        while i < n
            invariant
                processed@.len() == n,
                n == files@.len(),
                forall|k: int| 0 <= k < groups@.len() ==> (#[trigger] groups@[k])@.len() >= 2,
                forall|k: int, m: int|
                    0 <= k < groups@.len() && 0 <= m < groups@[k]@.len() ==> path_from(
                        files@,
                        (#[trigger] groups@[k]@[m])@,
                    ),
                self.options == old(self).options,
                self.protected_paths == old(self).protected_paths,
            decreases n - i,
        {
            if !processed[i] {
                let mut group: Vec<String> = Vec::new();
                group.push(files[i].clone());
                proof {
                    assert((#[trigger] files@[i as int])@ == group@.last()@);
                    assert(path_from(files@, group@.last()@));
                }
                *vec_index_mut(&mut processed, i) = true;
                let mut j = i + 1;
                while j < n
                    invariant
                        i < n,
                        processed@.len() == n,
                        n == files@.len(),
                        group@.len() >= 1,
                        forall|m: int|
                            0 <= m < group@.len() ==> path_from(files@, (#[trigger] group@[m])@),
                        self.options == old(self).options,
                        self.protected_paths == old(self).protected_paths,
                    decreases n - j,
                {
                    if !processed[j] {
                        if self.quick_compare(&files[i], &files[j]) {
                            group.push(files[j].clone());
                            proof {
                                assert((#[trigger] files@[j as int])@ == group@.last()@);
                                assert(path_from(files@, group@.last()@));
                            }
                            *vec_index_mut(&mut processed, j) = true;
                        }
                    }
                    j = j + 1;
                }
                if group.len() >= 2 {
                    groups.push(group);
                }
            }
            i = i + 1;
        }
        groups
    }
}

/// The clamped totals over a list of groups: member count, bytes held and
/// wasted space.
fn sum_totals(groups: &Vec<DuplicateGroup>) -> (r: (u64, u64, u64))
    ensures
        r.0 == sum_member_counts(groups@),
        r.1 == sum_group_bytes(groups@),
        r.2 == sum_wasted(groups@),
{
    let max: u64 = 0xffff_ffff_ffff_ffff_u64;
    let mut files: u64 = 0;
    let mut bytes: u64 = 0;
    let mut wasted: u64 = 0;
    let mut i: usize = 0;
    proof {
        assert(groups@.take(0) =~= Seq::<DuplicateGroup>::empty());
    }
    while i < groups.len()
        invariant
            i <= groups@.len(),
            max == u64::MAX,
            files == sum_member_counts(groups@.take(i as int)),
            bytes == sum_group_bytes(groups@.take(i as int)),
            wasted == sum_wasted(groups@.take(i as int)),
        decreases groups@.len() - i,
    {
        let g = &groups[i];
        let count = g.files.len() as u64;
        files = if files as u128 + count as u128 > max as u128 {
            max
        } else {
            files + count
        };
        proof {
            assert((g.size as int) * (count as int) < 0x100000000000000000000000000000000int
                && (bytes as int) + (g.size as int) * (count as int)
                < 0x100000000000000000000000000000000int) by (nonlinear_arith)
                requires
                    g.size <= u64::MAX,
                    count <= u64::MAX,
                    bytes <= u64::MAX,
            ;
        }
        let held: u128 = (g.size as u128) * (count as u128);
        bytes = if bytes as u128 + held > max as u128 {
            max
        } else {
            bytes + held as u64
        };
        wasted = if wasted as u128 + g.wasted_space as u128 > max as u128 {
            max
        } else {
            wasted + g.wasted_space
        };
        i = i + 1;
        proof {
            assert(groups@.take(i as int).drop_last() =~= groups@.take(i - 1));
            assert(groups@.take(i as int).last() == groups@[i - 1]);
            assert(count as int == groups@[i - 1].files@.len() as int);
            assert(sum_member_counts(groups@.take(i as int)) == clamp_add(
                sum_member_counts(groups@.take(i - 1)),
                groups@[i - 1].files@.len() as int,
            ));
            assert(sum_group_bytes(groups@.take(i as int)) == clamp_add(
                sum_group_bytes(groups@.take(i - 1)),
                groups@[i - 1].size * groups@[i - 1].files@.len(),
            ));
            assert(sum_wasted(groups@.take(i as int)) == clamp_add(
                sum_wasted(groups@.take(i - 1)),
                groups@[i - 1].wasted_space as int,
            ));
            assert((g.size as int) * (count as int) == groups@[i - 1].size * groups@[
                i - 1
            ].files@.len()) by (nonlinear_arith)
                requires
                    g == groups@[i - 1],
                    count == groups@[i - 1].files@.len(),
            ;
        }
    }
    proof {
        assert(groups@.take(groups@.len() as int) =~= groups@);
    }
    (files, bytes, wasted)
}

} // verus!
