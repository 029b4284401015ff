//! The reusable scan infrastructure: the file filter, the filtered walker
//! and per-scan statistics.

use vstd::prelude::*;

use crate::path_util::{spec_is_subpath, PathUtils, SystemPaths};
use crate::platform::{self, FsEntry};
use crate::text::{
    lower_chars, starts_with_chars, starts_with_chars_seq, str_chars, to_lower_chars,
};

verus! {

/// What a traversal keeps and what it leaves out.
#[derive(Debug, Clone)]
pub struct FilterOptions {
    pub include_hidden: bool,
    pub include_system: bool,
    pub exclude_paths: Vec<String>,
}

impl Default for FilterOptions {
    /// Hidden and system files out, nothing excluded.
    fn default() -> (r: Self)
        ensures
            !r.include_hidden,
            !r.include_system,
            r.exclude_paths@.len() == 0,
    {
        FilterOptions { include_hidden: false, include_system: false, exclude_paths: Vec::new() }
    }
}

/// The strategy deciding whether a traversal entry participates. The
/// decision itself is a specification-level function of the entry, so a
/// walker built over any filter can promise what it kept.
pub trait FileFilter {
    /// The decision, at the specification level.
    spec fn spec_accepts(&self, entry: FsEntry) -> bool;

    /// The decision, executed.
    fn should_include(&self, entry: &FsEntry) -> (r: bool)
        ensures
            r == self.spec_accepts(*entry),
    ;
}

/// The path starts, case folded, with one of the excluded prefixes.
pub open spec fn spec_excluded(excludes: Seq<String>, path: Seq<char>) -> bool {
    exists|i: int|
        0 <= i < excludes.len() && starts_with_chars_seq(
            lower_chars(path),
            lower_chars(excludes[i]@),
        )
}

/// The path lies under one of the protected roots.
pub open spec fn spec_under_protected_root(protected: Seq<String>, path: Seq<char>) -> bool {
    exists|i: int| 0 <= i < protected.len() && spec_is_subpath(protected[i]@, path)
}

/// The standard filter: excluded and protected paths are always out, for
/// both files and directories; hidden files are out unless asked for, but a
/// hidden directory is kept, because dropping it would silently prune its
/// whole subtree.
pub struct StandardFileFilter {
    pub include_hidden: bool,
    /// Carried for the caller's options; the entry model has no system
    /// attribute (that bit belongs to one platform's metadata), so the
    /// predicate never consults it.
    pub include_system: bool,
    pub exclude_paths: Vec<String>,
    pub protected_paths: Vec<String>,
}

impl StandardFileFilter {
    /// A filter from the given options, with the standard protected roots.
    pub fn new(options: &FilterOptions) -> (r: StandardFileFilter)
        ensures
            r.include_hidden == options.include_hidden,
            r.include_system == options.include_system,
            r.exclude_paths@ == options.exclude_paths@,
            r.protected_paths@.len() == SystemPaths::spec_protected_paths().len(),
            forall|i: int|
                0 <= i < r.protected_paths@.len() ==> (#[trigger] r.protected_paths@[i])@
                    == SystemPaths::spec_protected_paths()[i],
    {
        let mut exclude_paths: Vec<String> = Vec::new();
        let mut i: usize = 0;
        while i < options.exclude_paths.len()
            invariant
                i <= options.exclude_paths@.len(),
                exclude_paths@ == options.exclude_paths@.take(i as int),
            decreases options.exclude_paths@.len() - i,
        {
            let copy = options.exclude_paths[i].clone();
            exclude_paths.push(copy);
            proof {
                assert(options.exclude_paths@.take(i + 1) =~= options.exclude_paths@.take(
                    i as int,
                ).push(options.exclude_paths@[i as int]));
            }
            i = i + 1;
        }
        proof {
            assert(options.exclude_paths@.take(options.exclude_paths@.len() as int)
                =~= options.exclude_paths@);
        }
        StandardFileFilter {
            include_hidden: options.include_hidden,
            include_system: options.include_system,
            exclude_paths,
            protected_paths: SystemPaths::get_protected_paths(),
        }
    }

    /// The filter's decision on one entry.
    pub open spec fn spec_should_include(&self, entry: FsEntry) -> bool {
        if spec_excluded(self.exclude_paths@, entry.path@) {
            false
        } else if spec_under_protected_root(self.protected_paths@, entry.path@) {
            false
        } else if entry.is_dir {
            true
        } else if !self.include_hidden && entry.name@.len() > 0 && entry.name@[0] == '.' {
            false
        } else {
            true
        }
    }

    /// Decide one entry.
    pub fn check_entry(&self, entry: &FsEntry) -> (r: bool)
        ensures
            r == self.spec_should_include(*entry),
    {
        let chars = str_chars(entry.path.as_str());
        let path_lower = to_lower_chars(chars.as_slice());
        let mut i: usize = 0;
        while i < self.exclude_paths.len()
            invariant
                i <= self.exclude_paths@.len(),
                path_lower@ == lower_chars(entry.path@),
                forall|j: int|
                    0 <= j < i ==> !starts_with_chars_seq(
                        lower_chars(entry.path@),
                        lower_chars((#[trigger] self.exclude_paths@[j])@),
                    ),
            decreases self.exclude_paths@.len() - i,
        {
            let e_chars = str_chars(self.exclude_paths[i].as_str());
            let e_lower = to_lower_chars(e_chars.as_slice());
            if starts_with_chars(path_lower.as_slice(), e_lower.as_slice()) {
                proof {
                    assert(spec_excluded(self.exclude_paths@, entry.path@));
                }
                return false;
            }
            i = i + 1;
        }
        let mut i: usize = 0;
        while i < self.protected_paths.len()
            invariant
                i <= self.protected_paths@.len(),
                forall|j: int|
                    0 <= j < i ==> !spec_is_subpath(
                        (#[trigger] self.protected_paths@[j])@,
                        entry.path@,
                    ),
            decreases self.protected_paths@.len() - i,
        {
            if PathUtils::is_subpath(self.protected_paths[i].as_str(), entry.path.as_str()) {
                proof {
                    assert(spec_under_protected_root(self.protected_paths@, entry.path@));
                }
                return false;
            }
            i = i + 1;
        }
        if entry.is_dir {
            return true;
        }
        if !self.include_hidden {
            let name = str_chars(entry.name.as_str());
            if name.len() > 0 && name[0] == '.' {
                return false;
            }
        }
        true
    }
}

impl FileFilter for StandardFileFilter {
    open spec fn spec_accepts(&self, entry: FsEntry) -> bool {
        self.spec_should_include(entry)
    }

    fn should_include(&self, entry: &FsEntry) -> (r: bool) {
        self.check_entry(entry)
    }
}

/// A filtered traversal: all entries, files only, or directories only.
/// Every entry is judged on its own: with the standard filter this prunes
/// excluded and protected subtrees all the same, because their rules match
/// by path prefix, while a hidden directory's contents stay reachable, as
/// they should.
pub struct FileWalker<F: FileFilter> {
    pub filter: F,
    pub follow_links: bool,
}

impl<F: FileFilter> FileWalker<F> {
    /// A walker over the given filter; symbolic links are not followed.
    pub fn new(filter: F) -> (r: FileWalker<F>)
        ensures
            !r.follow_links,
    {
        FileWalker { filter, follow_links: false }
    }

    /// The same walker, following symbolic links when asked.
    pub fn follow_links(self, follow: bool) -> (r: FileWalker<F>)
        ensures
            r.follow_links == follow,
    {
        FileWalker { filter: self.filter, follow_links: follow }
    }

    /// Every entry under `path` the filter keeps: the offered entries,
    /// filtered exactly by `filter_entries`. Whether the traversal offered
    /// an entry at all depends on the disk, so only that half is a promise.
    pub fn walk(&self, path: &String) -> (r: Vec<FsEntry>)
        ensures
            forall|i: int| 0 <= i < r@.len() ==> self.filter.spec_accepts(#[trigger] r@[i]),
    {
        let entries = platform::walk_entries_with(path, self.follow_links);
        filter_entries(&self.filter, entries)
    }

    /// Every regular file under `path` the filter keeps: the offered
    /// entries, filtered exactly by `filter_file_entries`.
    pub fn walk_files(&self, path: &String) -> (r: Vec<FsEntry>)
        ensures
            forall|i: int|
                0 <= i < r@.len() ==> (#[trigger] r@[i]).is_file && self.filter.spec_accepts(
                    r@[i],
                ),
    {
        let entries = platform::walk_entries_with(path, self.follow_links);
        filter_file_entries(&self.filter, entries)
    }

    /// Every directory under `path` the filter keeps: the offered entries,
    /// filtered exactly by `filter_dir_entries`.
    pub fn walk_dirs(&self, path: &String) -> (r: Vec<FsEntry>)
        ensures
            forall|i: int|
                0 <= i < r@.len() ==> (#[trigger] r@[i]).is_dir && self.filter.spec_accepts(
                    r@[i],
                ),
    {
        let entries = platform::walk_entries_with(path, self.follow_links);
        filter_dir_entries(&self.filter, entries)
    }
}

/// Exactly the offered entries the filter accepts, in order.
pub fn filter_entries<F: FileFilter>(filter: &F, entries: Vec<FsEntry>) -> (r: Vec<FsEntry>)
    ensures
        r@ == entries@.filter(|e: FsEntry| filter.spec_accepts(e)),
        forall|i: int| 0 <= i < r@.len() ==> filter.spec_accepts(#[trigger] r@[i]),
{
    let ghost orig = entries@;
    let ghost pred = |e: FsEntry| filter.spec_accepts(e);
    let mut rest = entries;
    let mut out: Vec<FsEntry> = Vec::new();
    let ghost k: int = 0;
    proof {
        crate::seq_util::lemma_filter_empty(orig.take(0), pred);
        assert(orig.take(0) =~= Seq::<FsEntry>::empty());
        assert(rest@ =~= orig.skip(0));
    }
    while rest.len() > 0
        invariant
            0 <= k <= orig.len(),
            rest@ == orig.skip(k),
            out@ == orig.take(k).filter(|e: FsEntry| filter.spec_accepts(e)),
        decreases rest@.len(),
    {
        let e = rest.remove(0);
        proof {
            assert(orig.skip(k).remove(0) =~= orig.skip(k + 1));
            assert(e == orig[k]);
            assert(orig.take(k + 1) =~= orig.take(k).push(orig[k]));
            crate::seq_util::lemma_filter_push(
                orig.take(k),
                |x: FsEntry| filter.spec_accepts(x),
                orig[k],
            );
        }
        if filter.should_include(&e) {
            out.push(e);
        }
        proof {
            k = k + 1;
        }
    }
    proof {
        assert(orig.skip(k).len() == 0);
        assert(k == orig.len());
        assert(orig.take(orig.len() as int) =~= orig);
        assert forall|i: int| 0 <= i < out@.len() implies filter.spec_accepts(
            #[trigger] out@[i],
        ) by {
            orig.lemma_filter_pred(|e: FsEntry| filter.spec_accepts(e), i);
        }
    }
    out
}

/// Exactly the offered regular files the filter accepts, in order.
pub fn filter_file_entries<F: FileFilter>(filter: &F, entries: Vec<FsEntry>) -> (r: Vec<FsEntry>)
    ensures
        r@ == entries@.filter(|e: FsEntry| e.is_file && filter.spec_accepts(e)),
        forall|i: int|
            0 <= i < r@.len() ==> (#[trigger] r@[i]).is_file && filter.spec_accepts(r@[i]),
{
    let ghost orig = entries@;
    let ghost pred = |e: FsEntry| e.is_file && filter.spec_accepts(e);
    let mut rest = entries;
    let mut out: Vec<FsEntry> = Vec::new();
    let ghost k: int = 0;
    proof {
        crate::seq_util::lemma_filter_empty(orig.take(0), pred);
        assert(orig.take(0) =~= Seq::<FsEntry>::empty());
        assert(rest@ =~= orig.skip(0));
    }
    while rest.len() > 0
        invariant
            0 <= k <= orig.len(),
            rest@ == orig.skip(k),
            out@ == orig.take(k).filter(|e: FsEntry| e.is_file && filter.spec_accepts(e)),
        decreases rest@.len(),
    {
        let e = rest.remove(0);
        proof {
            assert(orig.skip(k).remove(0) =~= orig.skip(k + 1));
            assert(e == orig[k]);
            assert(orig.take(k + 1) =~= orig.take(k).push(orig[k]));
            crate::seq_util::lemma_filter_push(
                orig.take(k),
                |x: FsEntry| x.is_file && filter.spec_accepts(x),
                orig[k],
            );
        }
        if e.is_file && filter.should_include(&e) {
            out.push(e);
        }
        proof {
            k = k + 1;
        }
    }
    proof {
        assert(orig.skip(k).len() == 0);
        assert(k == orig.len());
        assert(orig.take(orig.len() as int) =~= orig);
        assert forall|i: int| 0 <= i < out@.len() implies (#[trigger] out@[i]).is_file
            && filter.spec_accepts(out@[i]) by {
            orig.lemma_filter_pred(|e: FsEntry| e.is_file && filter.spec_accepts(e), i);
        }
    }
    out
}

/// Exactly the offered directories the filter accepts, in order.
pub fn filter_dir_entries<F: FileFilter>(filter: &F, entries: Vec<FsEntry>) -> (r: Vec<FsEntry>)
    ensures
        r@ == entries@.filter(|e: FsEntry| e.is_dir && filter.spec_accepts(e)),
        forall|i: int|
            0 <= i < r@.len() ==> (#[trigger] r@[i]).is_dir && filter.spec_accepts(r@[i]),
{
    let ghost orig = entries@;
    let ghost pred = |e: FsEntry| e.is_dir && filter.spec_accepts(e);
    let mut rest = entries;
    let mut out: Vec<FsEntry> = Vec::new();
    let ghost k: int = 0;
    proof {
        crate::seq_util::lemma_filter_empty(orig.take(0), pred);
        assert(orig.take(0) =~= Seq::<FsEntry>::empty());
        assert(rest@ =~= orig.skip(0));
    }
    while rest.len() > 0
        invariant
            0 <= k <= orig.len(),
            rest@ == orig.skip(k),
            out@ == orig.take(k).filter(|e: FsEntry| e.is_dir && filter.spec_accepts(e)),
        decreases rest@.len(),
    {
        let e = rest.remove(0);
        proof {
            assert(orig.skip(k).remove(0) =~= orig.skip(k + 1));
            assert(e == orig[k]);
            assert(orig.take(k + 1) =~= orig.take(k).push(orig[k]));
            crate::seq_util::lemma_filter_push(
                orig.take(k),
                |x: FsEntry| x.is_dir && filter.spec_accepts(x),
                orig[k],
            );
        }
        if e.is_dir && filter.should_include(&e) {
            out.push(e);
        }
        proof {
            k = k + 1;
        }
    }
    proof {
        assert(orig.skip(k).len() == 0);
        assert(k == orig.len());
        assert(orig.take(orig.len() as int) =~= orig);
        assert forall|i: int| 0 <= i < out@.len() implies (#[trigger] out@[i]).is_dir
            && filter.spec_accepts(out@[i]) by {
            orig.lemma_filter_pred(|e: FsEntry| e.is_dir && filter.spec_accepts(e), i);
        }
    }
    out
}

/// Running numbers of one scan.
#[derive(Debug, Clone)]
pub struct ScanStatistics {
    pub files_scanned: u64,
    pub files_found: u64,
    pub total_size: u64,
    pub errors: u64,
    pub start_time: u64,
    pub end_time: Option<u64>,
}

impl ScanStatistics {
    /// Fresh statistics stamped with the current time.
    pub fn new() -> (r: ScanStatistics)
        ensures
            r.files_scanned == 0,
            r.files_found == 0,
            r.total_size == 0,
            r.errors == 0,
            r.end_time is None,
    {
        ScanStatistics {
            files_scanned: 0,
            files_found: 0,
            total_size: 0,
            errors: 0,
            start_time: platform::now_millis(),
            end_time: None,
        }
    }

    /// Stamp the end of the scan.
    pub fn finish(&mut self)
        ensures
            final(self).end_time is Some,
            final(self).files_scanned == old(self).files_scanned,
            final(self).files_found == old(self).files_found,
            final(self).total_size == old(self).total_size,
            final(self).errors == old(self).errors,
            final(self).start_time == old(self).start_time,
    {
        self.end_time = Some(platform::now_millis());
    }

    /// Milliseconds from start to end (to now while still running); a clock
    /// that moved backward counts as zero.
    pub fn duration_ms(&self) -> (r: u64)
        ensures
            self.end_time matches Some(end) ==> r == (if end >= self.start_time {
                end - self.start_time
            } else {
                0
            }),
    {
        match self.end_time {
            Some(end) => {
                if end >= self.start_time {
                    end - self.start_time
                } else {
                    0
                }
            },
            None => {
                let now = platform::now_millis();
                if now >= self.start_time {
                    now - self.start_time
                } else {
                    0
                }
            },
        }
    }
}

impl Default for ScanStatistics {
    /// The same statistics as `new`.
    fn default() -> (r: Self)
        ensures
            r.files_scanned == 0,
            r.end_time is None,
    {
        Self::new()
    }
}

} // verus!
