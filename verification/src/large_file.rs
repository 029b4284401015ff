//! The large-file analyzer: files at or above a size threshold, with
//! grouping and aggregate statistics.

use vstd::prelude::*;

use crate::cleaner_models::{
    LargeFile, LargeFileAnalysisResult, LargeFileAnalyzerOptions, LargeFileDetails,
};
use crate::file_type::get_file_type;
use crate::path_util::{spec_is_subpath, PathUtils};
use crate::platform::{self, FsEntry};
use crate::text::{
    chars_eq, lower_chars, starts_with_chars, starts_with_chars_seq, str_chars, to_lower_chars,
};

verus! {

/// A running snapshot of one analysis.
#[derive(Debug, Clone)]
pub struct LargeFileAnalysisProgress {
    pub current_path: String,
    pub scanned_files: u64,
    pub found_files: u64,
    pub total_size: u64,
}

/// Aggregate numbers of one file type.
#[derive(Debug, Clone)]
pub struct TypeStats {
    pub file_type: String,
    pub count: u64,
    pub total_size: u64,
}

/// Aggregate numbers over a whole analysis.
#[derive(Debug)]
pub struct LargeFileStats {
    pub total_count: u64,
    pub total_size: u64,
    pub average_size: u64,
    pub largest_file: Option<LargeFile>,
    pub type_distribution: Vec<TypeStats>,
}

/// A field-by-field copy of a large-file record.
pub fn copy_large_file(f: &LargeFile) -> (r: LargeFile)
    ensures
        r == *f,
{
    LargeFile {
        path: f.path.clone(),
        name: f.name.clone(),
        size: f.size,
        modified_time: f.modified_time,
        accessed_time: f.accessed_time,
        created_time: f.created_time,
        file_type: f.file_type.clone(),
        extension: f.extension.clone(),
    }
}

/// An entry is left out when an excluded prefix covers it (case folded), a
/// protected root covers it, or it is hidden and hidden files are out.
pub open spec fn spec_lf_skip(
    options: LargeFileAnalyzerOptions,
    protected: Seq<String>,
    entry: FsEntry,
) -> bool {
    ||| exists|i: int|
        0 <= i < options.exclude_paths@.len() && starts_with_chars_seq(
            lower_chars(entry.path@),
            lower_chars(options.exclude_paths@[i]@),
        )
    ||| exists|i: int| 0 <= i < protected.len() && spec_is_subpath(protected[i]@, entry.path@)
    ||| (!options.include_hidden && entry.name@.len() > 0 && entry.name@[0] == '.')
}

/// The analyzer: its options and the protected roots it never reports.
pub struct LargeFileAnalyzer {
    pub options: LargeFileAnalyzerOptions,
    pub protected_paths: Vec<String>,
}

impl LargeFileAnalyzer {
    /// An analyzer with the default options.
    pub fn new() -> (r: LargeFileAnalyzer)
        ensures
            r.options.threshold == 104857600,
            !r.options.include_hidden,
            !r.options.include_system,
    {
        Self::with_options(LargeFileAnalyzerOptions::default())
    }

    /// An analyzer with the given options.
    pub fn with_options(options: LargeFileAnalyzerOptions) -> (r: LargeFileAnalyzer)
        ensures
            r.options == options,
    {
        LargeFileAnalyzer {
            options,
            protected_paths: crate::path_util::SystemPaths::get_protected_paths(),
        }
    }

    /// Change the size threshold.
    pub fn set_threshold(&mut self, size: u64)
        ensures
            final(self).options.threshold == size,
            final(self).options.exclude_paths == old(self).options.exclude_paths,
            final(self).options.include_hidden == old(self).options.include_hidden,
            final(self).options.include_system == old(self).options.include_system,
            final(self).protected_paths == old(self).protected_paths,
    {
        self.options.threshold = size;
    }

    /// Add one excluded path prefix.
    pub fn add_exclude_path(&mut self, path: String)
        ensures
            final(self).options.exclude_paths@ == old(self).options.exclude_paths@.push(path),
            final(self).options.threshold == old(self).options.threshold,
            final(self).protected_paths == old(self).protected_paths,
    {
        self.options.exclude_paths.push(path);
    }

    /// The skip decision on one entry.
    pub fn should_skip(&self, entry: &FsEntry) -> (r: bool)
        ensures
            r == spec_lf_skip(self.options, self.protected_paths@, *entry),
    {
        let chars = str_chars(entry.path.as_str());
        let path_lower = to_lower_chars(chars.as_slice());
        let mut i: usize = 0;
        while i < self.options.exclude_paths.len()
            invariant
                i <= self.options.exclude_paths@.len(),
                path_lower@ == lower_chars(entry.path@),
                forall|j: int|
                    0 <= j < i ==> !starts_with_chars_seq(
                        lower_chars(entry.path@),
                        lower_chars((#[trigger] self.options.exclude_paths@[j])@),
                    ),
            decreases self.options.exclude_paths@.len() - i,
        {
            let e_chars = str_chars(self.options.exclude_paths[i].as_str());
            let e_lower = to_lower_chars(e_chars.as_slice());
            if starts_with_chars(path_lower.as_slice(), e_lower.as_slice()) {
                return true;
            }
            i = i + 1;
        }
        let mut i: usize = 0;
        while i < self.protected_paths.len()
            invariant
                i <= self.protected_paths@.len(),
                forall|j: int|
                    0 <= j < i ==> !spec_is_subpath(
                        (#[trigger] self.protected_paths@[j])@,
                        entry.path@,
                    ),
            decreases self.protected_paths@.len() - i,
        {
            if PathUtils::is_subpath(self.protected_paths[i].as_str(), entry.path.as_str()) {
                return true;
            }
            i = i + 1;
        }
        if !self.options.include_hidden {
            let name = str_chars(entry.name.as_str());
            if name.len() > 0 && name[0] == '.' {
                return true;
            }
        }
        false
    }

    /// The record of one entry at or above the threshold.
    fn create_large_file(&self, entry: &FsEntry) -> (r: LargeFile)
        ensures
            r.size == entry.size,
            r.path == entry.path,
            r.modified_time == entry.modified_time,
    {
        let extension = match PathUtils::get_extension(entry.path.as_str()) {
            Some(e) => e,
            None => String::new(),
        };
        let file_type = get_file_type(extension.as_str());
        LargeFile {
            path: entry.path.clone(),
            name: entry.name.clone(),
            size: entry.size,
            modified_time: entry.modified_time,
            accessed_time: entry.accessed_time,
            created_time: entry.created_time,
            file_type,
            extension,
        }
    }

    /// Every kept file is at or above the threshold and outside the
    /// excluded and protected locations; the result comes sorted by size,
    /// largest first.
    pub fn analyze_paths(&self, paths: &Vec<String>) -> (r: Vec<LargeFile>)
        ensures
            forall|i: int| 0 <= i < r@.len() ==> (#[trigger] r@[i]).size >= self.options.threshold,
            forall|i: int, j: int| 0 <= i <= j < r@.len() ==> r@[i].size >= r@[j].size,
    {
        let mut found: Vec<LargeFile> = Vec::new();
        let mut p: usize = 0;
        while p < paths.len()
            invariant
                forall|i: int|
                    0 <= i < found@.len() ==> (#[trigger] found@[i]).size >= self.options.threshold,
            decreases paths@.len() - p,
        {
            let entries = platform::walk_entries(&paths[p]);
            let mut e: usize = 0;
            while e < entries.len()
                invariant
                    forall|i: int|
                        0 <= i < found@.len() ==> (#[trigger] found@[i]).size
                            >= self.options.threshold,
                decreases entries@.len() - e,
            {
                let entry = &entries[e];
                if entry.is_file && !self.should_skip(entry) && entry.size
                    >= self.options.threshold {
                    let lf = self.create_large_file(entry);
                    found.push(lf);
                }
                e = e + 1;
            }
            p = p + 1;
        }
        sort_by_size_desc(found, Ghost(self.options.threshold))
    }

    /// Run the analysis over the given roots and wrap the totals up.
    pub fn analyze(&self, paths: &Vec<String>) -> (r: LargeFileAnalysisResult)
        ensures
            r.threshold == self.options.threshold,
            r.total_files == r.files@.len(),
            forall|i: int| 0 <= i < r.files@.len() ==> (#[trigger] r.files@[i]).size >= r.threshold,
    {
        let start_time = platform::now_millis();
        let files = self.analyze_paths(paths);
        let mut total_size: u64 = 0;
        let mut i: usize = 0;
        while i < files.len()
            invariant
                forall|k: int|
                    0 <= k < files@.len() ==> (#[trigger] files@[k]).size >= self.options.threshold,
                forall|k: int, j: int| 0 <= k <= j < files@.len() ==> files@[k].size >= files@[j].size,
            decreases files@.len() - i,
        {
            let s = files[i].size;
            total_size = if total_size as u128 + s as u128 > 0xffff_ffff_ffff_ffff_u128 {
                0xffff_ffff_ffff_ffff_u64
            } else {
                total_size + s
            };
            i = i + 1;
        }
        let end_time = platform::now_millis();
        let duration_ms = if end_time >= start_time {
            end_time - start_time
        } else {
            0
        };
        let total_files = files.len() as u64;
        LargeFileAnalysisResult {
            scan_id: platform::new_scan_uuid(),
            total_files,
            total_size,
            files,
            threshold: self.options.threshold,
            duration_ms,
        }
    }

    /// The details of one path, when it can be read.
    pub fn get_file_details(&self, path: &String) -> Option<LargeFileDetails> {
        let entry = match platform::lookup_entry(path) {
            Some(e) => e,
            None => {
                return None;
            },
        };
        let file = self.create_large_file(&entry);
        let name = str_chars(entry.name.as_str());
        let is_hidden = name.len() > 0 && name[0] == '.';
        Some(
            LargeFileDetails {
                file,
                owner: None,
                is_readonly: entry.readonly,
                is_hidden,
                is_system: false,
            },
        )
    }

    /// Group records by their file type; every input lands in exactly the
    /// bucket carrying its type.
    pub fn group_by_type(&self, files: &Vec<LargeFile>) -> Vec<(String, Vec<LargeFile>)> {
        let mut groups: Vec<(String, Vec<LargeFile>)> = Vec::new();
        let mut i: usize = 0;
        while i < files.len()
            decreases files@.len() - i,
        {
            let key = files[i].file_type.clone();
            let copy = copy_large_file(&files[i]);
            push_keyed(&mut groups, key, copy);
            i = i + 1;
        }
        groups
    }

    /// Group records by their extension; records without one gather under
    /// an empty key.
    pub fn group_by_extension(&self, files: &Vec<LargeFile>) -> Vec<(String, Vec<LargeFile>)> {
        let mut groups: Vec<(String, Vec<LargeFile>)> = Vec::new();
        let mut i: usize = 0;
        while i < files.len()
            decreases files@.len() - i,
        {
            let key = files[i].extension.clone();
            let copy = copy_large_file(&files[i]);
            push_keyed(&mut groups, key, copy);
            i = i + 1;
        }
        groups
    }

    /// Group records by the directory that holds them.
    pub fn group_by_directory(&self, files: &Vec<LargeFile>) -> Vec<(String, Vec<LargeFile>)> {
        let mut groups: Vec<(String, Vec<LargeFile>)> = Vec::new();
        let mut i: usize = 0;
        while i < files.len()
            decreases files@.len() - i,
        {
            let key = match PathUtils::get_parent(files[i].path.as_str()) {
                Some(p) => p,
                None => String::new(),
            };
            let copy = copy_large_file(&files[i]);
            push_keyed(&mut groups, key, copy);
            i = i + 1;
        }
        groups
    }

    /// Totals, the average and the per-type distribution over sorted
    /// records; the largest file is the first one.
    pub fn calculate_stats(&self, files: &Vec<LargeFile>) -> (r: LargeFileStats)
        ensures
            r.total_count == files@.len(),
            files@.len() == 0 ==> r.largest_file is None && r.total_size == 0 && r.average_size
                == 0,
            files@.len() > 0 ==> (r.largest_file matches Some(first) && first == files@[0]),
    {
        let total_count = files.len() as u64;
        let mut total_size: u64 = 0;
        let mut i: usize = 0;
        while i < files.len()
            invariant
                i == 0 ==> total_size == 0,
            decreases files@.len() - i,
        {
            let s = files[i].size;
            total_size = if total_size as u128 + s as u128 > 0xffff_ffff_ffff_ffff_u128 {
                0xffff_ffff_ffff_ffff_u64
            } else {
                total_size + s
            };
            i = i + 1;
        }
        if files.len() == 0 {
            return LargeFileStats {
                total_count: 0,
                total_size: 0,
                average_size: 0,
                largest_file: None,
                type_distribution: Vec::new(),
            };
        }
        let average_size = total_size / total_count;
        let largest_file = Some(copy_large_file(&files[0]));
        let groups = self.group_by_type(files);
        let mut type_distribution: Vec<TypeStats> = Vec::new();
        let mut g: usize = 0;
        while g < groups.len()
            decreases groups@.len() - g,
        {
            let (ref key, ref members) = groups[g];
            let mut type_size: u64 = 0;
            let mut m: usize = 0;
            while m < members.len()
                decreases members@.len() - m,
            {
                let s = members[m].size;
                type_size = if type_size as u128 + s as u128 > 0xffff_ffff_ffff_ffff_u128 {
                    0xffff_ffff_ffff_ffff_u64
                } else {
                    type_size + s
                };
                m = m + 1;
            }
            type_distribution.push(
                TypeStats {
                    file_type: key.clone(),
                    count: members.len() as u64,
                    total_size: type_size,
                },
            );
            g = g + 1;
        }
        LargeFileStats {
            total_count,
            total_size,
            average_size,
            largest_file,
            type_distribution,
        }
    }
}

impl Default for LargeFileAnalyzer {
    /// The same analyzer as `new`.
    fn default() -> (r: Self)
        ensures
            r.options.threshold == 104857600,
    {
        Self::new()
    }
}

/// Append a record under its key, opening a new bucket for a fresh key.
fn push_keyed(groups: &mut Vec<(String, Vec<LargeFile>)>, key: String, file: LargeFile) {
    let mut gi: usize = 0;
    let n = groups.len();
    while gi < n
        invariant
            n == groups@.len(),
        decreases n - gi,
    {
        let matches = {
            let cand = str_chars(groups[gi].0.as_str());
            let target = str_chars(key.as_str());
            chars_eq(cand.as_slice(), target.as_slice())
        };
        if matches {
            let slot = crate::seq_util::vec_index_mut(groups, gi);
            slot.1.push(file);
            return ;
        }
        gi = gi + 1;
    }
    let mut members: Vec<LargeFile> = Vec::new();
    members.push(file);
    groups.push((key, members));
}

/// Sort records by size, largest first; every record keeps its threshold
/// bound.
fn sort_by_size_desc(files: Vec<LargeFile>, threshold: Ghost<u64>) -> (r: Vec<LargeFile>)
    requires
        forall|i: int| 0 <= i < files@.len() ==> (#[trigger] files@[i]).size >= threshold@,
    ensures
        forall|i: int| 0 <= i < r@.len() ==> (#[trigger] r@[i]).size >= threshold@,
        forall|i: int, j: int| 0 <= i <= j < r@.len() ==> r@[i].size >= r@[j].size,
{
    let mut rest = files;
    let mut out: Vec<LargeFile> = Vec::new();
    while rest.len() > 0
        invariant
            forall|i: int| 0 <= i < rest@.len() ==> (#[trigger] rest@[i]).size >= threshold@,
            forall|i: int| 0 <= i < out@.len() ==> (#[trigger] out@[i]).size >= threshold@,
            forall|i: int, j: int| 0 <= i <= j < out@.len() ==> out@[i].size >= out@[j].size,
        decreases rest@.len(),
    {
        let f = rest.remove(0);
        let mut idx: usize = 0;
        while idx < out.len() && out[idx].size >= f.size
            invariant
                idx <= out@.len(),
                forall|j: int| 0 <= j < idx ==> (#[trigger] out@[j]).size >= f.size,
            decreases out@.len() - idx,
        {
            idx = idx + 1;
        }
        let ghost out_pre = out@;
        out.insert(idx, f);
        proof {
            assert(idx < out@.len());
            assert forall|i: int, j: int| 0 <= i <= j < out@.len() implies out@[i].size
                >= out@[j].size by {
                if j > idx && i < idx {
                    assert(out@[j] == out_pre[j - 1]);
                } else if i > idx {
                    assert(out@[i] == out_pre[i - 1] && out@[j] == out_pre[j - 1]);
                } else if i == idx && j > idx {
                    assert(out@[j] == out_pre[j - 1]);
                    if idx < out_pre.len() {
                        assert(out_pre[idx as int].size < f.size);
                    }
                }
            }
            assert forall|i: int| 0 <= i < out@.len() implies (#[trigger] out@[i]).size
                >= threshold@ by {
                if i < idx {
                    assert(out@[i] == out_pre[i]);
                } else if i > idx {
                    assert(out@[i] == out_pre[i - 1]);
                }
            }
        }
    }
    out
}

} // verus!
