//! Classify all files under a root by coarse type and find the largest.

use vstd::prelude::*;

use crate::file_type::get_file_type;
use crate::path_util::PathUtils;
use crate::platform::{self, FsEntry};
use crate::text::{chars_eq, contains_chars, lower_chars, str_chars, to_lower_chars};

verus! {

/// Aggregate numbers of one extension.
#[derive(Debug, Clone)]
pub struct ExtensionStats {
    pub extension: String,
    pub count: u64,
    pub total_size: u64,
}

/// Aggregate numbers of one coarse type.
#[derive(Debug, Clone)]
pub struct FileTypeStats {
    pub category: String,
    pub display_name: String,
    pub count: u64,
    pub total_size: u64,
    pub extensions: Vec<ExtensionStats>,
}

/// The outcome of one classification run.
#[derive(Debug, Clone)]
pub struct FileClassificationResult {
    pub scan_id: String,
    pub path: String,
    pub total_files: u64,
    pub total_size: u64,
    pub total_folders: u64,
    pub categories: Vec<FileTypeStats>,
    pub duration_ms: u64,
    pub largest_files: Vec<FileBriefInfo>,
}

/// A thumbnail record of one file.
#[derive(Debug, Clone)]
pub struct FileBriefInfo {
    pub path: String,
    pub name: String,
    pub size: u64,
    pub extension: String,
    pub category: String,
    pub modified_time: u64,
}

/// What a classification run covers.
#[derive(Debug, Clone)]
pub struct FileClassificationOptions {
    pub max_depth: Option<usize>,
    pub include_hidden: bool,
    pub include_system: bool,
    pub exclude_paths: Vec<String>,
    pub max_files: Option<usize>,
    pub top_n_categories: Option<usize>,
}

impl Default for FileClassificationOptions {
    /// No depth or file cap, hidden and system files out, the largest
    /// fifteen categories reported.
    fn default() -> (r: Self)
        ensures
            r.max_depth is None,
            !r.include_hidden,
            !r.include_system,
            r.max_files is None,
            r.top_n_categories == Some(15usize),
    {
        FileClassificationOptions {
            max_depth: None,
            include_hidden: false,
            include_system: false,
            exclude_paths: Vec::new(),
            max_files: None,
            top_n_categories: Some(15),
        }
    }
}

/// The classifier.
pub struct FileClassifier {
    pub options: FileClassificationOptions,
}

impl FileClassifier {
    /// A classifier with the default options.
    pub fn new() -> (r: FileClassifier)
        ensures
            !r.options.include_hidden,
            r.options.top_n_categories == Some(15usize),
    {
        FileClassifier { options: FileClassificationOptions::default() }
    }

    /// A classifier with the given options.
    pub fn with_options(options: FileClassificationOptions) -> (r: FileClassifier)
        ensures
            r.options == options,
    {
        FileClassifier { options }
    }

    /// Whether the classifier leaves an entry out: hidden while hidden
    /// files are out, or an excluded location (contained, case folded).
    fn skip_entry(&self, entry: &FsEntry) -> bool {
        if !self.options.include_hidden {
            let name = str_chars(entry.name.as_str());
            if name.len() > 0 && name[0] == '.' {
                return true;
            }
        }
        let chars = str_chars(entry.path.as_str());
        let path_lower = to_lower_chars(chars.as_slice());
        let mut i: usize = 0;
        while i < self.options.exclude_paths.len()
            decreases self.options.exclude_paths@.len() - i,
        {
            let e_chars = str_chars(self.options.exclude_paths[i].as_str());
            let e_lower = to_lower_chars(e_chars.as_slice());
            if contains_chars(path_lower.as_slice(), e_lower.as_slice()) {
                return true;
            }
            i = i + 1;
        }
        false
    }

    /// Classify everything under `path`: per-type and per-extension totals,
    /// and the ten largest files, largest first.
    pub fn classify(&self, path: &str) -> (r: FileClassificationResult)
        ensures
            r.path@ == path@,
            r.largest_files@.len() <= 10,
            forall|i: int, j: int|
                0 <= i <= j < r.largest_files@.len() ==> r.largest_files@[i].size
                    >= r.largest_files@[j].size,
    {
        let start_time = platform::now_millis();
        let root = path.to_owned();
        let entries = platform::walk_entries(&root);
        let mut categories: Vec<FileTypeStats> = Vec::new();
        let mut total_files: u64 = 0;
        let mut total_size: u64 = 0;
        let mut total_folders: u64 = 0;
        let mut largest: Vec<FileBriefInfo> = Vec::new();
        let mut seen: usize = 0;
        let mut e: usize = 0;
        while e < entries.len()
            invariant
                largest@.len() <= 10,
                forall|i: int, j: int|
                    0 <= i <= j < largest@.len() ==> largest@[i].size >= largest@[j].size,
            decreases entries@.len() - e,
        {
            let entry = &entries[e];
            let within_cap = match self.options.max_files {
                Some(max) => seen < max,
                None => true,
            };
            if !within_cap {
                e = entries.len();
            } else {
                if self.skip_entry(entry) {
                } else if entry.is_dir {
                    total_folders = if total_folders < 0xffff_ffff_ffff_ffff_u64 {
                        total_folders + 1
                    } else {
                        total_folders
                    };
                } else if entry.is_file {
                    let extension = match PathUtils::get_extension(entry.path.as_str()) {
                        Some(x) => x,
                        None => String::new(),
                    };
                    let category = get_file_type(extension.as_str());
                    total_files = if total_files < 0xffff_ffff_ffff_ffff_u64 {
                        total_files + 1
                    } else {
                        total_files
                    };
                    total_size = if total_size as u128 + entry.size as u128
                        > 0xffff_ffff_ffff_ffff_u128 {
                        0xffff_ffff_ffff_ffff_u64
                    } else {
                        total_size + entry.size
                    };
                    record_category(&mut categories, &category, &extension, entry.size);
                    let modified = if entry.modified_time >= 0 {
                        entry.modified_time as u64
                    } else {
                        0
                    };
                    let brief = FileBriefInfo {
                        path: entry.path.clone(),
                        name: entry.name.clone(),
                        size: entry.size,
                        extension,
                        category,
                        modified_time: modified,
                    };
                    insert_largest(&mut largest, brief);
                    seen = if seen < usize::MAX {
                        seen + 1
                    } else {
                        seen
                    };
                }
                e = e + 1;
            }
        }
        let categories = sort_categories_by_size(categories);
        let categories = match self.options.top_n_categories {
            Some(top_n) => {
                let mut c = categories;
                if c.len() > top_n {
                    c.truncate(top_n);
                }
                c
            },
            None => categories,
        };
        let end_time = platform::now_millis();
        let duration_ms = if end_time >= start_time {
            end_time - start_time
        } else {
            0
        };
        FileClassificationResult {
            scan_id: platform::new_scan_uuid(),
            path: root,
            total_files,
            total_size,
            total_folders,
            categories,
            duration_ms,
            largest_files: largest,
        }
    }
}

impl Default for FileClassifier {
    /// The same classifier as `new`.
    fn default() -> (r: Self)
        ensures
            !r.options.include_hidden,
    {
        Self::new()
    }
}

/// Add one file to its category's and extension's totals.
fn record_category(categories: &mut Vec<FileTypeStats>, category: &String, extension: &String, size: u64) {
    let mut gi: usize = 0;
    let n = categories.len();
    while gi < n
        invariant
            n == categories@.len(),
        decreases n - gi,
    {
        let matches = {
            let cand = str_chars(categories[gi].category.as_str());
            let target = str_chars(category.as_str());
            chars_eq(cand.as_slice(), target.as_slice())
        };
        if matches {
            let slot = crate::seq_util::vec_index_mut(categories, gi);
            slot.count = if slot.count < 0xffff_ffff_ffff_ffff_u64 {
                slot.count + 1
            } else {
                slot.count
            };
            slot.total_size = if slot.total_size as u128 + size as u128
                > 0xffff_ffff_ffff_ffff_u128 {
                0xffff_ffff_ffff_ffff_u64
            } else {
                slot.total_size + size
            };
            record_extension(&mut slot.extensions, extension, size);
            return ;
        }
        gi = gi + 1;
    }
    let mut extensions: Vec<ExtensionStats> = Vec::new();
    extensions.push(ExtensionStats { extension: extension.clone(), count: 1, total_size: size });
    categories.push(
        FileTypeStats {
            category: category.clone(),
            display_name: category.clone(),
            count: 1,
            total_size: size,
            extensions,
        },
    );
}

/// Add one file to its extension's totals.
fn record_extension(extensions: &mut Vec<ExtensionStats>, extension: &String, size: u64) {
    let mut i: usize = 0;
    let n = extensions.len();
    while i < n
        invariant
            n == extensions@.len(),
        decreases n - i,
    {
        let matches = {
            let cand = str_chars(extensions[i].extension.as_str());
            let target = str_chars(extension.as_str());
            chars_eq(cand.as_slice(), target.as_slice())
        };
        if matches {
            let slot = crate::seq_util::vec_index_mut(extensions, i);
            slot.count = if slot.count < 0xffff_ffff_ffff_ffff_u64 {
                slot.count + 1
            } else {
                slot.count
            };
            slot.total_size = if slot.total_size as u128 + size as u128
                > 0xffff_ffff_ffff_ffff_u128 {
                0xffff_ffff_ffff_ffff_u64
            } else {
                slot.total_size + size
            };
            return ;
        }
        i = i + 1;
    }
    extensions.push(ExtensionStats { extension: extension.clone(), count: 1, total_size: size });
}

/// Keep the ten largest files, in size order.
fn insert_largest(largest: &mut Vec<FileBriefInfo>, brief: FileBriefInfo)
    requires
        old(largest)@.len() <= 10,
        forall|i: int, j: int|
            0 <= i <= j < old(largest)@.len() ==> old(largest)@[i].size >= old(largest)@[j].size,
    ensures
        final(largest)@.len() <= 10,
        forall|i: int, j: int|
            0 <= i <= j < final(largest)@.len() ==> final(largest)@[i].size
                >= final(largest)@[j].size,
{
    let mut idx: usize = 0;
    while idx < largest.len() && largest[idx].size >= brief.size
        invariant
            idx <= largest@.len(),
            largest@ == old(largest)@,
            forall|j: int| 0 <= j < idx ==> (#[trigger] largest@[j]).size >= brief.size,
        decreases largest@.len() - idx,
    {
        idx = idx + 1;
    }
    let ghost pre = largest@;
    largest.insert(idx, brief);
    proof {
        assert(idx < largest@.len());
        assert forall|i: int, j: int| 0 <= i <= j < largest@.len() implies largest@[i].size
            >= largest@[j].size by {
            if j > idx && i < idx {
                assert(largest@[j] == pre[j - 1]);
            } else if i > idx {
                assert(largest@[i] == pre[i - 1] && largest@[j] == pre[j - 1]);
            } else if i == idx && j > idx {
                assert(largest@[j] == pre[j - 1]);
                if idx < pre.len() {
                    assert(pre[idx as int].size < brief.size);
                }
            }
        }
    }
    if largest.len() > 10 {
        largest.truncate(10);
    }
}

/// Sort the categories by held bytes, largest first.
fn sort_categories_by_size(categories: Vec<FileTypeStats>) -> Vec<FileTypeStats> {
    let mut rest = categories;
    let mut out: Vec<FileTypeStats> = Vec::new();
    while rest.len() > 0
        decreases rest@.len(),
    {
        let c = rest.remove(0);
        let mut idx: usize = 0;
        while idx < out.len() && out[idx].total_size >= c.total_size
            invariant
                idx <= out@.len(),
            decreases out@.len() - idx,
        {
            idx = idx + 1;
        }
        out.insert(idx, c);
    }
    out
}

} // verus!
