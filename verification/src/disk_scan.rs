//! The disk scan: walk the chosen roots, put every file in its category,
//! and aggregate the outcome. The surrounding application drives the scan
//! under the scan manager and observes the pause and cancel flags at its
//! checkpoints; this module holds the work done between two checkpoints.

use vstd::prelude::*;

use crate::duplicate::clamp_add;
use crate::file_category::{spec_category_matches, spec_registry_protected, FileCategoryRegistry};
use crate::path_util::{join_path, SystemPaths};
use crate::platform::{self, FsEntry};
use crate::scan::{
    CategoryFilesRequest, CategoryFilesResponse, FileCategory, FileInfo, ScanOptions, ScanResult,
    ScanStatus, MAX_FILES_PER_CATEGORY,
};
use crate::text::{chars_eq, ends_with_chars_seq, lower_chars, str_chars};

verus! {

/// A path that points at one of the fixed cleanable locations a quick scan
/// covers.
pub open spec fn spec_quick_location(p: Seq<char>) -> bool {
    ||| p == "C:\\Windows\\Temp"@
    ||| ends_with_chars_seq(p, "\\Google\\Chrome\\User Data\\Default\\Cache"@)
    ||| ends_with_chars_seq(p, "\\Microsoft\\Edge\\User Data\\Default\\Cache"@)
    ||| ends_with_chars_seq(p, "\\Mozilla\\Firefox\\Profiles"@)
    ||| ends_with_chars_seq(p, "\\npm-cache"@)
    ||| ends_with_chars_seq(p, "\\pip\\cache"@)
}

/// The well-known cleanable locations a quick scan covers: the temporary
/// directories, the browser caches and the package-manager caches that
/// exist on this machine. Every returned path is one of the fixed
/// locations, except that the machine's own temporary directory — a value
/// the environment chooses — may stand first.
pub fn get_quick_scan_paths() -> (r: Vec<String>)
    ensures
        forall|i: int| 1 <= i < r@.len() ==> spec_quick_location((#[trigger] r@[i])@),
{
    let mut paths: Vec<String> = Vec::new();
    let temp_paths = SystemPaths::get_temp_paths();
    if platform::path_exists(&temp_paths[0]) {
        paths.push(temp_paths[0].clone());
    }
    if platform::path_exists(&temp_paths[1]) {
        paths.push(temp_paths[1].clone());
        proof {
            assert(spec_quick_location(paths@.last()@));
        }
    }
    let browser_paths = SystemPaths::get_browser_cache_paths();
    let mut i: usize = 0;
    while i < browser_paths.len()
        invariant
            browser_paths@.len() == 0 || (browser_paths@.len() == 3 && ends_with_chars_seq(
                browser_paths@[0]@,
                "\\Google\\Chrome\\User Data\\Default\\Cache"@,
            ) && ends_with_chars_seq(
                browser_paths@[1]@,
                "\\Microsoft\\Edge\\User Data\\Default\\Cache"@,
            ) && ends_with_chars_seq(browser_paths@[2]@, "\\Mozilla\\Firefox\\Profiles"@)),
            forall|j: int| 1 <= j < paths@.len() ==> spec_quick_location((#[trigger] paths@[j])@),
        decreases browser_paths@.len() - i,
    {
        if platform::path_exists(&browser_paths[i]) {
            paths.push(browser_paths[i].clone());
            proof {
                assert(spec_quick_location(paths@.last()@));
            }
        }
        i = i + 1;
    }
    match platform::sys_cache_dir() {
        Some(local) => {
            let npm_cache = join_path(local.as_str(), "npm-cache");
            proof {
                crate::path_util::lemma_join_ends_with(local@, "npm-cache"@);
            }
            if platform::path_exists(&npm_cache) {
                proof {
                    assert(ends_with_chars_seq(npm_cache@, "\\"@ + "npm-cache"@));
                    assert("\\npm-cache"@ =~= "\\"@ + "npm-cache"@) by {
                        reveal_strlit("\\npm-cache");
                        reveal_strlit("\\");
                        reveal_strlit("npm-cache");
                    }
                }
                paths.push(npm_cache);
            }
            let pip_cache = join_path(local.as_str(), "pip\\cache");
            proof {
                crate::path_util::lemma_join_ends_with(local@, "pip\\cache"@);
            }
            if platform::path_exists(&pip_cache) {
                proof {
                    assert(ends_with_chars_seq(pip_cache@, "\\"@ + "pip\\cache"@));
                    assert("\\pip\\cache"@ =~= "\\"@ + "pip\\cache"@) by {
                        reveal_strlit("\\pip\\cache");
                        reveal_strlit("\\");
                        reveal_strlit("pip\\cache");
                    }
                }
                paths.push(pip_cache);
            }
        },
        None => {},
    }
    paths
}

/// The registry gives the path a category: it is not protected, and some
/// category claims it.
pub open spec fn spec_file_categorized(registry: &FileCategoryRegistry, path: Seq<char>) -> bool {
    &&& !spec_registry_protected(
        registry.extensions_view(),
        registry.patterns_view(),
        lower_chars(path),
    )
    &&& exists|i: int|
        0 <= i < registry.categories_view().len() && spec_category_matches(
            #[trigger] registry.categories_view()[i],
            path,
        )
}

/// `n` plus one, held at the top of the range.
pub open spec fn clamp_inc(n: u64) -> int {
    if n < u64::MAX {
        n + 1
    } else {
        n as int
    }
}

/// The member record written for `entry` under the category name `cname`.
pub open spec fn spec_info_of(fi: FileInfo, entry: FsEntry, cname: Seq<char>) -> bool {
    &&& fi.path == entry.path
    &&& fi.name == entry.name
    &&& fi.size == entry.size
    &&& fi.modified_time == entry.modified_time
    &&& fi.category@ == cname
}

/// `newb` is `oldb` with one more member for `entry`: texts and the
/// has-more flag untouched, count and size bumped with a ceiling, the new
/// member appended.
pub open spec fn spec_bucket_bumped(oldb: FileCategory, newb: FileCategory, entry: FsEntry) -> bool {
    &&& newb.name == oldb.name
    &&& newb.display_name == oldb.display_name
    &&& newb.description == oldb.description
    &&& newb.has_more == oldb.has_more
    &&& newb.file_count == clamp_inc(oldb.file_count)
    &&& newb.total_size == clamp_add(oldb.total_size as int, entry.size as int)
    &&& newb.files@.len() == oldb.files@.len() + 1
    &&& newb.files@.drop_last() == oldb.files@
    &&& spec_info_of(newb.files@.last(), entry, oldb.name@)
}

/// A bucket freshly opened for `entry` under the category name `cname`.
pub open spec fn spec_fresh_bucket(b: FileCategory, cname: Seq<char>, entry: FsEntry) -> bool {
    &&& b.name@ == cname
    &&& b.file_count == 1
    &&& b.total_size == entry.size
    &&& !b.has_more
    &&& b.files@.len() == 1
    &&& spec_info_of(b.files@[0], entry, cname)
}

/// The buckets after recording `entry` under `cname`: the first bucket of
/// that name gains the member and nothing else moves, or a fresh bucket
/// opens at the end when none carries the name.
pub open spec fn spec_recorded(
    oldc: Seq<FileCategory>,
    newc: Seq<FileCategory>,
    cname: Seq<char>,
    entry: FsEntry,
) -> bool {
    ||| (exists|gi: int|
        {
            &&& 0 <= gi < oldc.len()
            &&& (#[trigger] oldc[gi]).name@ == cname
            &&& (forall|j: int| 0 <= j < gi ==> oldc[j].name@ != cname)
            &&& newc.len() == oldc.len()
            &&& (forall|j: int| 0 <= j < oldc.len() && j != gi ==> newc[j] == oldc[j])
            &&& spec_bucket_bumped(oldc[gi], newc[gi], entry)
        })
    ||| ((forall|j: int| 0 <= j < oldc.len() ==> (#[trigger] oldc[j]).name@ != cname) && newc.len()
        == oldc.len() + 1 && (forall|j: int| 0 <= j < oldc.len() ==> newc[j] == oldc[j])
        && spec_fresh_bucket(newc.last(), cname, entry))
}

/// Add one file to its category's bucket, opening the bucket on first use.
/// Exactly the categorisable entries are counted; a counted entry lands in
/// the first bucket carrying its category's name, and no other bucket moves.
fn record_file(categories: &mut Vec<FileCategory>, registry: &FileCategoryRegistry, entry: &FsEntry)
    -> (counted: bool)
    ensures
        counted == spec_file_categorized(registry, entry.path@),
        !counted ==> final(categories)@ == old(categories)@,
        counted ==> exists|ri: int|
            {
                &&& 0 <= ri < registry.categories_view().len()
                &&& spec_category_matches(#[trigger] registry.categories_view()[ri], entry.path@)
                &&& (forall|j: int|
                    0 <= j < ri ==> !spec_category_matches(
                        registry.categories_view()[j],
                        entry.path@,
                    ))
                &&& spec_recorded(
                    old(categories)@,
                    final(categories)@,
                    registry.categories_view()[ri].name@,
                    *entry,
                )
            },
{
    let category_name = match registry.categorize_file(entry.path.as_str()) {
        Some(rule) => rule.name.clone(),
        None => {
            proof {
                assert(!spec_file_categorized(registry, entry.path@));
            }
            return false;
        },
    };
    proof {
        assert(spec_file_categorized(registry, entry.path@));
    }
    let ghost ri = choose|ri: int|
        0 <= ri < registry.categories_view().len() && category_name
            == registry.categories_view()[ri].name && spec_category_matches(
            #[trigger] registry.categories_view()[ri],
            entry.path@,
        ) && (forall|j: int|
            0 <= j < ri ==> !spec_category_matches(registry.categories_view()[j], entry.path@));
    let ghost cname = registry.categories_view()[ri].name@;
    let file_info = FileInfo {
        path: entry.path.clone(),
        name: entry.name.clone(),
        size: entry.size,
        modified_time: entry.modified_time,
        category: category_name.clone(),
    };
    proof {
        assert(spec_info_of(file_info, *entry, cname));
    }
    let mut gi: usize = 0;
    let n = categories.len();
    while gi < n
        invariant
            n == categories@.len(),
            categories@ == old(categories)@,
            category_name@ == cname,
            spec_info_of(file_info, *entry, cname),
            spec_file_categorized(registry, entry.path@),
            0 <= ri < registry.categories_view().len(),
            cname == registry.categories_view()[ri].name@,
            spec_category_matches(registry.categories_view()[ri], entry.path@),
            forall|j: int|
                0 <= j < ri ==> !spec_category_matches(
                    #[trigger] registry.categories_view()[j],
                    entry.path@,
                ),
            forall|j: int| 0 <= j < gi ==> (#[trigger] categories@[j]).name@ != cname,
        decreases n - gi,
    {
        let matches = {
            let cand = str_chars(categories[gi].name.as_str());
            let target = str_chars(category_name.as_str());
            chars_eq(cand.as_slice(), target.as_slice())
        };
        if matches {
            let slot = crate::seq_util::vec_index_mut(categories, gi);
            slot.file_count = if slot.file_count < 0xffff_ffff_ffff_ffff_u64 {
                slot.file_count + 1
            } else {
                slot.file_count
            };
            slot.total_size = if slot.total_size as u128 + entry.size as u128
                > 0xffff_ffff_ffff_ffff_u128 {
                0xffff_ffff_ffff_ffff_u64
            } else {
                slot.total_size + entry.size
            };
            slot.files.push(file_info);
            proof {
                assert(categories@[gi as int].files@.drop_last() =~= old(categories)@[
                    gi as int].files@);
                assert(spec_bucket_bumped(
                    old(categories)@[gi as int],
                    categories@[gi as int],
                    *entry,
                ));
                assert(spec_recorded(old(categories)@, categories@, cname, *entry));
            }
            return true;
        }
        gi = gi + 1;
    }
    let (display_name, description) = match registry.get_category(category_name.as_str()) {
        Some(rule) => (rule.display_name.clone(), rule.description.clone()),
        None => (category_name.clone(), String::new()),
    };
    let mut files: Vec<FileInfo> = Vec::new();
    files.push(file_info);
    categories.push(
        FileCategory {
            name: category_name,
            display_name,
            description,
            file_count: 1,
            total_size: entry.size,
            files,
            has_more: false,
        },
    );
    proof {
        assert(spec_fresh_bucket(categories@.last(), cname, *entry));
        assert(spec_recorded(old(categories)@, categories@, cname, *entry));
    }
    true
}

/// The running sum of bucket member counts, each step held at the top of
/// the range.
pub open spec fn spec_sum_counts(cats: Seq<FileCategory>) -> int
    decreases cats.len(),
{
    if cats.len() == 0 {
        0
    } else {
        clamp_add(spec_sum_counts(cats.drop_last()), cats.last().file_count as int)
    }
}

/// The running sum of bucket sizes, each step held at the top of the range.
pub open spec fn spec_sum_sizes(cats: Seq<FileCategory>) -> int
    decreases cats.len(),
{
    if cats.len() == 0 {
        0
    } else {
        clamp_add(spec_sum_sizes(cats.drop_last()), cats.last().total_size as int)
    }
}

/// The clamped totals over the buckets: member count and bytes held.
fn sum_category_totals(cats: &Vec<FileCategory>) -> (r: (u64, u64))
    ensures
        r.0 == spec_sum_counts(cats@),
        r.1 == spec_sum_sizes(cats@),
{
    let max: u64 = 0xffff_ffff_ffff_ffff_u64;
    let mut files: u64 = 0;
    let mut bytes: u64 = 0;
    let mut i: usize = 0;
    proof {
        assert(cats@.take(0) =~= Seq::<FileCategory>::empty());
    }
    while i < cats.len()
        invariant
            i <= cats@.len(),
            max == u64::MAX,
            files == spec_sum_counts(cats@.take(i as int)),
            bytes == spec_sum_sizes(cats@.take(i as int)),
        decreases cats@.len() - i,
    {
        let c = &cats[i];
        files = if files as u128 + c.file_count as u128 > max as u128 {
            max
        } else {
            files + c.file_count
        };
        bytes = if bytes as u128 + c.total_size as u128 > max as u128 {
            max
        } else {
            bytes + c.total_size
        };
        i = i + 1;
        proof {
            assert(cats@.take(i as int).drop_last() =~= cats@.take(i - 1));
            assert(cats@.take(i as int).last() == cats@[i - 1]);
        }
    }
    proof {
        assert(cats@.take(cats@.len() as int) =~= cats@);
    }
    (files, bytes)
}

/// Cap each category's listed files at the per-category bound, marking the
/// categories that hold more; names, texts, counts and sizes are untouched,
/// and the kept files are a prefix of what was there.
pub fn apply_category_limits(categories: &mut Vec<FileCategory>)
    ensures
        final(categories)@.len() == old(categories)@.len(),
        forall|i: int|
            0 <= i < final(categories)@.len() ==> {
                let oldb = old(categories)@[i];
                let newb = #[trigger] final(categories)@[i];
                &&& newb.files@.len() <= MAX_FILES_PER_CATEGORY
                &&& newb.name == oldb.name
                &&& newb.display_name == oldb.display_name
                &&& newb.description == oldb.description
                &&& newb.file_count == oldb.file_count
                &&& newb.total_size == oldb.total_size
                &&& newb.files@ == (if oldb.files@.len() <= MAX_FILES_PER_CATEGORY {
                    oldb.files@
                } else {
                    oldb.files@.take(MAX_FILES_PER_CATEGORY as int)
                })
                &&& newb.has_more == (oldb.has_more || oldb.files@.len() > MAX_FILES_PER_CATEGORY)
            },
{
    let mut i: usize = 0;
    let n = categories.len();
    while i < n
        invariant
            n == categories@.len(),
            forall|j: int| i <= j < n ==> categories@[j] == old(categories)@[j],
            forall|j: int|
                0 <= j < i ==> {
                    let oldb = old(categories)@[j];
                    let newb = #[trigger] categories@[j];
                    &&& newb.files@.len() <= MAX_FILES_PER_CATEGORY
                    &&& newb.name == oldb.name
                    &&& newb.display_name == oldb.display_name
                    &&& newb.description == oldb.description
                    &&& newb.file_count == oldb.file_count
                    &&& newb.total_size == oldb.total_size
                    &&& newb.files@ == (if oldb.files@.len() <= MAX_FILES_PER_CATEGORY {
                        oldb.files@
                    } else {
                        oldb.files@.take(MAX_FILES_PER_CATEGORY as int)
                    })
                    &&& newb.has_more == (oldb.has_more || oldb.files@.len()
                        > MAX_FILES_PER_CATEGORY)
                },
        decreases n - i,
    {
        let slot = crate::seq_util::vec_index_mut(categories, i);
        if slot.files.len() > MAX_FILES_PER_CATEGORY {
            slot.files.truncate(MAX_FILES_PER_CATEGORY);
            slot.has_more = true;
        }
        i = i + 1;
    }
}

/// Scan the chosen roots and aggregate every categorised file into its
/// category. Quick mode covers the well-known cleanable locations instead
/// of the given paths; hidden files are skipped unless asked for. The
/// result ends Completed, with each category listing at most the
/// per-category bound of files.
pub fn run_disk_scan(scan_id: &str, options: &ScanOptions) -> (r: ScanResult)
    ensures
        r.scan_id@ == scan_id@,
        r.status == ScanStatus::Completed,
        forall|i: int|
            0 <= i < r.categories@.len() ==> (#[trigger] r.categories@[i]).files@.len()
                <= MAX_FILES_PER_CATEGORY,
        r.total_files == spec_sum_counts(r.categories@),
        r.total_size == spec_sum_sizes(r.categories@),
{
    let mut result = ScanResult::new(scan_id);
    let registry = FileCategoryRegistry::new();
    let mut categories: Vec<FileCategory> = Vec::new();
    let mut total_folders: u64 = 0;
    let quick = {
        let mode = str_chars(options.mode.as_str());
        let quick_word = str_chars("quick");
        chars_eq(mode.as_slice(), quick_word.as_slice())
    };
    let scan_paths = if quick {
        get_quick_scan_paths()
    } else {
        let mut copy: Vec<String> = Vec::new();
        let mut i: usize = 0;
        while i < options.paths.len()
            decreases options.paths@.len() - i,
        {
            copy.push(options.paths[i].clone());
            i = i + 1;
        }
        copy
    };
    let mut p: usize = 0;
    while p < scan_paths.len()
        decreases scan_paths@.len() - p,
    {
        if platform::path_exists(&scan_paths[p]) {
            let entries = platform::walk_entries(&scan_paths[p]);
            let mut e: usize = 0;
            while e < entries.len()
                decreases entries@.len() - e,
            {
                let entry = &entries[e];
                let hidden = {
                    let name = str_chars(entry.name.as_str());
                    name.len() > 0 && name[0] == '.'
                };
                if hidden && !options.include_hidden {
                } else if entry.is_dir {
                    total_folders = if total_folders < 0xffff_ffff_ffff_ffff_u64 {
                        total_folders + 1
                    } else {
                        total_folders
                    };
                } else if entry.is_file {
                    record_file(&mut categories, &registry, entry);
                }
                e = e + 1;
            }
        }
        p = p + 1;
    }
    apply_category_limits(&mut categories);
    let (total_files, total_size) = sum_category_totals(&categories);
    let end_time = platform::clock_millis();
    let duration: u64 = {
        let wide = (end_time as i128) - (result.start_time as i128);
        if wide <= 0 {
            0
        } else if wide > 0xffff_ffff_ffff_ffff_i128 {
            0xffff_ffff_ffff_ffff_u64
        } else {
            wide as u64
        }
    };
    result.end_time = end_time;
    result.total_files = total_files;
    result.total_size = total_size;
    result.total_folders = total_folders;
    result.categories = categories;
    result.status = ScanStatus::Completed;
    result.duration = duration;
    result
}

/// One page of a category's full file list: the files from `offset`, at
/// most `limit` of them, and whether more follow.
pub fn category_files_page(files: &Vec<FileInfo>, request: &CategoryFilesRequest) -> (r:
    CategoryFilesResponse)
    ensures
        r.total == files@.len(),
        request.offset >= files@.len() ==> r.files@.len() == 0,
        request.offset < files@.len() ==> r.files@.len() == (if files@.len() - request.offset
            < request.limit {
            files@.len() - request.offset
        } else {
            request.limit as int
        }),
        forall|i: int|
            0 <= i < r.files@.len() ==> (#[trigger] r.files@[i]) == files@[request.offset + i],
        r.has_more == (request.offset + r.files@.len() < files@.len()),
{
    let total = files.len() as u64;
    let mut out: Vec<FileInfo> = Vec::new();
    if request.offset >= files.len() as u64 {
        return CategoryFilesResponse { files: out, total, has_more: false };
    }
    let offset = request.offset as usize;
    let available = files.len() - offset;
    let take = if (available as u64) < request.limit {
        available
    } else {
        request.limit as usize
    };
    let mut i: usize = 0;
    while i < take
        invariant
            offset + take <= files@.len(),
            files@.len() <= usize::MAX,
            i <= take,
            out@.len() == i,
            forall|j: int| 0 <= j < i ==> (#[trigger] out@[j]) == files@[offset + j],
        decreases take - i,
    {
        let f = &files[offset + i];
        out.push(
            FileInfo {
                path: f.path.clone(),
                name: f.name.clone(),
                size: f.size,
                modified_time: f.modified_time,
                category: f.category.clone(),
            },
        );
        i = i + 1;
    }
    let has_more = offset + take < files.len();
    CategoryFilesResponse { files: out, total, has_more }
}

} // verus!
