//! The built-in registry of cleanable file categories.

use vstd::prelude::*;

use crate::path_util::spec_extension_of;
use crate::text::{
    chars_eq, contains_chars, contains_chars_seq, ends_with_chars, ends_with_chars_seq,
    lower_chars, str_chars, to_lower_chars,
};

verus! {

/// How safely a category can be cleaned.
#[derive(Debug, Clone, Copy, PartialEq, Eq, Structural)]
pub enum CleanSafety {
    Safe,
    LowRisk,
    MediumRisk,
    HighRisk,
    NotCleanable,
}

/// One category: the locations and extensions that put a file in it, and
/// the locations that take it back out.
#[derive(Debug, Clone)]
pub struct FileCategoryRule {
    pub name: String,
    pub display_name: String,
    pub description: String,
    pub clean_safety: CleanSafety,
    pub path_patterns: Vec<String>,
    pub extensions: Vec<String>,
    pub exclude_patterns: Vec<String>,
}

/// The lowered path contains one of the patterns (compared lowered).
pub open spec fn spec_any_pattern_contained(patterns: Seq<String>, path: Seq<char>) -> bool {
    exists|i: int|
        0 <= i < patterns.len() && contains_chars_seq(
            lower_chars(path),
            lower_chars(patterns[i]@),
        )
}

/// The path's extension, lowered, equals one of the given ones (compared
/// lowered).
pub open spec fn spec_any_extension(extensions: Seq<String>, path: Seq<char>) -> bool {
    spec_extension_of(path) matches Some(ext) && exists|i: int|
        0 <= i < extensions.len() && lower_chars(extensions[i]@) == lower_chars(ext)
}

/// A category matches when no exclude pattern hits and a path pattern or an
/// extension does.
pub open spec fn spec_category_matches(rule: FileCategoryRule, path: Seq<char>) -> bool {
    &&& !spec_any_pattern_contained(rule.exclude_patterns@, path)
    &&& (spec_any_pattern_contained(rule.path_patterns@, path) || spec_any_extension(
        rule.extensions@,
        path,
    ))
}

/// Whether the lowered path contains one of the patterns.
fn any_pattern_contained(patterns: &Vec<String>, path_lower: &[char], ghost_path: Ghost<Seq<char>>) -> (r:
    bool)
    requires
        path_lower@ == lower_chars(ghost_path@),
    ensures
        r == spec_any_pattern_contained(patterns@, ghost_path@),
{
    let mut i: usize = 0;
    while i < patterns.len()
        invariant
            i <= patterns@.len(),
            path_lower@ == lower_chars(ghost_path@),
            forall|j: int|
                0 <= j < i ==> !contains_chars_seq(
                    lower_chars(ghost_path@),
                    lower_chars((#[trigger] patterns@[j])@),
                ),
        decreases patterns@.len() - i,
    {
        let p_chars = str_chars(patterns[i].as_str());
        let p_lower = to_lower_chars(p_chars.as_slice());
        if contains_chars(path_lower, p_lower.as_slice()) {
            proof {
                assert(contains_chars_seq(
                    lower_chars(ghost_path@),
                    lower_chars(patterns@[i as int]@),
                ));
            }
            return true;
        }
        i = i + 1;
    }
    false
}

impl FileCategoryRule {
    /// Whether the category claims the path.
    pub fn matches(&self, path: &str) -> (r: bool)
        ensures
            r == spec_category_matches(*self, path@),
    {
        let chars = str_chars(path);
        let path_lower = to_lower_chars(chars.as_slice());
        if any_pattern_contained(&self.exclude_patterns, path_lower.as_slice(), Ghost(path@)) {
            return false;
        }
        if any_pattern_contained(&self.path_patterns, path_lower.as_slice(), Ghost(path@)) {
            return true;
        }
        match crate::path_util::PathUtils::get_extension(path) {
            Some(ext) => {
                let ext_chars = str_chars(ext.as_str());
                let ghost spec_ext = spec_extension_of(path@)->Some_0;
                proof {
                    assert(lower_chars(lower_chars(spec_ext)) =~= lower_chars(spec_ext));
                }
                let mut i: usize = 0;
                while i < self.extensions.len()
                    invariant
                        i <= self.extensions@.len(),
                        ext_chars@ == lower_chars(spec_ext),
                        spec_extension_of(path@) == Some(spec_ext),
                        !spec_any_pattern_contained(self.exclude_patterns@, path@),
                        forall|j: int|
                            0 <= j < i ==> lower_chars((#[trigger] self.extensions@[j])@)
                                != lower_chars(spec_ext),
                    decreases self.extensions@.len() - i,
                {
                    let cand = str_chars(self.extensions[i].as_str());
                    let cand_lower = to_lower_chars(cand.as_slice());
                    if chars_eq(cand_lower.as_slice(), ext_chars.as_slice()) {
                        proof {
                            assert(lower_chars((#[trigger] self.extensions@[i as int])@)
                                == lower_chars(spec_ext));
                            assert(spec_any_extension(self.extensions@, path@));
                        }
                        return true;
                    }
                    i = i + 1;
                }
                false
            },
            None => false,
        }
    }

    /// Whether the category may be cleaned at all.
    pub fn is_cleanable(&self) -> (r: bool)
        ensures
            r == (self.clean_safety == CleanSafety::Safe || self.clean_safety
                == CleanSafety::LowRisk || self.clean_safety == CleanSafety::MediumRisk),
    {
        match self.clean_safety {
            CleanSafety::Safe => true,
            CleanSafety::LowRisk => true,
            CleanSafety::MediumRisk => true,
            CleanSafety::HighRisk => false,
            CleanSafety::NotCleanable => false,
        }
    }
}

/// The registry: the categories in match order, and the globally protected
/// extensions and locations.
pub struct FileCategoryRegistry {
    categories: Vec<FileCategoryRule>,
    protected_extensions: Vec<String>,
    protected_path_patterns: Vec<String>,
}

/// A lowered path is protected when it ends in a dot and a protected
/// extension or contains a protected location pattern.
pub open spec fn spec_registry_protected(
    extensions: Seq<String>,
    patterns: Seq<String>,
    path_lower: Seq<char>,
) -> bool {
    ||| exists|i: int|
        0 <= i < extensions.len() && ends_with_chars_seq(
            path_lower,
            "."@ + extensions[i]@,
        )
    ||| exists|i: int|
        0 <= i < patterns.len() && contains_chars_seq(path_lower, lower_chars(patterns[i]@))
}

fn push_str(v: &mut Vec<String>, s: &str)
    ensures
        final(v)@.len() == old(v)@.len() + 1,
        final(v)@.last()@ == s@,
        forall|i: int| 0 <= i < old(v)@.len() ==> final(v)@[i] == old(v)@[i],
{
    v.push(s.to_owned());
}

impl FileCategoryRegistry {
    pub closed spec fn categories_view(&self) -> Seq<FileCategoryRule> {
        self.categories@
    }

    pub closed spec fn extensions_view(&self) -> Seq<String> {
        self.protected_extensions@
    }

    pub closed spec fn patterns_view(&self) -> Seq<String> {
        self.protected_path_patterns@
    }

    /// The built-in registry: system temporary files, browser caches,
    /// application caches, logs, the recycle bin, package-manager caches,
    /// thumbnail caches, crash dumps and the system update cache.
    pub fn new() -> (r: FileCategoryRegistry)
        ensures
            r.categories_view().len() == 10,
            r.extensions_view().len() == 10,
            r.patterns_view().len() == 15,
    {
        let mut categories: Vec<FileCategoryRule> = Vec::new();
        categories.push(make_rule("system_temp", "system temporary files", "temporary data produced while applications run; generally safe to clean", CleanSafety::Safe));
        categories.push(make_rule("browser_cache", "browser cache", "pages, images and scripts cached while browsing; cleaning them only slows the next visit", CleanSafety::Safe));
        categories.push(make_rule("app_cache", "application cache", "caches kept by applications and build tools; close the application before cleaning", CleanSafety::LowRisk));
        categories.push(make_rule("log_files", "log files", "records written while programs run; cleaning loses history, not function", CleanSafety::Safe));
        categories.push(make_rule("recycle_bin", "recycle bin", "files already deleted but not yet purged; cleaning removes them for good", CleanSafety::Safe));
        categories.push(make_rule("npm_cache", "package cache (node)", "packages downloaded by the node package manager; they will be fetched again on demand", CleanSafety::Safe));
        categories.push(make_rule("pip_cache", "package cache (python)", "packages downloaded by the python package manager; they will be fetched again on demand", CleanSafety::Safe));
        categories.push(make_rule("thumbnail_cache", "thumbnail cache", "previews generated for images and videos; the system rebuilds them", CleanSafety::Safe));
        categories.push(make_rule("crash_dumps", "crash dumps", "debugging snapshots written when programs crash", CleanSafety::Safe));
        categories.push(make_rule("windows_update", "system update cache", "downloads kept by the system updater; clean only on a stable system", CleanSafety::MediumRisk));
        let mut c = categories;
        fill_category_patterns(&mut c);
        let mut protected_extensions: Vec<String> = Vec::new();
        push_str(&mut protected_extensions, "jar");
        push_str(&mut protected_extensions, "dll");
        push_str(&mut protected_extensions, "exe");
        push_str(&mut protected_extensions, "sys");
        push_str(&mut protected_extensions, "so");
        push_str(&mut protected_extensions, "dylib");
        push_str(&mut protected_extensions, "lib");
        push_str(&mut protected_extensions, "ocx");
        push_str(&mut protected_extensions, "drv");
        push_str(&mut protected_extensions, "efi");
        let mut protected_path_patterns: Vec<String> = Vec::new();
        push_str(&mut protected_path_patterns, "\\windows\\system32\\");
        push_str(&mut protected_path_patterns, "\\windows\\syswow64\\");
        push_str(&mut protected_path_patterns, "\\windows\\winsxs\\");
        push_str(&mut protected_path_patterns, "\\program files\\");
        push_str(&mut protected_path_patterns, "\\program files (x86)\\");
        push_str(&mut protected_path_patterns, "\\programdata\\");
        push_str(&mut protected_path_patterns, "\\lib\\");
        push_str(&mut protected_path_patterns, "\\libs\\");
        push_str(&mut protected_path_patterns, "\\plugins\\");
        push_str(&mut protected_path_patterns, "\\node_modules\\");
        push_str(&mut protected_path_patterns, "\\.nuget\\");
        push_str(&mut protected_path_patterns, "\\.gradle\\");
        push_str(&mut protected_path_patterns, "\\.m2\\");
        push_str(&mut protected_path_patterns, "\\venv\\");
        push_str(&mut protected_path_patterns, "\\site-packages\\");
        FileCategoryRegistry { categories: c, protected_extensions, protected_path_patterns }
    }

    /// The first category claiming the path, unless the path is protected.
    pub fn categorize_file(&self, path: &str) -> (r: Option<&FileCategoryRule>)
        ensures
            match r {
                Some(rule) => !spec_registry_protected(
                    self.extensions_view(),
                    self.patterns_view(),
                    lower_chars(path@),
                ) && exists|i: int|
                    0 <= i < self.categories_view().len() && *rule == self.categories_view()[i]
                        && spec_category_matches(#[trigger] self.categories_view()[i], path@) && (
                    forall|j: int|
                        0 <= j < i ==> !spec_category_matches(
                            #[trigger] self.categories_view()[j],
                            path@,
                        )),
                None => spec_registry_protected(
                    self.extensions_view(),
                    self.patterns_view(),
                    lower_chars(path@),
                ) || forall|i: int|
                    0 <= i < self.categories_view().len() ==> !spec_category_matches(
                        #[trigger] self.categories_view()[i],
                        path@,
                    ),
            },
    {
        let chars = str_chars(path);
        let path_lower = to_lower_chars(chars.as_slice());
        let lower_s = crate::text::chars_to_string(&path_lower);
        if self.is_protected_path(lower_s.as_str()) {
            return None;
        }
        let mut i: usize = 0;
        while i < self.categories.len()
            invariant
                i <= self.categories@.len(),
                !spec_registry_protected(
                    self.protected_extensions@,
                    self.protected_path_patterns@,
                    lower_chars(path@),
                ),
                forall|j: int|
                    0 <= j < i ==> !spec_category_matches(
                        #[trigger] self.categories@[j],
                        path@,
                    ),
            decreases self.categories@.len() - i,
        {
            if self.categories[i].matches(path) {
                proof {
                    assert(spec_category_matches(
                        #[trigger] self.categories_view()[i as int],
                        path@,
                    ));
                    assert(forall|j: int|
                        0 <= j < i ==> !spec_category_matches(
                            #[trigger] self.categories_view()[j],
                            path@,
                        ));
                }
                return Some(&self.categories[i]);
            }
            i = i + 1;
        }
        None
    }

    /// Whether an already-lowered path is protected.
    pub fn is_protected_path(&self, path_lower: &str) -> (r: bool)
        ensures
            r == spec_registry_protected(
                self.extensions_view(),
                self.patterns_view(),
                path_lower@,
            ),
    {
        let chars = str_chars(path_lower);
        let mut i: usize = 0;
        while i < self.protected_extensions.len()
            invariant
                i <= self.protected_extensions@.len(),
                chars@ == path_lower@,
                forall|j: int|
                    0 <= j < i ==> !ends_with_chars_seq(
                        path_lower@,
                        "."@ + (#[trigger] self.protected_extensions@[j])@,
                    ),
            decreases self.protected_extensions@.len() - i,
        {
            let ext = str_chars(self.protected_extensions[i].as_str());
            let mut dotted: Vec<char> = Vec::new();
            dotted.push('.');
            let mut k: usize = 0;
            proof {
                reveal_strlit(".");
                assert(dotted@ =~= "."@ + ext@.take(0));
            }
            while k < ext.len()
                invariant
                    k <= ext@.len(),
                    dotted@ == "."@ + ext@.take(k as int),
                decreases ext@.len() - k,
            {
                dotted.push(ext[k]);
                proof {
                    assert(ext@.take(k + 1) =~= ext@.take(k as int).push(ext@[k as int]));
                    assert(dotted@ =~= "."@ + ext@.take(k + 1));
                }
                k = k + 1;
            }
            proof {
                assert(ext@.take(ext@.len() as int) =~= ext@);
            }
            if ends_with_chars(chars.as_slice(), dotted.as_slice()) {
                return true;
            }
            i = i + 1;
        }
        let mut i: usize = 0;
        while i < self.protected_path_patterns.len()
            invariant
                i <= self.protected_path_patterns@.len(),
                chars@ == path_lower@,
                forall|j: int|
                    0 <= j < self.protected_extensions@.len() ==> !ends_with_chars_seq(
                        path_lower@,
                        "."@ + (#[trigger] self.protected_extensions@[j])@,
                    ),
                forall|j: int|
                    0 <= j < i ==> !contains_chars_seq(
                        path_lower@,
                        lower_chars((#[trigger] self.protected_path_patterns@[j])@),
                    ),
            decreases self.protected_path_patterns@.len() - i,
        {
            let pat = str_chars(self.protected_path_patterns[i].as_str());
            let pat_lower = to_lower_chars(pat.as_slice());
            if contains_chars(chars.as_slice(), pat_lower.as_slice()) {
                return true;
            }
            i = i + 1;
        }
        false
    }

    /// The categories, in match order.
    pub fn get_all_categories(&self) -> (r: &Vec<FileCategoryRule>)
        ensures
            r@ == self.categories_view(),
    {
        &self.categories
    }

    /// The first category with this name.
    pub fn get_category(&self, name: &str) -> (r: Option<&FileCategoryRule>)
        ensures
            match r {
                Some(rule) => exists|i: int|
                    0 <= i < self.categories_view().len() && *rule
                        == #[trigger] self.categories_view()[i] && rule.name@ == name@,
                None => forall|i: int|
                    0 <= i < self.categories_view().len() ==> (
                    #[trigger] self.categories_view()[i]).name@ != name@,
            },
    {
        let mut i: usize = 0;
        while i < self.categories.len()
            invariant
                i <= self.categories@.len(),
                forall|j: int| 0 <= j < i ==> (#[trigger] self.categories@[j]).name@ != name@,
            decreases self.categories@.len() - i,
    {
            let matches = {
                let cand = str_chars(self.categories[i].name.as_str());
                let target = str_chars(name);
                chars_eq(cand.as_slice(), target.as_slice())
            };
            if matches {
                proof {
                    assert((#[trigger] self.categories_view()[i as int]).name@ == name@);
                }
                return Some(&self.categories[i]);
            }
            i = i + 1;
        }
        None
    }

    /// Whether the path falls in a cleanable category and is not protected.
    pub fn is_file_cleanable(&self, path: &str) -> (r: bool)
        ensures
            spec_registry_protected(
                self.extensions_view(),
                self.patterns_view(),
                lower_chars(path@),
            ) ==> !r,
    {
        match self.categorize_file(path) {
            Some(rule) => rule.is_cleanable(),
            None => false,
        }
    }
}

impl Default for FileCategoryRegistry {
    /// The same registry as `new`.
    fn default() -> (r: Self)
        ensures
            r.categories_view().len() == 10,
    {
        Self::new()
    }
}

/// A category with its fixed texts and no patterns yet.
fn make_rule(name: &str, display_name: &str, description: &str, clean_safety: CleanSafety) -> (r:
    FileCategoryRule)
    ensures
        r.name@ == name@,
        r.display_name@ == display_name@,
        r.description@ == description@,
        r.clean_safety == clean_safety,
{
    FileCategoryRule {
        name: name.to_owned(),
        display_name: display_name.to_owned(),
        description: description.to_owned(),
        clean_safety,
        path_patterns: Vec::new(),
        extensions: Vec::new(),
        exclude_patterns: Vec::new(),
    }
}

/// Fill the location and extension patterns of the ten built-in categories,
/// in their registry order.
fn fill_category_patterns(c: &mut Vec<FileCategoryRule>)
    requires
        old(c)@.len() == 10,
    ensures
        final(c)@.len() == 10,
{
    let slot = crate::seq_util::vec_index_mut(c, 0);
    push_str(&mut slot.path_patterns, "\\temp\\");
    push_str(&mut slot.path_patterns, "\\tmp\\");
    push_str(&mut slot.path_patterns, "\\windows\\temp\\");
    push_str(&mut slot.extensions, "tmp");
    push_str(&mut slot.extensions, "temp");
    push_str(&mut slot.extensions, "bak");
    let slot = crate::seq_util::vec_index_mut(c, 1);
    push_str(&mut slot.path_patterns, "\\chrome\\user data\\default\\cache");
    push_str(&mut slot.path_patterns, "\\edge\\user data\\default\\cache");
    push_str(&mut slot.path_patterns, "\\firefox\\profiles");
    push_str(&mut slot.path_patterns, "\\browser\\cache");
    push_str(&mut slot.exclude_patterns, "\\cookies");
    push_str(&mut slot.exclude_patterns, "\\bookmarks");
    push_str(&mut slot.exclude_patterns, "\\history");
    push_str(&mut slot.exclude_patterns, "\\logins");
    push_str(&mut slot.exclude_patterns, "\\extensions");
    push_str(&mut slot.exclude_patterns, "\\preferences");
    let slot = crate::seq_util::vec_index_mut(c, 2);
    push_str(&mut slot.path_patterns, "\\cache\\");
    push_str(&mut slot.path_patterns, "\\cached\\");
    push_str(&mut slot.path_patterns, "\\caches\\");
    push_str(&mut slot.path_patterns, "\\__pycache__\\");
    push_str(&mut slot.path_patterns, "\\.cache\\");
    push_str(&mut slot.path_patterns, "\\node_modules\\.cache\\");
    push_str(&mut slot.exclude_patterns, "\\lib\\");
    push_str(&mut slot.exclude_patterns, "\\libs\\");
    push_str(&mut slot.exclude_patterns, "\\bin\\");
    push_str(&mut slot.exclude_patterns, "\\plugins\\");
    push_str(&mut slot.exclude_patterns, "\\.jar");
    push_str(&mut slot.exclude_patterns, "\\.dll");
    push_str(&mut slot.exclude_patterns, "\\.exe");
    push_str(&mut slot.exclude_patterns, "\\.so");
    let slot = crate::seq_util::vec_index_mut(c, 3);
    push_str(&mut slot.path_patterns, "\\logs\\");
    push_str(&mut slot.path_patterns, "\\log\\");
    push_str(&mut slot.extensions, "log");
    push_str(&mut slot.extensions, "logs");
    let slot = crate::seq_util::vec_index_mut(c, 4);
    push_str(&mut slot.path_patterns, "$recycle.bin");
    let slot = crate::seq_util::vec_index_mut(c, 5);
    push_str(&mut slot.path_patterns, "\\npm-cache\\");
    push_str(&mut slot.path_patterns, "\\npm\\cache\\");
    let slot = crate::seq_util::vec_index_mut(c, 6);
    push_str(&mut slot.path_patterns, "\\pip\\cache\\");
    let slot = crate::seq_util::vec_index_mut(c, 7);
    push_str(&mut slot.path_patterns, "\\thumbcache_");
    push_str(&mut slot.path_patterns, "\\microsoft\\windows\\explorer\\");
    push_str(&mut slot.extensions, "db");
    let slot = crate::seq_util::vec_index_mut(c, 8);
    push_str(&mut slot.path_patterns, "\\crashdumps\\");
    push_str(&mut slot.path_patterns, "\\dumps\\");
    push_str(&mut slot.extensions, "dmp");
    push_str(&mut slot.extensions, "dump");
    let slot = crate::seq_util::vec_index_mut(c, 9);
    push_str(&mut slot.path_patterns, "\\windows\\softwaredistribution\\download\\");
}

/// The user-facing name of a category, or the raw name when it is unknown.
pub fn get_category_display_name(name: &str) -> String {
    let registry = FileCategoryRegistry::new();
    match registry.get_category(name) {
        Some(rule) => rule.display_name.clone(),
        None => name.to_owned(),
    }
}

/// The description of a category, or a fixed fallback when it is unknown.
pub fn get_category_description(name: &str) -> String {
    let registry = FileCategoryRegistry::new();
    match registry.get_category(name) {
        Some(rule) => rule.description.clone(),
        None => "unknown file category".to_string(),
    }
}

/// Name, display name and description of every built-in category.
pub fn get_all_category_info() -> (r: Vec<(String, String, String)>)
    ensures
        r@.len() == 10,
{
    let registry = FileCategoryRegistry::new();
    let cats = registry.get_all_categories();
    let mut out: Vec<(String, String, String)> = Vec::new();
    let mut i: usize = 0;
    while i < cats.len()
        invariant
            i <= cats@.len(),
            out@.len() == i,
        decreases cats@.len() - i,
    {
        out.push(
            (cats[i].name.clone(), cats[i].display_name.clone(), cats[i].description.clone()),
        );
        i = i + 1;
    }
    out
}

} // verus!
