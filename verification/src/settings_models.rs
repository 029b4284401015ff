//! Application settings, clean rules and the whitelist.

use vstd::prelude::*;

use crate::cleaner_models::CleanMode;
use crate::file_analyzer_models::JunkCategory;
use crate::path_util::spec_glob_match;
use crate::platform;
use crate::scan::ScanMode;
use crate::text::{
    chars_eq, chars_to_string, lower_chars, starts_with_chars, starts_with_chars_seq, str_chars,
    to_lower_chars,
};

verus! {

/// The user-facing settings of the application.
#[derive(Debug, Clone)]
pub struct AppSettings {
    pub auto_scan: bool,
    pub scan_on_startup: bool,
    pub default_scan_mode: ScanMode,
    pub default_clean_mode: CleanMode,
    pub confirm_before_clean: bool,
    pub show_notifications: bool,
    pub language: String,
    pub theme: String,
}

impl Default for AppSettings {
    /// Nothing automatic, quick scans, the recycle bin, confirmation on,
    /// notifications on.
    fn default() -> (r: Self)
        ensures
            !r.auto_scan,
            !r.scan_on_startup,
            r.default_scan_mode == ScanMode::Quick,
            r.default_clean_mode == CleanMode::MoveToTrash,
            r.confirm_before_clean,
            r.show_notifications,
            r.language@ == "zh-CN"@,
            r.theme@ == "dark"@,
    {
        AppSettings {
            auto_scan: false,
            scan_on_startup: false,
            default_scan_mode: ScanMode::Quick,
            default_clean_mode: CleanMode::MoveToTrash,
            confirm_before_clean: true,
            show_notifications: true,
            language: "zh-CN".to_string(),
            theme: "dark".to_string(),
        }
    }
}

/// One clean rule: a pattern and the category it assigns.
#[derive(Debug, Clone)]
pub struct CleanRule {
    pub id: String,
    pub name: String,
    pub description: String,
    pub pattern: String,
    pub category: JunkCategory,
    pub enabled: bool,
}

/// Entries the cleaner must never touch.
#[derive(Debug, Clone)]
pub struct WhitelistSettings {
    pub enabled: bool,
    pub paths: Vec<WhitelistPath>,
    pub extensions: Vec<WhitelistExtension>,
    pub patterns: Vec<WhitelistPattern>,
}

/// One whitelisted path prefix.
#[derive(Debug, Clone)]
pub struct WhitelistPath {
    pub path: String,
    pub description: String,
    pub enabled: bool,
    pub added_time: u64,
}

/// One whitelisted extension.
#[derive(Debug, Clone)]
pub struct WhitelistExtension {
    pub extension: String,
    pub description: String,
    pub enabled: bool,
}

/// One whitelisted file-name pattern.
#[derive(Debug, Clone)]
pub struct WhitelistPattern {
    pub pattern: String,
    pub description: String,
    pub enabled: bool,
}

impl Default for WhitelistSettings {
    /// Enabled, with nothing whitelisted yet.
    fn default() -> (r: Self)
        ensures
            r.enabled,
            r.paths@.len() == 0,
            r.extensions@.len() == 0,
            r.patterns@.len() == 0,
    {
        WhitelistSettings { enabled: true, paths: Vec::new(), extensions: Vec::new(), patterns: Vec::new() }
    }
}

/// Some enabled whitelist path is a case-folded prefix of the path.
pub open spec fn spec_path_whitelisted(paths: Seq<WhitelistPath>, path: Seq<char>) -> bool {
    exists|i: int|
        0 <= i < paths.len() && paths[i].enabled && starts_with_chars_seq(
            lower_chars(path),
            lower_chars(paths[i].path@),
        )
}

/// Some enabled whitelist extension equals the extension, case folded.
pub open spec fn spec_extension_whitelisted(
    extensions: Seq<WhitelistExtension>,
    ext: Seq<char>,
) -> bool {
    exists|i: int|
        0 <= i < extensions.len() && extensions[i].enabled && lower_chars(extensions[i].extension@)
            == lower_chars(ext)
}

/// Some enabled whitelist pattern glob-matches the file name.
pub open spec fn spec_pattern_whitelisted(
    patterns: Seq<WhitelistPattern>,
    filename: Seq<char>,
) -> bool {
    exists|i: int|
        0 <= i < patterns.len() && patterns[i].enabled && spec_glob_match(
            patterns[i].pattern@,
            filename,
        )
}

/// The extension as stored: dot-prefixed when the dot is missing.
pub open spec fn spec_dotted(ext: Seq<char>) -> Seq<char> {
    if ext.len() > 0 && ext[0] == '.' {
        ext
    } else {
        "."@ + ext
    }
}

/// A path entry with its enabled flag replaced.
pub open spec fn spec_wl_path_with_enabled(e: WhitelistPath, enabled: bool) -> WhitelistPath {
    WhitelistPath { enabled, ..e }
}

/// An extension entry with its enabled flag replaced.
pub open spec fn spec_wl_extension_with_enabled(
    e: WhitelistExtension,
    enabled: bool,
) -> WhitelistExtension {
    WhitelistExtension { enabled, ..e }
}

/// A pattern entry with its enabled flag replaced.
pub open spec fn spec_wl_pattern_with_enabled(
    e: WhitelistPattern,
    enabled: bool,
) -> WhitelistPattern {
    WhitelistPattern { enabled, ..e }
}

/// The dot-normalised form of an extension, as characters.
fn dotted_extension(extension: &str) -> (r: Vec<char>)
    ensures
        r@ == spec_dotted(extension@),
{
    let chars = str_chars(extension);
    if chars.len() > 0 && chars[0] == '.' {
        chars
    } else {
        let mut dotted: Vec<char> = Vec::new();
        dotted.push('.');
        proof {
            reveal_strlit(".");
            assert(dotted@ =~= "."@ + extension@.take(0));
        }
        let mut i: usize = 0;
        while i < chars.len()
            invariant
                i <= chars@.len(),
                chars@ == extension@,
                dotted@ == "."@ + extension@.take(i as int),
            decreases chars@.len() - i,
        {
            dotted.push(chars[i]);
            proof {
                assert(extension@.take(i + 1) =~= extension@.take(i as int).push(
                    extension@[i as int],
                ));
                assert(dotted@ =~= "."@ + extension@.take(i + 1));
            }
            i = i + 1;
        }
        proof {
            assert(extension@.take(extension@.len() as int) =~= extension@);
        }
        dotted
    }
}

/// A field-by-field copy of a whitelist path entry.
fn copy_wl_path(e: &WhitelistPath) -> (r: WhitelistPath)
    ensures
        r == *e,
{
    WhitelistPath {
        path: e.path.clone(),
        description: e.description.clone(),
        enabled: e.enabled,
        added_time: e.added_time,
    }
}

/// A field-by-field copy of a whitelist extension entry.
fn copy_wl_extension(e: &WhitelistExtension) -> (r: WhitelistExtension)
    ensures
        r == *e,
{
    WhitelistExtension {
        extension: e.extension.clone(),
        description: e.description.clone(),
        enabled: e.enabled,
    }
}

/// A field-by-field copy of a whitelist pattern entry.
fn copy_wl_pattern(e: &WhitelistPattern) -> (r: WhitelistPattern)
    ensures
        r == *e,
{
    WhitelistPattern {
        pattern: e.pattern.clone(),
        description: e.description.clone(),
        enabled: e.enabled,
    }
}

impl WhitelistSettings {
    /// The same whitelist as `Default`.
    pub fn new() -> (r: Self)
        ensures
            r.enabled,
            r.paths@.len() == 0,
            r.extensions@.len() == 0,
            r.patterns@.len() == 0,
    {
        Self::default()
    }

    /// Append an enabled path entry stamped with the current time.
    pub fn add_path(&mut self, path: String, description: String)
        ensures
            final(self).paths@.len() == old(self).paths@.len() + 1,
            final(self).paths@.last().path == path,
            final(self).paths@.last().enabled,
            forall|i: int| 0 <= i < old(self).paths@.len() ==> final(self).paths@[i] == old(self).paths@[i],
            final(self).extensions@ == old(self).extensions@,
            final(self).patterns@ == old(self).patterns@,
            final(self).enabled == old(self).enabled,
    {
        let added_time = platform::now_secs();
        self.paths.push(WhitelistPath { path, description, enabled: true, added_time });
    }

    /// Append an enabled extension entry, its extension dot-prefixed when
    /// the dot is missing; everything already there stays in place.
    pub fn add_extension(&mut self, extension: String, description: String)
        ensures
            final(self).extensions@.len() == old(self).extensions@.len() + 1,
            final(self).extensions@.drop_last() == old(self).extensions@,
            final(self).extensions@.last().extension@ == spec_dotted(extension@),
            final(self).extensions@.last().description == description,
            final(self).extensions@.last().enabled,
            final(self).paths@ == old(self).paths@,
            final(self).patterns@ == old(self).patterns@,
            final(self).enabled == old(self).enabled,
    {
        let dotted = dotted_extension(extension.as_str());
        let ext = chars_to_string(&dotted);
        self.extensions.push(WhitelistExtension { extension: ext, description, enabled: true });
        proof {
            assert(self.extensions@.drop_last() =~= old(self).extensions@);
        }
    }

    /// Append an enabled pattern entry.
    pub fn add_pattern(&mut self, pattern: String, description: String)
        ensures
            final(self).patterns@.len() == old(self).patterns@.len() + 1,
            final(self).patterns@.last().pattern == pattern,
            final(self).patterns@.last().enabled,
            final(self).paths@ == old(self).paths@,
            final(self).extensions@ == old(self).extensions@,
            final(self).enabled == old(self).enabled,
    {
        self.patterns.push(WhitelistPattern { pattern, description, enabled: true });
    }

    /// Whether an enabled whitelist path protects this path. A disabled
    /// whitelist protects nothing.
    pub fn is_path_whitelisted(&self, path: &str) -> (r: bool)
        ensures
            r == (self.enabled && spec_path_whitelisted(self.paths@, path@)),
    {
        if !self.enabled {
            return false;
        }
        let chars = str_chars(path);
        let path_lower = to_lower_chars(chars.as_slice());
        let mut i: usize = 0;
        while i < self.paths.len()
            invariant
                self.enabled,
                i <= self.paths@.len(),
                path_lower@ == lower_chars(path@),
                forall|j: int|
                    0 <= j < i ==> !((#[trigger] self.paths@[j]).enabled && starts_with_chars_seq(
                        lower_chars(path@),
                        lower_chars(self.paths@[j].path@),
                    )),
            decreases self.paths@.len() - i,
        {
            if self.paths[i].enabled {
                let p_chars = str_chars(self.paths[i].path.as_str());
                let p_lower = to_lower_chars(p_chars.as_slice());
                if starts_with_chars(path_lower.as_slice(), p_lower.as_slice()) {
                    proof {
                        assert(self.paths@[i as int].enabled && starts_with_chars_seq(
                            lower_chars(path@),
                            lower_chars(self.paths@[i as int].path@),
                        ));
                        assert(spec_path_whitelisted(self.paths@, path@));
                    }
                    return true;
                }
            }
            i = i + 1;
        }
        false
    }

    /// Whether an enabled whitelist extension equals this one, case folded.
    pub fn is_extension_whitelisted(&self, extension: &str) -> (r: bool)
        ensures
            r == (self.enabled && spec_extension_whitelisted(self.extensions@, extension@)),
    {
        if !self.enabled {
            return false;
        }
        let chars = str_chars(extension);
        let ext_lower = to_lower_chars(chars.as_slice());
        let mut i: usize = 0;
        while i < self.extensions.len()
            invariant
                self.enabled,
                i <= self.extensions@.len(),
                ext_lower@ == lower_chars(extension@),
                forall|j: int|
                    0 <= j < i ==> !((#[trigger] self.extensions@[j]).enabled && lower_chars(
                        self.extensions@[j].extension@,
                    ) == lower_chars(extension@)),
            decreases self.extensions@.len() - i,
        {
            if self.extensions[i].enabled {
                let e_chars = str_chars(self.extensions[i].extension.as_str());
                let e_lower = to_lower_chars(e_chars.as_slice());
                if chars_eq(e_lower.as_slice(), ext_lower.as_slice()) {
                    proof {
                        assert(self.extensions@[i as int].enabled && lower_chars(
                            self.extensions@[i as int].extension@,
                        ) == lower_chars(extension@));
                        assert(spec_extension_whitelisted(self.extensions@, extension@));
                    }
                    return true;
                }
            }
            i = i + 1;
        }
        false
    }

    /// Whether an enabled whitelist pattern glob-matches this file name.
    pub fn matches_pattern(&self, filename: &str) -> (r: bool)
        ensures
            r == (self.enabled && spec_pattern_whitelisted(self.patterns@, filename@)),
    {
        if !self.enabled {
            return false;
        }
        let mut i: usize = 0;
        while i < self.patterns.len()
            invariant
                self.enabled,
                i <= self.patterns@.len(),
                forall|j: int|
                    0 <= j < i ==> !((#[trigger] self.patterns@[j]).enabled && spec_glob_match(
                        self.patterns@[j].pattern@,
                        filename@,
                    )),
            decreases self.patterns@.len() - i,
        {
            if self.patterns[i].enabled {
                if crate::path_util::glob_match_str(self.patterns[i].pattern.as_str(), filename) {
                    proof {
                        assert(self.patterns@[i as int].enabled && spec_glob_match(
                            self.patterns@[i as int].pattern@,
                            filename@,
                        ));
                        assert(spec_pattern_whitelisted(self.patterns@, filename@));
                    }
                    return true;
                }
            }
            i = i + 1;
        }
        false
    }

    /// Remove every path entry with exactly this path; reports whether any
    /// entry left.
    pub fn remove_path(&mut self, path: &str) -> (r: bool)
        ensures
            final(self).paths@ == old(self).paths@.filter(
                |p: WhitelistPath| p.path@ != path@,
            ),
            final(self).extensions@ == old(self).extensions@,
            final(self).patterns@ == old(self).patterns@,
            final(self).enabled == old(self).enabled,
            r == (final(self).paths@.len() != old(self).paths@.len()),
    {
        let ghost orig = self.paths@;
        let initial_len = self.paths.len();
        let mut kept: Vec<WhitelistPath> = Vec::new();
        let mut i: usize = 0;
        proof {
            crate::seq_util::lemma_filter_empty(
                orig.take(0),
                |p: WhitelistPath| p.path@ != path@,
            );
            assert(orig.take(0) =~= Seq::<WhitelistPath>::empty());
        }
        while i < self.paths.len()
            invariant
                i <= orig.len(),
                self.paths@ == orig,
                self.extensions@ == old(self).extensions@,
                self.patterns@ == old(self).patterns@,
                self.enabled == old(self).enabled,
                kept@ == orig.take(i as int).filter(|p: WhitelistPath| p.path@ != path@),
            decreases orig.len() - i,
        {
            let keep = {
                let cand = str_chars(self.paths[i].path.as_str());
                let target = str_chars(path);
                !chars_eq(cand.as_slice(), target.as_slice())
            };
            proof {
                assert(orig.take(i + 1) =~= orig.take(i as int).push(orig[i as int]));
                crate::seq_util::lemma_filter_push(
                    orig.take(i as int),
                    |p: WhitelistPath| p.path@ != path@,
                    orig[i as int],
                );
            }
            if keep {
                let entry = copy_wl_path(&self.paths[i]);
                kept.push(entry);
            }
            i = i + 1;
        }
        proof {
            assert(orig.take(orig.len() as int) =~= orig);
        }
        self.paths = kept;
        self.paths.len() != initial_len
    }

    /// Flip the enabled flag of the first path entry with exactly this
    /// path and hand the new state back; exactly that entry changes, so a
    /// second toggle restores it. Without a match nothing changes and false
    /// comes back — a false return is therefore ambiguous between "now
    /// disabled" and "not found", as it was always meant to be read.
    pub fn toggle_path(&mut self, path: &str) -> (r: bool)
        ensures
            ({
                ||| exists|i: int|
                    {
                        &&& 0 <= i < old(self).paths@.len()
                        &&& (#[trigger] old(self).paths@[i]).path@ == path@
                        &&& (forall|j: int| 0 <= j < i ==> old(self).paths@[j].path@ != path@)
                        &&& final(self).paths@ == old(self).paths@.update(
                            i,
                            spec_wl_path_with_enabled(
                                old(self).paths@[i],
                                !old(self).paths@[i].enabled,
                            ),
                        )
                        &&& r == !old(self).paths@[i].enabled
                    }
                ||| ((forall|i: int|
                    0 <= i < old(self).paths@.len() ==> (#[trigger] old(self).paths@[i]).path@
                        != path@) && final(self).paths@ == old(self).paths@ && !r)
            }),
            final(self).extensions@ == old(self).extensions@,
            final(self).patterns@ == old(self).patterns@,
            final(self).enabled == old(self).enabled,
    {
        let mut i: usize = 0;
        while i < self.paths.len()
            invariant
                i <= self.paths@.len(),
                self == old(self),
                forall|j: int| 0 <= j < i ==> (#[trigger] self.paths@[j]).path@ != path@,
            decreases self.paths@.len() - i,
        {
            let matches = {
                let cand = str_chars(self.paths[i].path.as_str());
                let target = str_chars(path);
                chars_eq(cand.as_slice(), target.as_slice())
            };
            if matches {
                let slot = crate::seq_util::vec_index_mut(&mut self.paths, i);
                let new_state = !slot.enabled;
                slot.enabled = new_state;
                proof {
                    assert((#[trigger] old(self).paths@[i as int]).path@ == path@);
                    assert(self.paths@[i as int] == spec_wl_path_with_enabled(
                        old(self).paths@[i as int],
                        new_state,
                    ));
                    assert(self.paths@ =~= old(self).paths@.update(
                        i as int,
                        spec_wl_path_with_enabled(old(self).paths@[i as int], new_state),
                    ));
                }
                return new_state;
            }
            i = i + 1;
        }
        false
    }

    /// Remove every extension entry equal to the given one, dot-prefixed
    /// when the dot is missing; reports whether any entry left. Removing
    /// what `add_extension` just added therefore undoes the add.
    pub fn remove_extension(&mut self, extension: &str) -> (r: bool)
        ensures
            final(self).extensions@ == old(self).extensions@.filter(
                |e: WhitelistExtension| e.extension@ != spec_dotted(extension@),
            ),
            final(self).paths@ == old(self).paths@,
            final(self).patterns@ == old(self).patterns@,
            final(self).enabled == old(self).enabled,
            r == (final(self).extensions@.len() != old(self).extensions@.len()),
    {
        let target = dotted_extension(extension);
        let ghost orig = self.extensions@;
        let ghost tview = spec_dotted(extension@);
        let initial_len = self.extensions.len();
        let mut kept: Vec<WhitelistExtension> = Vec::new();
        let mut i: usize = 0;
        proof {
            crate::seq_util::lemma_filter_empty(
                orig.take(0),
                |e: WhitelistExtension| e.extension@ != tview,
            );
            assert(orig.take(0) =~= Seq::<WhitelistExtension>::empty());
        }
        while i < self.extensions.len()
            invariant
                i <= orig.len(),
                self.extensions@ == orig,
                target@ == tview,
                self.paths@ == old(self).paths@,
                self.patterns@ == old(self).patterns@,
                self.enabled == old(self).enabled,
                kept@ == orig.take(i as int).filter(
                    |e: WhitelistExtension| e.extension@ != tview,
                ),
            decreases orig.len() - i,
        {
            let keep = {
                let cand = str_chars(self.extensions[i].extension.as_str());
                !chars_eq(cand.as_slice(), target.as_slice())
            };
            proof {
                assert(orig.take(i + 1) =~= orig.take(i as int).push(orig[i as int]));
                crate::seq_util::lemma_filter_push(
                    orig.take(i as int),
                    |e: WhitelistExtension| e.extension@ != tview,
                    orig[i as int],
                );
            }
            if keep {
                let entry = copy_wl_extension(&self.extensions[i]);
                kept.push(entry);
            }
            i = i + 1;
        }
        proof {
            assert(orig.take(orig.len() as int) =~= orig);
        }
        self.extensions = kept;
        self.extensions.len() != initial_len
    }

    /// Remove every pattern entry with exactly this pattern; reports whether
    /// any entry left.
    pub fn remove_pattern(&mut self, pattern: &str) -> (r: bool)
        ensures
            final(self).patterns@ == old(self).patterns@.filter(
                |p: WhitelistPattern| p.pattern@ != pattern@,
            ),
            final(self).paths@ == old(self).paths@,
            final(self).extensions@ == old(self).extensions@,
            final(self).enabled == old(self).enabled,
            r == (final(self).patterns@.len() != old(self).patterns@.len()),
    {
        let ghost orig = self.patterns@;
        let initial_len = self.patterns.len();
        let mut kept: Vec<WhitelistPattern> = Vec::new();
        let mut i: usize = 0;
        proof {
            crate::seq_util::lemma_filter_empty(
                orig.take(0),
                |p: WhitelistPattern| p.pattern@ != pattern@,
            );
            assert(orig.take(0) =~= Seq::<WhitelistPattern>::empty());
        }
        while i < self.patterns.len()
            invariant
                i <= orig.len(),
                self.patterns@ == orig,
                self.paths@ == old(self).paths@,
                self.extensions@ == old(self).extensions@,
                self.enabled == old(self).enabled,
                kept@ == orig.take(i as int).filter(
                    |p: WhitelistPattern| p.pattern@ != pattern@,
                ),
            decreases orig.len() - i,
        {
            let keep = {
                let cand = str_chars(self.patterns[i].pattern.as_str());
                let target = str_chars(pattern);
                !chars_eq(cand.as_slice(), target.as_slice())
            };
            proof {
                assert(orig.take(i + 1) =~= orig.take(i as int).push(orig[i as int]));
                crate::seq_util::lemma_filter_push(
                    orig.take(i as int),
                    |p: WhitelistPattern| p.pattern@ != pattern@,
                    orig[i as int],
                );
            }
            if keep {
                let entry = copy_wl_pattern(&self.patterns[i]);
                kept.push(entry);
            }
            i = i + 1;
        }
        proof {
            assert(orig.take(orig.len() as int) =~= orig);
        }
        self.patterns = kept;
        self.patterns.len() != initial_len
    }

    /// Flip the enabled flag of the first extension entry equal to the
    /// given one (dot-prefixed when the dot is missing) and hand the new
    /// state back; exactly that entry changes, so a second toggle restores
    /// it. Without a match nothing changes and false comes back.
    pub fn toggle_extension(&mut self, extension: &str) -> (r: bool)
        ensures
            ({
                ||| exists|i: int|
                    {
                        &&& 0 <= i < old(self).extensions@.len()
                        &&& (#[trigger] old(self).extensions@[i]).extension@ == spec_dotted(
                            extension@,
                        )
                        &&& (forall|j: int|
                            0 <= j < i ==> old(self).extensions@[j].extension@ != spec_dotted(
                                extension@,
                            ))
                        &&& final(self).extensions@ == old(self).extensions@.update(
                            i,
                            spec_wl_extension_with_enabled(
                                old(self).extensions@[i],
                                !old(self).extensions@[i].enabled,
                            ),
                        )
                        &&& r == !old(self).extensions@[i].enabled
                    }
                ||| ((forall|i: int|
                    0 <= i < old(self).extensions@.len() ==> (
                    #[trigger] old(self).extensions@[i]).extension@ != spec_dotted(extension@))
                    && final(self).extensions@ == old(self).extensions@ && !r)
            }),
            final(self).paths@ == old(self).paths@,
            final(self).patterns@ == old(self).patterns@,
            final(self).enabled == old(self).enabled,
    {
        let target = dotted_extension(extension);
        let mut i: usize = 0;
        while i < self.extensions.len()
            invariant
                i <= self.extensions@.len(),
                self == old(self),
                target@ == spec_dotted(extension@),
                forall|j: int|
                    0 <= j < i ==> (#[trigger] self.extensions@[j]).extension@ != spec_dotted(
                        extension@,
                    ),
            decreases self.extensions@.len() - i,
        {
            let matches = {
                let cand = str_chars(self.extensions[i].extension.as_str());
                chars_eq(cand.as_slice(), target.as_slice())
            };
            if matches {
                let slot = crate::seq_util::vec_index_mut(&mut self.extensions, i);
                let new_state = !slot.enabled;
                slot.enabled = new_state;
                proof {
                    assert((#[trigger] old(self).extensions@[i as int]).extension@ == spec_dotted(
                        extension@,
                    ));
                    assert(self.extensions@[i as int] == spec_wl_extension_with_enabled(
                        old(self).extensions@[i as int],
                        new_state,
                    ));
                    assert(self.extensions@ =~= old(self).extensions@.update(
                        i as int,
                        spec_wl_extension_with_enabled(
                            old(self).extensions@[i as int],
                            new_state,
                        ),
                    ));
                }
                return new_state;
            }
            i = i + 1;
        }
        false
    }

    /// Flip the enabled flag of the first pattern entry with exactly this
    /// pattern and hand the new state back; exactly that entry changes, so a
    /// second toggle restores it. Without a match nothing changes and false
    /// comes back.
    pub fn toggle_pattern(&mut self, pattern: &str) -> (r: bool)
        ensures
            ({
                ||| exists|i: int|
                    {
                        &&& 0 <= i < old(self).patterns@.len()
                        &&& (#[trigger] old(self).patterns@[i]).pattern@ == pattern@
                        &&& (forall|j: int|
                            0 <= j < i ==> old(self).patterns@[j].pattern@ != pattern@)
                        &&& final(self).patterns@ == old(self).patterns@.update(
                            i,
                            spec_wl_pattern_with_enabled(
                                old(self).patterns@[i],
                                !old(self).patterns@[i].enabled,
                            ),
                        )
                        &&& r == !old(self).patterns@[i].enabled
                    }
                ||| ((forall|i: int|
                    0 <= i < old(self).patterns@.len() ==> (
                    #[trigger] old(self).patterns@[i]).pattern@ != pattern@) && final(
                    self
                ).patterns@ == old(self).patterns@ && !r)
            }),
            final(self).paths@ == old(self).paths@,
            final(self).extensions@ == old(self).extensions@,
            final(self).enabled == old(self).enabled,
    {
        let mut i: usize = 0;
        while i < self.patterns.len()
            invariant
                i <= self.patterns@.len(),
                self == old(self),
                forall|j: int| 0 <= j < i ==> (#[trigger] self.patterns@[j]).pattern@ != pattern@,
            decreases self.patterns@.len() - i,
        {
            let matches = {
                let cand = str_chars(self.patterns[i].pattern.as_str());
                let target = str_chars(pattern);
                chars_eq(cand.as_slice(), target.as_slice())
            };
            if matches {
                let slot = crate::seq_util::vec_index_mut(&mut self.patterns, i);
                let new_state = !slot.enabled;
                slot.enabled = new_state;
                proof {
                    assert((#[trigger] old(self).patterns@[i as int]).pattern@ == pattern@);
                    assert(self.patterns@[i as int] == spec_wl_pattern_with_enabled(
                        old(self).patterns@[i as int],
                        new_state,
                    ));
                    assert(self.patterns@ =~= old(self).patterns@.update(
                        i as int,
                        spec_wl_pattern_with_enabled(old(self).patterns@[i as int], new_state),
                    ));
                }
                return new_state;
            }
            i = i + 1;
        }
        false
    }
}

} // verus!
