//! Safety rules deciding whether a path may be deleted at all.
//!
//! Three layers protect the system: protected path prefixes, protected file
//! extensions, and sensitive file-name patterns; what passes all three is
//! still graded by a location-based risk level.

use vstd::prelude::*;

use crate::cleaner_models::RiskLevel;
use crate::path_util::{spec_extension_of, PathUtils, SystemPaths};
use crate::text::{
    contains_chars, contains_chars_seq, lower_chars, spec_file_name, starts_with_chars,
    starts_with_chars_seq, str_chars, to_lower_chars,
};

verus! {

/// The decision on one path.
#[derive(Debug, Clone)]
pub struct SafetyCheckResult {
    pub safe_to_delete: bool,
    pub risk_level: RiskLevel,
    pub reason: Option<String>,
}

/// Some entry of the list has exactly these characters.
pub open spec fn contains_str(list: Seq<String>, s: Seq<char>) -> bool {
    exists|i: int| 0 <= i < list.len() && (#[trigger] list[i])@ == s
}

/// The path starts, up to ASCII case, with one of the protected prefixes.
pub open spec fn spec_protected_path(protected: Seq<String>, path: Seq<char>) -> bool {
    exists|i: int|
        0 <= i < protected.len() && starts_with_chars_seq(
            lower_chars(path),
            lower_chars(protected[i]@),
        )
}

/// The path's extension, lower-cased, is one of the protected extensions
/// (held lower-cased).
pub open spec fn spec_protected_extension(extensions: Seq<String>, path: Seq<char>) -> bool {
    match spec_extension_of(path) {
        Some(ext) => exists|i: int| 0 <= i < extensions.len() && extensions[i]@ == lower_chars(ext),
        None => false,
    }
}

/// The path's file name, lower-cased, contains one of the sensitive patterns
/// (compared lower-cased).
pub open spec fn spec_sensitive_file(patterns: Seq<String>, path: Seq<char>) -> bool {
    exists|i: int|
        0 <= i < patterns.len() && contains_chars_seq(
            lower_chars(spec_file_name(path)),
            lower_chars(patterns[i]@),
        )
}

/// The location-based risk level of a path that passed the three filters:
/// desktop and documents are medium, downloads and temp or cache locations
/// low, everything else medium.
pub open spec fn spec_assess_risk(path: Seq<char>) -> RiskLevel {
    let p = lower_chars(path);
    if contains_chars_seq(p, "desktop"@) || contains_chars_seq(p, "documents"@) {
        RiskLevel::Medium
    } else if contains_chars_seq(p, "downloads"@) {
        RiskLevel::Low
    } else if contains_chars_seq(p, "temp"@) || contains_chars_seq(p, "cache"@) {
        RiskLevel::Low
    } else {
        RiskLevel::Medium
    }
}

/// The checker: protected paths, protected extensions and sensitive
/// file-name patterns.
pub struct SafetyChecker {
    protected_paths: Vec<String>,
    protected_extensions: Vec<String>,
    sensitive_patterns: Vec<String>,
}

impl SafetyChecker {
    pub closed spec fn paths_view(&self) -> Seq<String> {
        self.protected_paths@
    }

    pub closed spec fn extensions_view(&self) -> Seq<String> {
        self.protected_extensions@
    }

    pub closed spec fn patterns_view(&self) -> Seq<String> {
        self.sensitive_patterns@
    }

    /// A checker with the default protected system roots, the default
    /// protected extensions and the default sensitive patterns.
    pub fn new() -> (r: SafetyChecker)
        ensures
            r.paths_view().len() == SystemPaths::spec_protected_paths().len(),
            forall|i: int|
                0 <= i < r.paths_view().len() ==> r.paths_view()[i]@
                    == SystemPaths::spec_protected_paths()[i],
            r.extensions_view().len() == 8,
            r.extensions_view()[0]@ == "sys"@,
            r.extensions_view()[1]@ == "dll"@,
            r.extensions_view()[2]@ == "exe"@,
            r.patterns_view().len() == 7,
            r.patterns_view()[0]@ == "password"@,
    {
        let mut extensions: Vec<String> = Vec::new();
        extensions.push("sys".to_string());
        extensions.push("dll".to_string());
        extensions.push("exe".to_string());
        extensions.push("bat".to_string());
        extensions.push("cmd".to_string());
        extensions.push("reg".to_string());
        extensions.push("ini".to_string());
        extensions.push("drv".to_string());
        let mut patterns: Vec<String> = Vec::new();
        patterns.push("password".to_string());
        patterns.push("credential".to_string());
        patterns.push("secret".to_string());
        patterns.push("key".to_string());
        patterns.push("token".to_string());
        patterns.push("wallet".to_string());
        patterns.push("backup".to_string());
        SafetyChecker {
            protected_paths: SystemPaths::get_protected_paths(),
            protected_extensions: extensions,
            sensitive_patterns: patterns,
        }
    }

    fn is_protected_path(&self, path: &str) -> (r: bool)
        ensures
            r == spec_protected_path(self.paths_view(), path@),
    {
        let chars = str_chars(path);
        let path_lower = to_lower_chars(chars.as_slice());
        let mut i: usize = 0;
        while i < self.protected_paths.len()
            invariant
                i <= self.paths_view().len(),
                path_lower@ == lower_chars(path@),
                forall|j: int|
                    0 <= j < i ==> !starts_with_chars_seq(
                        lower_chars(path@),
                        lower_chars((#[trigger] self.paths_view()[j])@),
                    ),
            decreases self.paths_view().len() - i,
        {
            let p_chars = str_chars(self.protected_paths[i].as_str());
            let p_lower = to_lower_chars(p_chars.as_slice());
            if starts_with_chars(path_lower.as_slice(), p_lower.as_slice()) {
                return true;
            }
            i = i + 1;
        }
        false
    }

    fn is_protected_extension(&self, path: &str) -> (r: bool)
        ensures
            r == spec_protected_extension(self.extensions_view(), path@),
    {
        match PathUtils::get_extension(path) {
            Some(ext) => {
                let ext_chars = str_chars(ext.as_str());
                let ghost spec_ext = spec_extension_of(path@)->Some_0;
                let mut i: usize = 0;
                while i < self.protected_extensions.len()
                    invariant
                        i <= self.extensions_view().len(),
                        ext_chars@ == lower_chars(spec_ext),
                        spec_extension_of(path@) == Some(spec_ext),
                        forall|j: int|
                            0 <= j < i ==> (#[trigger] self.extensions_view()[j])@ != lower_chars(
                                spec_ext,
                            ),
                    decreases self.extensions_view().len() - i,
                {
                    let cand = str_chars(self.protected_extensions[i].as_str());
                    if crate::text::chars_eq(cand.as_slice(), ext_chars.as_slice()) {
                        return true;
                    }
                    i = i + 1;
                }
                false
            },
            None => false,
        }
    }

    fn is_sensitive_file(&self, path: &str) -> (r: bool)
        ensures
            r == spec_sensitive_file(self.patterns_view(), path@),
    {
        let chars = str_chars(path);
        let name = crate::text::file_name_of(chars.as_slice());
        let name_lower = to_lower_chars(name.as_slice());
        let mut i: usize = 0;
        while i < self.sensitive_patterns.len()
            invariant
                i <= self.patterns_view().len(),
                name_lower@ == lower_chars(spec_file_name(path@)),
                forall|j: int|
                    0 <= j < i ==> !contains_chars_seq(
                        lower_chars(spec_file_name(path@)),
                        lower_chars((#[trigger] self.patterns_view()[j])@),
                    ),
            decreases self.patterns_view().len() - i,
        {
            let p_chars = str_chars(self.sensitive_patterns[i].as_str());
            let p_lower = to_lower_chars(p_chars.as_slice());
            if contains_chars(name_lower.as_slice(), p_lower.as_slice()) {
                return true;
            }
            i = i + 1;
        }
        false
    }

    fn assess_risk_level(&self, path: &str) -> (r: RiskLevel)
        ensures
            r == spec_assess_risk(path@),
    {
        let chars = str_chars(path);
        let p = to_lower_chars(chars.as_slice());
        let desktop = str_chars("desktop");
        let documents = str_chars("documents");
        let downloads = str_chars("downloads");
        let temp = str_chars("temp");
        let cache = str_chars("cache");
        if contains_chars(p.as_slice(), desktop.as_slice()) || contains_chars(
            p.as_slice(),
            documents.as_slice(),
        ) {
            return RiskLevel::Medium;
        }
        if contains_chars(p.as_slice(), downloads.as_slice()) {
            return RiskLevel::Low;
        }
        if contains_chars(p.as_slice(), temp.as_slice()) || contains_chars(
            p.as_slice(),
            cache.as_slice(),
        ) {
            return RiskLevel::Low;
        }
        RiskLevel::Medium
    }

    /// The full decision: a protected path is Critical and never deletable; a
    /// protected extension or a sensitive name is High and never deletable;
    /// everything else is deletable at its location-based risk level.
    pub fn check(&self, path: &str) -> (r: SafetyCheckResult)
        ensures
            spec_protected_path(self.paths_view(), path@) ==> !r.safe_to_delete && r.risk_level
                == RiskLevel::Critical,
            !spec_protected_path(self.paths_view(), path@) && spec_protected_extension(
                self.extensions_view(),
                path@,
            ) ==> !r.safe_to_delete && r.risk_level == RiskLevel::High,
            !spec_protected_path(self.paths_view(), path@) && !spec_protected_extension(
                self.extensions_view(),
                path@,
            ) && spec_sensitive_file(self.patterns_view(), path@) ==> !r.safe_to_delete
                && r.risk_level == RiskLevel::High,
            !spec_protected_path(self.paths_view(), path@) && !spec_protected_extension(
                self.extensions_view(),
                path@,
            ) && !spec_sensitive_file(self.patterns_view(), path@) ==> r.safe_to_delete
                && r.risk_level == spec_assess_risk(path@) && r.reason is None,
    {
        if self.is_protected_path(path) {
            return SafetyCheckResult {
                safe_to_delete: false,
                risk_level: RiskLevel::Critical,
                reason: Some("protected system path".to_string()),
            };
        }
        if self.is_protected_extension(path) {
            return SafetyCheckResult {
                safe_to_delete: false,
                risk_level: RiskLevel::High,
                reason: Some("protected file type".to_string()),
            };
        }
        if self.is_sensitive_file(path) {
            return SafetyCheckResult {
                safe_to_delete: false,
                risk_level: RiskLevel::High,
                reason: Some("sensitive file".to_string()),
            };
        }
        let risk_level = self.assess_risk_level(path);
        proof {
            assert(spec_assess_risk(path@) != RiskLevel::Critical);
        }
        SafetyCheckResult { safe_to_delete: true, risk_level, reason: None }
    }

    /// Whether the path passes all three protection layers.
    pub fn is_safe_to_delete(&self, path: &str) -> (r: bool)
        ensures
            r == (!spec_protected_path(self.paths_view(), path@) && !spec_protected_extension(
                self.extensions_view(),
                path@,
            ) && !spec_sensitive_file(self.patterns_view(), path@)),
    {
        !self.is_protected_path(path) && !self.is_protected_extension(path)
            && !self.is_sensitive_file(path)
    }

    /// Add a protected path: already present, the list is unchanged;
    /// otherwise it is appended. Adding twice is the same as adding once.
    pub fn add_protected_path(&mut self, path: String)
        ensures
            contains_str(old(self).paths_view(), path@) ==> final(self).paths_view() == old(
                self
            ).paths_view(),
            !contains_str(old(self).paths_view(), path@) ==> final(self).paths_view() == old(
                self
            ).paths_view().push(path),
            contains_str(final(self).paths_view(), path@),
            final(self).extensions_view() == old(self).extensions_view(),
            final(self).patterns_view() == old(self).patterns_view(),
    {
        let mut i: usize = 0;
        while i < self.protected_paths.len()
            invariant
                i <= self.protected_paths@.len(),
                self == old(self),
                forall|j: int| 0 <= j < i ==> (#[trigger] self.protected_paths@[j])@ != path@,
            decreases self.protected_paths@.len() - i,
        {
            if self.protected_paths[i].eq(&path) {
                proof {
                    assert((#[trigger] self.protected_paths@[i as int])@ == path@);
                    assert(contains_str(self.paths_view(), path@));
                }
                return ;
            }
            i = i + 1;
        }
        self.protected_paths.push(path);
        proof {
            assert((#[trigger] self.protected_paths@[self.protected_paths@.len() - 1])@ == path@);
            assert(contains_str(self.paths_view(), path@));
        }
    }

    /// Remove every protected path whose characters equal the given one.
    pub fn remove_protected_path(&mut self, path: &str)
        ensures
            final(self).paths_view() == old(self).paths_view().filter(
                |p: String| p@ != path@,
            ),
            final(self).extensions_view() == old(self).extensions_view(),
            final(self).patterns_view() == old(self).patterns_view(),
    {
        let ghost orig = self.protected_paths@;
        let mut kept: Vec<String> = Vec::new();
        let mut i: usize = 0;
        proof {
            crate::seq_util::lemma_filter_empty(orig.take(0), |p: String| p@ != path@);
            assert(orig.take(0) =~= Seq::<String>::empty());
        }
        while i < self.protected_paths.len()
            invariant
                i <= orig.len(),
                self.protected_paths@ == orig,
                self.protected_extensions@ == old(self).protected_extensions@,
                self.sensitive_patterns@ == old(self).sensitive_patterns@,
                kept@ == orig.take(i as int).filter(|p: String| p@ != path@),
            decreases orig.len() - i,
        {
            let keep = {
                let cand = str_chars(self.protected_paths[i].as_str());
                let target = str_chars(path);
                !crate::text::chars_eq(cand.as_slice(), target.as_slice())
            };
            proof {
                assert(orig.take(i + 1) =~= orig.take(i as int).push(orig[i as int]));
                crate::seq_util::lemma_filter_push(
                    orig.take(i as int),
                    |p: String| p@ != path@,
                    orig[i as int],
                );
            }
            if keep {
                let copy = self.protected_paths[i].clone();
                kept.push(copy);
            }
            i = i + 1;
        }
        proof {
            assert(orig.take(orig.len() as int) =~= orig);
        }
        self.protected_paths = kept;
    }

    /// Add a protected extension, lower-cased, unless it is already present.
    pub fn add_protected_extension(&mut self, ext: String)
        ensures
            final(self).extensions_view() == old(self).extensions_view() || (final(
                self
            ).extensions_view().len() == old(self).extensions_view().len() + 1 && final(
                self
            ).extensions_view().last()@ == lower_chars(ext@)),
            final(self).paths_view() == old(self).paths_view(),
            final(self).patterns_view() == old(self).patterns_view(),
    {
        let chars = str_chars(ext.as_str());
        let lowered = to_lower_chars(chars.as_slice());
        let lowered_s = crate::text::chars_to_string(&lowered);
        let mut i: usize = 0;
        while i < self.protected_extensions.len()
            invariant
                i <= self.protected_extensions@.len(),
                self == old(self),
                lowered_s@ == lower_chars(ext@),
            decreases self.protected_extensions@.len() - i,
        {
            if self.protected_extensions[i].eq(&lowered_s) {
                return ;
            }
            i = i + 1;
        }
        self.protected_extensions.push(lowered_s);
    }

    /// Remove every protected extension equal, lower-cased, to the given one.
    pub fn remove_protected_extension(&mut self, ext: &str)
        ensures
            final(self).extensions_view() == old(self).extensions_view().filter(
                |e: String| e@ != lower_chars(ext@),
            ),
            final(self).paths_view() == old(self).paths_view(),
            final(self).patterns_view() == old(self).patterns_view(),
    {
        let chars = str_chars(ext);
        let lowered = to_lower_chars(chars.as_slice());
        let ghost orig = self.protected_extensions@;
        let mut kept: Vec<String> = Vec::new();
        let mut i: usize = 0;
        proof {
            crate::seq_util::lemma_filter_empty(
                orig.take(0),
                |e: String| e@ != lower_chars(ext@),
            );
            assert(orig.take(0) =~= Seq::<String>::empty());
        }
        while i < self.protected_extensions.len()
            invariant
                i <= orig.len(),
                self.protected_extensions@ == orig,
                self.protected_paths@ == old(self).protected_paths@,
                self.sensitive_patterns@ == old(self).sensitive_patterns@,
                lowered@ == lower_chars(ext@),
                kept@ == orig.take(i as int).filter(|e: String| e@ != lower_chars(ext@)),
            decreases orig.len() - i,
        {
            let keep = {
                let cand = str_chars(self.protected_extensions[i].as_str());
                !crate::text::chars_eq(cand.as_slice(), lowered.as_slice())
            };
            proof {
                assert(orig.take(i + 1) =~= orig.take(i as int).push(orig[i as int]));
                crate::seq_util::lemma_filter_push(
                    orig.take(i as int),
                    |e: String| e@ != lower_chars(ext@),
                    orig[i as int],
                );
            }
            if keep {
                let copy = self.protected_extensions[i].clone();
                kept.push(copy);
            }
            i = i + 1;
        }
        proof {
            assert(orig.take(orig.len() as int) =~= orig);
        }
        self.protected_extensions = kept;
    }

    /// Add a sensitive pattern, lower-cased, unless it is already present.
    pub fn add_sensitive_pattern(&mut self, pattern: String)
        ensures
            final(self).patterns_view() == old(self).patterns_view() || (final(
                self
            ).patterns_view().len() == old(self).patterns_view().len() + 1 && final(
                self
            ).patterns_view().last()@ == lower_chars(pattern@)),
            final(self).paths_view() == old(self).paths_view(),
            final(self).extensions_view() == old(self).extensions_view(),
    {
        let chars = str_chars(pattern.as_str());
        let lowered = to_lower_chars(chars.as_slice());
        let lowered_s = crate::text::chars_to_string(&lowered);
        let mut i: usize = 0;
        while i < self.sensitive_patterns.len()
            invariant
                i <= self.sensitive_patterns@.len(),
                self == old(self),
                lowered_s@ == lower_chars(pattern@),
            decreases self.sensitive_patterns@.len() - i,
        {
            if self.sensitive_patterns[i].eq(&lowered_s) {
                return ;
            }
            i = i + 1;
        }
        self.sensitive_patterns.push(lowered_s);
    }

    /// Remove every sensitive pattern equal, lower-cased, to the given one.
    pub fn remove_sensitive_pattern(&mut self, pattern: &str)
        ensures
            final(self).patterns_view() == old(self).patterns_view().filter(
                |p: String| p@ != lower_chars(pattern@),
            ),
            final(self).paths_view() == old(self).paths_view(),
            final(self).extensions_view() == old(self).extensions_view(),
    {
        let chars = str_chars(pattern);
        let lowered = to_lower_chars(chars.as_slice());
        let ghost orig = self.sensitive_patterns@;
        let mut kept: Vec<String> = Vec::new();
        let mut i: usize = 0;
        proof {
            crate::seq_util::lemma_filter_empty(
                orig.take(0),
                |p: String| p@ != lower_chars(pattern@),
            );
            assert(orig.take(0) =~= Seq::<String>::empty());
        }
        while i < self.sensitive_patterns.len()
            invariant
                i <= orig.len(),
                self.sensitive_patterns@ == orig,
                self.protected_paths@ == old(self).protected_paths@,
                self.protected_extensions@ == old(self).protected_extensions@,
                lowered@ == lower_chars(pattern@),
                kept@ == orig.take(i as int).filter(|p: String| p@ != lower_chars(pattern@)),
            decreases orig.len() - i,
        {
            let keep = {
                let cand = str_chars(self.sensitive_patterns[i].as_str());
                !crate::text::chars_eq(cand.as_slice(), lowered.as_slice())
            };
            proof {
                assert(orig.take(i + 1) =~= orig.take(i as int).push(orig[i as int]));
                crate::seq_util::lemma_filter_push(
                    orig.take(i as int),
                    |p: String| p@ != lower_chars(pattern@),
                    orig[i as int],
                );
            }
            if keep {
                let copy = self.sensitive_patterns[i].clone();
                kept.push(copy);
            }
            i = i + 1;
        }
        proof {
            assert(orig.take(orig.len() as int) =~= orig);
        }
        self.sensitive_patterns = kept;
    }

    /// The protected paths.
    pub fn get_protected_paths(&self) -> (r: &Vec<String>)
        ensures
            r@ == self.paths_view(),
    {
        &self.protected_paths
    }

    /// The protected extensions.
    pub fn get_protected_extensions(&self) -> (r: &Vec<String>)
        ensures
            r@ == self.extensions_view(),
    {
        &self.protected_extensions
    }

    /// The sensitive patterns.
    pub fn get_sensitive_patterns(&self) -> (r: &Vec<String>)
        ensures
            r@ == self.patterns_view(),
    {
        &self.sensitive_patterns
    }
}

impl Default for SafetyChecker {
    /// The same checker as `new`.
    fn default() -> (r: Self)
        ensures
            r.paths_view().len() == SystemPaths::spec_protected_paths().len(),
    {
        Self::new()
    }
}

} // verus!
