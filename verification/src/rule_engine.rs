//! The clean-rule engine: which rules match a path, and rule management.

use vstd::prelude::*;

use crate::file_analyzer_models::JunkCategory;
use crate::settings_models::CleanRule;
use crate::seq_util::{lemma_filter_empty, lemma_filter_push, vec_index_mut};
use crate::text::{
    chars_eq, contains_chars, contains_chars_seq, ends_with_chars, ends_with_chars_seq,
    file_name_of, spec_file_name, starts_with_chars, starts_with_chars_seq, str_chars,
};

verus! {

/// Position of the first `*` of `s`, or -1 when there is none.
pub open spec fn first_star(s: Seq<char>) -> int
    decreases s.len(),
{
    if s.len() == 0 {
        -1
    } else if s[0] == '*' {
        0
    } else if first_star(s.drop_first()) == -1 {
        -1
    } else {
        1 + first_star(s.drop_first())
    }
}

/// How many `*` occur in `s`.
pub open spec fn star_count(s: Seq<char>) -> int
    decreases s.len(),
{
    if s.len() == 0 {
        0
    } else {
        star_count(s.drop_last()) + (if s.last() == '*' {
            1int
        } else {
            0int
        })
    }
}

/// A sequence without a `*` has none to count and none to find.
proof fn lemma_no_star(s: Seq<char>)
    requires
        forall|j: int| 0 <= j < s.len() ==> s[j] != '*',
    ensures
        star_count(s) == 0,
        first_star(s) == -1,
    decreases s.len(),
{
    if s.len() > 0 {
        lemma_no_star(s.drop_last());
        assert(s.drop_last() =~= s.subrange(0, s.len() - 1));
        lemma_no_star_first(s);
    }
}

proof fn lemma_no_star_first(s: Seq<char>)
    requires
        forall|j: int| 0 <= j < s.len() ==> s[j] != '*',
    ensures
        first_star(s) == -1,
    decreases s.len(),
{
    if s.len() > 0 {
        assert(forall|j: int|
            0 <= j < s.drop_first().len() ==> #[trigger] s.drop_first()[j] == s[j + 1]);
        lemma_no_star_first(s.drop_first());
    }
}

/// The first `*` of `s` sits exactly at the first position holding one.
proof fn lemma_first_star_at(s: Seq<char>, k: int)
    requires
        0 <= k < s.len(),
        s[k] == '*',
        forall|j: int| 0 <= j < k ==> s[j] != '*',
    ensures
        first_star(s) == k,
    decreases s.len(),
{
    if k == 0 {
    } else {
        assert(forall|j: int|
            0 <= j < s.drop_first().len() ==> #[trigger] s.drop_first()[j] == s[j + 1]);
        lemma_first_star_at(s.drop_first(), k - 1);
    }
}

proof fn lemma_first_star_bounds(s: Seq<char>)
    ensures
        -1 <= first_star(s) < s.len(),
        first_star(s) >= 0 ==> s[first_star(s)] == '*',
    decreases s.len(),
{
    if s.len() > 0 && s[0] != '*' {
        lemma_first_star_bounds(s.drop_first());
    }
}

/// Count the stars of a pattern and find the first one.
fn scan_stars(s: &[char]) -> (r: (u64, usize))
    ensures
        r.0 == star_count(s@),
        star_count(s@) >= 1 ==> r.1 == first_star(s@) && r.1 < s@.len(),
{
    let mut count: u64 = 0;
    let mut first: usize = 0;
    let mut seen = false;
    let mut i: usize = 0;
    proof {
        assert(s@.take(0) =~= Seq::<char>::empty());
    }
    while i < s.len()
        invariant
            i <= s@.len(),
            count == star_count(s@.take(i as int)),
            count <= i,
            seen ==> first < i && s@[first as int] == '*' && (forall|j: int|
                0 <= j < first ==> s@[j] != '*'),
            !seen ==> count == 0 && (forall|j: int| 0 <= j < i ==> s@[j] != '*'),
        decreases s@.len() - i,
    {
        proof {
            assert(s@.take(i + 1).drop_last() =~= s@.take(i as int));
            assert(s@.take(i + 1).last() == s@[i as int]);
        }
        if s[i] == '*' {
            if !seen {
                first = i;
                seen = true;
            }
            proof {
                if count == 0 {
                    lemma_star_count_nonneg(s@.take(i as int));
                }
                lemma_star_count_le(s@.take(i as int));
            }
            count = count + 1;
        }
        i = i + 1;
    }
    proof {
        assert(s@.take(s@.len() as int) =~= s@);
        if star_count(s@) >= 1 {
            if seen {
                lemma_first_star_at(s@, first as int);
            } else {
                lemma_no_star(s@);
            }
        }
    }
    (count, first)
}

proof fn lemma_star_count_nonneg(s: Seq<char>)
    ensures
        star_count(s) >= 0,
    decreases s.len(),
{
    if s.len() > 0 {
        lemma_star_count_nonneg(s.drop_last());
    }
}

proof fn lemma_star_count_le(s: Seq<char>)
    ensures
        star_count(s) <= s.len(),
    decreases s.len(),
{
    if s.len() > 0 {
        lemma_star_count_le(s.drop_last());
    }
}

/// Whether a rule pattern matches: `*x*` asks for containment in the file
/// name or the path, a leading `*` for a file-name suffix, a trailing `*`
/// for a file-name prefix, a single interior `*` for a prefix and a suffix,
/// and a pattern without a wildcard for file-name equality or containment
/// in the path.
pub open spec fn spec_rule_pattern_match(
    filename: Seq<char>,
    path: Seq<char>,
    pattern: Seq<char>,
) -> bool {
    if pattern.len() >= 1 && pattern.first() == '*' && pattern.last() == '*' {
        let middle = if pattern.len() >= 2 {
            pattern.subrange(1, pattern.len() - 1)
        } else {
            Seq::<char>::empty()
        };
        contains_chars_seq(filename, middle) || contains_chars_seq(path, middle)
    } else if pattern.len() >= 1 && pattern.first() == '*' {
        ends_with_chars_seq(filename, pattern.subrange(1, pattern.len() as int))
    } else if pattern.len() >= 1 && pattern.last() == '*' {
        starts_with_chars_seq(filename, pattern.subrange(0, pattern.len() - 1))
    } else if star_count(pattern) == 1 {
        let p = first_star(pattern);
        starts_with_chars_seq(filename, pattern.subrange(0, p)) && ends_with_chars_seq(
            filename,
            pattern.subrange(p + 1, pattern.len() as int),
        )
    } else {
        filename == pattern || contains_chars_seq(path, pattern)
    }
}

/// An enabled rule whose pattern matches the path.
pub open spec fn spec_rule_matches(rule: CleanRule, path: Seq<char>) -> bool {
    rule.enabled && spec_rule_pattern_match(spec_file_name(path), path, rule.pattern@)
}

/// Whether a rule pattern matches a file name and path.
pub fn rule_pattern_match(filename: &[char], path: &[char], pattern: &[char]) -> (r: bool)
    ensures
        r == spec_rule_pattern_match(filename@, path@, pattern@),
{
    let n = pattern.len();
    if n >= 1 && pattern[0] == '*' && pattern[n - 1] == '*' {
        let mut middle: Vec<char> = Vec::new();
        if n >= 2 {
            let mut i: usize = 1;
            proof {
                assert(middle@ =~= pattern@.subrange(1, 1));
            }
            while i < n - 1
                invariant
                    1 <= i <= n - 1,
                    n == pattern@.len(),
                    n >= 2,
                    middle@ == pattern@.subrange(1, i as int),
                decreases n - 1 - i,
            {
                middle.push(pattern[i]);
                proof {
                    assert(pattern@.subrange(1, i + 1) =~= pattern@.subrange(1, i as int).push(
                        pattern@[i as int],
                    ));
                }
                i = i + 1;
            }
        }
        return contains_chars(filename, middle.as_slice()) || contains_chars(
            path,
            middle.as_slice(),
        );
    }
    if n >= 1 && pattern[0] == '*' {
        let mut suffix: Vec<char> = Vec::new();
        let mut i: usize = 1;
        proof {
            assert(suffix@ =~= pattern@.subrange(1, 1));
        }
        while i < n
            invariant
                1 <= i <= n,
                n == pattern@.len(),
                suffix@ == pattern@.subrange(1, i as int),
            decreases n - i,
        {
            suffix.push(pattern[i]);
            proof {
                assert(pattern@.subrange(1, i + 1) =~= pattern@.subrange(1, i as int).push(
                    pattern@[i as int],
                ));
            }
            i = i + 1;
        }
        return ends_with_chars(filename, suffix.as_slice());
    }
    if n >= 1 && pattern[n - 1] == '*' {
        let prefix: &[char] = &pattern[0..n - 1];
        proof {
            assert(prefix@ =~= pattern@.subrange(0, n - 1));
        }
        return starts_with_chars(filename, prefix);
    }
    let (stars, first) = scan_stars(pattern);
    if stars == 1 {
        let prefix: &[char] = &pattern[0..first];
        let suffix: &[char] = &pattern[first + 1..n];
        proof {
            assert(prefix@ =~= pattern@.subrange(0, first as int));
            assert(suffix@ =~= pattern@.subrange(first + 1, n as int));
        }
        return starts_with_chars(filename, prefix) && ends_with_chars(filename, suffix);
    }
    chars_eq(filename, pattern) || contains_chars(path, pattern)
}

/// Some rule of the list carries this id.
pub open spec fn has_rule_id(rules: Seq<CleanRule>, id: Seq<char>) -> bool {
    exists|i: int| 0 <= i < rules.len() && (#[trigger] rules[i]).id@ == id
}

/// A rule with its enabled flag replaced.
pub open spec fn spec_rule_with_enabled(rule: CleanRule, enabled: bool) -> CleanRule {
    CleanRule { enabled, ..rule }
}

/// A field-by-field copy of a rule.
pub fn copy_rule(r: &CleanRule) -> (c: CleanRule)
    ensures
        c == *r,
{
    CleanRule {
        id: r.id.clone(),
        name: r.name.clone(),
        description: r.description.clone(),
        pattern: r.pattern.clone(),
        category: r.category,
        enabled: r.enabled,
    }
}

/// The engine holding the active clean rules, in order.
pub struct RuleEngine {
    rules: Vec<CleanRule>,
}

impl RuleEngine {
    pub closed spec fn rules_view(&self) -> Seq<CleanRule> {
        self.rules@
    }

    /// An engine with the five default rules: temporary files, log files,
    /// cache locations, backup files and outdated files, all enabled.
    pub fn new() -> (r: RuleEngine)
        ensures
            r.rules_view().len() == 5,
            forall|i: int| 0 <= i < 5 ==> (#[trigger] r.rules_view()[i]).enabled,
            r.rules_view()[0].id@ == "temp-files"@,
            r.rules_view()[0].pattern@ == "*.tmp"@,
            r.rules_view()[1].id@ == "log-files"@,
            r.rules_view()[1].pattern@ == "*.log"@,
            r.rules_view()[2].id@ == "cache-files"@,
            r.rules_view()[2].pattern@ == "*cache*"@,
            r.rules_view()[3].id@ == "bak-files"@,
            r.rules_view()[3].pattern@ == "*.bak"@,
            r.rules_view()[4].id@ == "old-files"@,
            r.rules_view()[4].pattern@ == "*.old"@,
    {
        let mut rules: Vec<CleanRule> = Vec::new();
        rules.push(
            CleanRule {
                id: "temp-files".to_string(),
                name: "temporary files".to_string(),
                description: "system temporary files".to_string(),
                pattern: "*.tmp".to_string(),
                category: JunkCategory::TempFiles,
                enabled: true,
            },
        );
        rules.push(
            CleanRule {
                id: "log-files".to_string(),
                name: "log files".to_string(),
                description: "application log files".to_string(),
                pattern: "*.log".to_string(),
                category: JunkCategory::Logs,
                enabled: true,
            },
        );
        rules.push(
            CleanRule {
                id: "cache-files".to_string(),
                name: "cache files".to_string(),
                description: "application cache files".to_string(),
                pattern: "*cache*".to_string(),
                category: JunkCategory::Cache,
                enabled: true,
            },
        );
        rules.push(
            CleanRule {
                id: "bak-files".to_string(),
                name: "backup files".to_string(),
                description: "backup files".to_string(),
                pattern: "*.bak".to_string(),
                category: JunkCategory::TempFiles,
                enabled: true,
            },
        );
        rules.push(
            CleanRule {
                id: "old-files".to_string(),
                name: "outdated files".to_string(),
                description: "files of older versions".to_string(),
                pattern: "*.old".to_string(),
                category: JunkCategory::TempFiles,
                enabled: true,
            },
        );
        RuleEngine { rules }
    }

    /// An engine with exactly the given rules.
    pub fn with_rules(rules: Vec<CleanRule>) -> (r: RuleEngine)
        ensures
            r.rules_view() == rules@,
    {
        RuleEngine { rules }
    }

    /// The rules, in order.
    pub fn get_rules(&self) -> (r: &Vec<CleanRule>)
        ensures
            r@ == self.rules_view(),
    {
        &self.rules
    }

    /// The enabled rules, in order.
    pub fn get_enabled_rules(&self) -> (r: Vec<CleanRule>)
        ensures
            r@ == self.rules_view().filter(|rule: CleanRule| rule.enabled),
    {
        let ghost orig = self.rules@;
        let mut out: Vec<CleanRule> = Vec::new();
        let mut i: usize = 0;
        proof {
            lemma_filter_empty(orig.take(0), |rule: CleanRule| rule.enabled);
            assert(orig.take(0) =~= Seq::<CleanRule>::empty());
        }
        while i < self.rules.len()
            invariant
                i <= orig.len(),
                self.rules@ == orig,
                out@ == orig.take(i as int).filter(|rule: CleanRule| rule.enabled),
            decreases orig.len() - i,
        {
            proof {
                assert(orig.take(i + 1) =~= orig.take(i as int).push(orig[i as int]));
                lemma_filter_push(orig.take(i as int), |rule: CleanRule| rule.enabled, orig[i as int]);
            }
            if self.rules[i].enabled {
                let copy = copy_rule(&self.rules[i]);
                out.push(copy);
            }
            i = i + 1;
        }
        proof {
            assert(orig.take(orig.len() as int) =~= orig);
        }
        out
    }

    /// The enabled rules whose pattern matches the path, in order.
    pub fn matches(&self, path: &str) -> (r: Vec<CleanRule>)
        ensures
            r@ == self.rules_view().filter(|rule: CleanRule| spec_rule_matches(rule, path@)),
    {
        let chars = str_chars(path);
        let filename = file_name_of(chars.as_slice());
        let ghost orig = self.rules@;
        let mut out: Vec<CleanRule> = Vec::new();
        let mut i: usize = 0;
        proof {
            lemma_filter_empty(
                orig.take(0),
                |rule: CleanRule| spec_rule_matches(rule, path@),
            );
            assert(orig.take(0) =~= Seq::<CleanRule>::empty());
        }
        while i < self.rules.len()
            invariant
                i <= orig.len(),
                self.rules@ == orig,
                chars@ == path@,
                filename@ == spec_file_name(path@),
                out@ == orig.take(i as int).filter(
                    |rule: CleanRule| spec_rule_matches(rule, path@),
                ),
            decreases orig.len() - i,
        {
            proof {
                assert(orig.take(i + 1) =~= orig.take(i as int).push(orig[i as int]));
                lemma_filter_push(
                    orig.take(i as int),
                    |rule: CleanRule| spec_rule_matches(rule, path@),
                    orig[i as int],
                );
            }
            if self.rules[i].enabled {
                let pat = str_chars(self.rules[i].pattern.as_str());
                if rule_pattern_match(filename.as_slice(), chars.as_slice(), pat.as_slice()) {
                    let copy = copy_rule(&self.rules[i]);
                    out.push(copy);
                }
            }
            i = i + 1;
        }
        proof {
            assert(orig.take(orig.len() as int) =~= orig);
        }
        out
    }

    /// The enabled matching rules of one category, in order.
    pub fn matches_category(&self, path: &str, category: &JunkCategory) -> (r: Vec<CleanRule>)
        ensures
            r@ == self.rules_view().filter(
                |rule: CleanRule| spec_rule_matches(rule, path@) && rule.category == *category,
            ),
    {
        let all = self.matches(path);
        let ghost matched = all@;
        let ghost orig = self.rules@;
        let mut out: Vec<CleanRule> = Vec::new();
        let mut rest = all;
        let ghost k: int = 0;
        proof {
            lemma_filter_empty(
                matched.take(0),
                |rule: CleanRule| rule.category == *category,
            );
            assert(matched.take(0) =~= Seq::<CleanRule>::empty());
            assert(rest@ =~= matched.skip(0));
        }
        while rest.len() > 0
            invariant
                0 <= k <= matched.len(),
                rest@ == matched.skip(k),
                out@ == matched.take(k).filter(|rule: CleanRule| rule.category == *category),
            decreases rest@.len(),
        {
            let rule = rest.remove(0);
            proof {
                assert(matched.skip(k).remove(0) =~= matched.skip(k + 1));
                assert(rule == matched[k]);
                assert(matched.take(k + 1) =~= matched.take(k).push(matched[k]));
                lemma_filter_push(
                    matched.take(k),
                    |r2: CleanRule| r2.category == *category,
                    matched[k],
                );
            }
            if rule.category == *category {
                out.push(rule);
            }
            proof {
                k = k + 1;
            }
        }
        proof {
            assert(matched.skip(k).len() == 0);
            assert(k == matched.len());
            assert(matched.take(matched.len() as int) =~= matched);
            lemma_filter_filter_category(orig, path@, *category);
        }
        out
    }

    /// Whether any enabled rule matches the path.
    pub fn should_clean(&self, path: &str) -> (r: bool)
        ensures
            r == exists|i: int|
                0 <= i < self.rules_view().len() && spec_rule_matches(
                    #[trigger] self.rules_view()[i],
                    path@,
                ),
    {
        let chars = str_chars(path);
        let filename = file_name_of(chars.as_slice());
        let mut i: usize = 0;
        while i < self.rules.len()
            invariant
                i <= self.rules@.len(),
                chars@ == path@,
                filename@ == spec_file_name(path@),
                forall|j: int| 0 <= j < i ==> !spec_rule_matches(#[trigger] self.rules@[j], path@),
            decreases self.rules@.len() - i,
        {
            if self.rules[i].enabled {
                let pat = str_chars(self.rules[i].pattern.as_str());
                if rule_pattern_match(filename.as_slice(), chars.as_slice(), pat.as_slice()) {
                    proof {
                        assert(spec_rule_matches(self.rules_view()[i as int], path@));
                        assert(exists|j: int|
                            0 <= j < self.rules_view().len() && spec_rule_matches(
                                #[trigger] self.rules_view()[j],
                                path@,
                            ));
                    }
                    return true;
                }
            }
            i = i + 1;
        }
        false
    }

    /// The category of the first enabled rule matching the path, when one
    /// matches.
    pub fn get_category_for_path(&self, path: &str) -> (r: Option<JunkCategory>)
        ensures
            match r {
                Some(c) => exists|i: int|
                    0 <= i < self.rules_view().len() && spec_rule_matches(
                        #[trigger] self.rules_view()[i],
                        path@,
                    ) && self.rules_view()[i].category == c && (forall|j: int|
                        0 <= j < i ==> !spec_rule_matches(#[trigger] self.rules_view()[j], path@)),
                None => forall|i: int|
                    0 <= i < self.rules_view().len() ==> !spec_rule_matches(
                        #[trigger] self.rules_view()[i],
                        path@,
                    ),
            },
    {
        let chars = str_chars(path);
        let filename = file_name_of(chars.as_slice());
        let mut i: usize = 0;
        while i < self.rules.len()
            invariant
                i <= self.rules@.len(),
                chars@ == path@,
                filename@ == spec_file_name(path@),
                forall|j: int| 0 <= j < i ==> !spec_rule_matches(#[trigger] self.rules@[j], path@),
            decreases self.rules@.len() - i,
        {
            if self.rules[i].enabled {
                let pat = str_chars(self.rules[i].pattern.as_str());
                if rule_pattern_match(filename.as_slice(), chars.as_slice(), pat.as_slice()) {
                    proof {
                        assert(spec_rule_matches(self.rules_view()[i as int], path@));
                        assert(forall|j: int|
                            0 <= j < i ==> !spec_rule_matches(
                                #[trigger] self.rules_view()[j],
                                path@,
                            ));
                    }
                    return Some(self.rules[i].category);
                }
            }
            i = i + 1;
        }
        None
    }

    /// Add a rule: when one with its id exists already, nothing changes;
    /// otherwise it is appended.
    pub fn add_rule(&mut self, rule: CleanRule)
        ensures
            has_rule_id(old(self).rules_view(), rule.id@) ==> final(self).rules_view() == old(
                self
            ).rules_view(),
            !has_rule_id(old(self).rules_view(), rule.id@) ==> final(self).rules_view() == old(
                self
            ).rules_view().push(rule),
    {
        let mut i: usize = 0;
        while i < self.rules.len()
            invariant
                i <= self.rules@.len(),
                self == old(self),
                forall|j: int| 0 <= j < i ==> (#[trigger] self.rules@[j]).id@ != rule.id@,
            decreases self.rules@.len() - i,
        {
            if self.rules[i].id.eq(&rule.id) {
                proof {
                    assert((#[trigger] self.rules@[i as int]).id@ == rule.id@);
                    assert(has_rule_id(self.rules_view(), rule.id@));
                }
                return ;
            }
            i = i + 1;
        }
        self.rules.push(rule);
    }

    /// Remove every rule with this id; reports whether any rule left.
    pub fn remove_rule(&mut self, rule_id: &str) -> (r: bool)
        ensures
            final(self).rules_view() == old(self).rules_view().filter(
                |rule: CleanRule| rule.id@ != rule_id@,
            ),
            r == (final(self).rules_view().len() != old(self).rules_view().len()),
    {
        let ghost orig = self.rules@;
        let initial_len = self.rules.len();
        let mut kept: Vec<CleanRule> = Vec::new();
        let mut i: usize = 0;
        proof {
            lemma_filter_empty(orig.take(0), |rule: CleanRule| rule.id@ != rule_id@);
            assert(orig.take(0) =~= Seq::<CleanRule>::empty());
        }
        while i < self.rules.len()
            invariant
                i <= orig.len(),
                self.rules@ == orig,
                kept@ == orig.take(i as int).filter(|rule: CleanRule| rule.id@ != rule_id@),
            decreases orig.len() - i,
        {
            let keep = {
                let cand = str_chars(self.rules[i].id.as_str());
                let target = str_chars(rule_id);
                !chars_eq(cand.as_slice(), target.as_slice())
            };
            proof {
                assert(orig.take(i + 1) =~= orig.take(i as int).push(orig[i as int]));
                lemma_filter_push(
                    orig.take(i as int),
                    |rule: CleanRule| rule.id@ != rule_id@,
                    orig[i as int],
                );
            }
            if keep {
                let copy = copy_rule(&self.rules[i]);
                kept.push(copy);
            }
            i = i + 1;
        }
        proof {
            assert(orig.take(orig.len() as int) =~= orig);
        }
        self.rules = kept;
        self.rules.len() != initial_len
    }

    /// Replace the first rule sharing the new rule's id; reports whether one
    /// was found.
    pub fn update_rule(&mut self, rule: CleanRule) -> (r: bool)
        ensures
            final(self).rules_view().len() == old(self).rules_view().len(),
            r ==> exists|i: int|
                0 <= i < old(self).rules_view().len() && final(self).rules_view() == old(
                    self
                ).rules_view().update(i, rule),
            !r ==> final(self).rules_view() == old(self).rules_view(),
    {
        let mut i: usize = 0;
        while i < self.rules.len()
            invariant
                i <= self.rules@.len(),
                self == old(self),
            decreases self.rules@.len() - i,
        {
            if self.rules[i].id.eq(&rule.id) {
                let slot = vec_index_mut(&mut self.rules, i);
                *slot = rule;
                proof {
                    assert(self.rules@ == old(self).rules@.update(i as int, *slot));
                }
                return true;
            }
            i = i + 1;
        }
        false
    }

    /// Flip the enabled flag of the first rule with this id and hand the new
    /// state back: exactly that rule's flag changes, so a second toggle
    /// restores it. Without a match nothing changes and nothing is returned.
    pub fn toggle_rule(&mut self, rule_id: &str) -> (r: Option<bool>)
        ensures
            match r {
                Some(state) => exists|i: int|
                    {
                        &&& 0 <= i < old(self).rules_view().len()
                        &&& (#[trigger] old(self).rules_view()[i]).id@ == rule_id@
                        &&& (forall|j: int|
                            0 <= j < i ==> old(self).rules_view()[j].id@ != rule_id@)
                        &&& state == !old(self).rules_view()[i].enabled
                        &&& final(self).rules_view() == old(self).rules_view().update(
                            i,
                            spec_rule_with_enabled(old(self).rules_view()[i], state),
                        )
                    },
                None => final(self).rules_view() == old(self).rules_view() && !has_rule_id(
                    old(self).rules_view(),
                    rule_id@,
                ),
            },
    {
        let mut i: usize = 0;
        while i < self.rules.len()
            invariant
                i <= self.rules@.len(),
                self == old(self),
                forall|j: int| 0 <= j < i ==> (#[trigger] self.rules@[j]).id@ != rule_id@,
            decreases self.rules@.len() - i,
        {
            let matches = {
                let cand = str_chars(self.rules[i].id.as_str());
                let target = str_chars(rule_id);
                chars_eq(cand.as_slice(), target.as_slice())
            };
            if matches {
                let slot = vec_index_mut(&mut self.rules, i);
                let new_state = !slot.enabled;
                slot.enabled = new_state;
                proof {
                    assert((#[trigger] old(self).rules_view()[i as int]).id@ == rule_id@);
                    assert(new_state == !old(self).rules_view()[i as int].enabled);
                    assert(self.rules@[i as int] == spec_rule_with_enabled(
                        old(self).rules_view()[i as int],
                        new_state,
                    ));
                    assert(self.rules_view() =~= old(self).rules_view().update(
                        i as int,
                        spec_rule_with_enabled(old(self).rules_view()[i as int], new_state),
                    ));
                }
                return Some(new_state);
            }
            i = i + 1;
        }
        None
    }
}

impl Default for RuleEngine {
    /// The same engine as `new`.
    fn default() -> (r: Self)
        ensures
            r.rules_view().len() == 5,
    {
        Self::new()
    }
}

/// Filtering the rules by match and then by category equals filtering by
/// both at once.
proof fn lemma_filter_filter_category(rules: Seq<CleanRule>, path: Seq<char>, cat: JunkCategory)
    ensures
        rules.filter(|r: CleanRule| spec_rule_matches(r, path)).filter(
            |r: CleanRule| r.category == cat,
        ) == rules.filter(|r: CleanRule| spec_rule_matches(r, path) && r.category == cat),
    decreases rules.len(),
{
    reveal(Seq::filter);
    if rules.len() == 0 {
        assert(rules.filter(|r: CleanRule| spec_rule_matches(r, path)).filter(
            |r: CleanRule| r.category == cat,
        ) =~= rules.filter(|r: CleanRule| spec_rule_matches(r, path) && r.category == cat));
    } else {
        lemma_filter_filter_category(rules.drop_last(), path, cat);
        let fm = rules.drop_last().filter(|r: CleanRule| spec_rule_matches(r, path));
        lemma_filter_push(fm, |r: CleanRule| r.category == cat, rules.last());
        assert(rules.filter(|r: CleanRule| spec_rule_matches(r, path)) == (if spec_rule_matches(
            rules.last(),
            path,
        ) {
            fm.push(rules.last())
        } else {
            fm
        }));
        assert(rules.filter(|r: CleanRule| spec_rule_matches(r, path)).filter(
            |r: CleanRule| r.category == cat,
        ) =~= rules.filter(|r: CleanRule| spec_rule_matches(r, path) && r.category == cat));
    }
}

} // verus!
