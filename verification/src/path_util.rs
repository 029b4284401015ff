//! Path predicates and the well-known system paths.
//!
//! Paths are plain strings; the predicates are specified over their
//! character views, with ASCII case folding.

use vstd::prelude::*;

use crate::platform;
use crate::text::{
    chars_eq, chars_to_string, contains_chars, contains_chars_seq, ends_with_chars_seq,
    file_name_of, lower_chars, spec_file_name, starts_with_chars, starts_with_chars_seq, str_chars,
    to_lower_chars,
};

verus! {

/// Names what glob_match::glob_match decides: whether a glob pattern
/// matches a string.
pub uninterp spec fn spec_glob_match(pattern: Seq<char>, s: Seq<char>) -> bool;

/// Relies on glob_match::glob_match for glob-pattern matching
/// (`*`, `?`, character classes and brace expansion).
#[verifier::external_body]
pub(crate) fn glob_match_str(pattern: &str, s: &str) -> (r: bool)
    ensures
        r == spec_glob_match(pattern@, s@),
{
    glob_match::glob_match(pattern, s)
}

/// Whether `pattern` matches `path`: by glob matching when the pattern has
/// a wildcard, by substring containment otherwise, case-insensitively.
pub open spec fn spec_matches_pattern(path: Seq<char>, pattern: Seq<char>) -> bool {
    if contains_chars_seq(pattern, "*"@) || contains_chars_seq(pattern, "?"@) {
        spec_glob_match(lower_chars(pattern), lower_chars(path))
    } else {
        contains_chars_seq(lower_chars(path), lower_chars(pattern))
    }
}

/// `child` lies under `parent`: `parent` is a prefix of `child` that ends at
/// a component boundary.
pub open spec fn spec_is_subpath(parent: Seq<char>, child: Seq<char>) -> bool {
    &&& starts_with_chars_seq(child, parent)
    &&& {
        ||| parent.len() == child.len()
        ||| parent.len() == 0
        ||| child[parent.len() as int] == '/'
        ||| child[parent.len() as int] == '\\'
        ||| parent[parent.len() - 1] == '/'
        ||| parent[parent.len() - 1] == '\\'
    }
}

/// The extension of a path: what follows the last `.` of its file name,
/// provided the dot is neither first nor last in the name.
pub open spec fn spec_extension_of(path: Seq<char>) -> Option<Seq<char>> {
    let name = spec_file_name(path);
    let dot = last_dot_position(name);
    if 0 < dot < name.len() - 1 {
        Some(name.subrange(dot + 1, name.len() as int))
    } else {
        None
    }
}

/// Position of the last `.` of `name`, or -1 when there is none.
pub open spec fn last_dot_position(name: Seq<char>) -> int
    decreases name.len(),
{
    if name.len() == 0 {
        -1
    } else if name[name.len() - 1] == '.' {
        name.len() - 1
    } else {
        last_dot_position(name.drop_last())
    }
}

proof fn lemma_last_dot_bounds(name: Seq<char>)
    ensures
        -1 <= last_dot_position(name) < name.len(),
    decreases name.len(),
{
    if name.len() > 0 && name[name.len() - 1] != '.' {
        lemma_last_dot_bounds(name.drop_last());
    }
}

/// Find the last `.` of a file name.
fn find_last_dot(name: &[char]) -> (r: Option<usize>)
    ensures
        match r {
            Some(p) => p == last_dot_position(name@),
            None => last_dot_position(name@) == -1,
        },
{
    proof {
        assert(name@.take(name@.len() as int) =~= name@);
    }
    let mut i: usize = name.len();
    while i > 0
        invariant
            i <= name@.len(),
            last_dot_position(name@) == last_dot_position(name@.take(i as int)),
        decreases i,
    {
        if name[i - 1] == '.' {
            proof {
                assert(name@.take(i as int)[i - 1] == name@[i - 1]);
            }
            return Some(i - 1);
        }
        proof {
            assert(name@.take(i as int).drop_last() =~= name@.take(i - 1));
            assert(name@.take(i as int)[i - 1] == name@[i - 1]);
        }
        i = i - 1;
    }
    proof {
        assert(name@.take(0) =~= Seq::<char>::empty());
    }
    None
}

/// Path predicates and accessors.
pub struct PathUtils;

impl PathUtils {
    /// `child` lies under `parent`, at a component boundary.
    pub fn is_subpath(parent: &str, child: &str) -> (r: bool)
        ensures
            r == spec_is_subpath(parent@, child@),
    {
        let p = str_chars(parent);
        let c = str_chars(child);
        if !starts_with_chars(c.as_slice(), p.as_slice()) {
            return false;
        }
        if p.len() == c.len() || p.len() == 0 {
            return true;
        }
        let boundary = c[p.len()];
        if boundary == '/' || boundary == '\\' {
            return true;
        }
        let last = p[p.len() - 1];
        last == '/' || last == '\\'
    }

    /// The two paths are equal up to ASCII case; non-ASCII letters are
    /// compared as they are, by design.
    pub fn equals_ignore_case(path1: &str, path2: &str) -> (r: bool)
        ensures
            r == (lower_chars(path1@) == lower_chars(path2@)),
    {
        let a = str_chars(path1);
        let b = str_chars(path2);
        let la = to_lower_chars(a.as_slice());
        let lb = to_lower_chars(b.as_slice());
        chars_eq(la.as_slice(), lb.as_slice())
    }

    /// Case-insensitive pattern match: glob when the pattern has a wildcard,
    /// substring containment otherwise.
    pub fn matches_pattern(path: &str, pattern: &str) -> (r: bool)
        ensures
            r == spec_matches_pattern(path@, pattern@),
    {
        let pat = str_chars(pattern);
        let star = ['*'];
        let question = ['?'];
        proof {
            reveal_strlit("*");
            reveal_strlit("?");
            assert(star@ =~= "*"@);
            assert(question@ =~= "?"@);
        }
        let path_chars = str_chars(path);
        let path_lower = to_lower_chars(path_chars.as_slice());
        let pat_lower = to_lower_chars(pat.as_slice());
        if contains_chars(pat.as_slice(), &star) || contains_chars(pat.as_slice(), &question) {
            let pat_s = chars_to_string(&pat_lower);
            let path_s = chars_to_string(&path_lower);
            glob_match_str(pat_s.as_str(), path_s.as_str())
        } else {
            contains_chars(path_lower.as_slice(), pat_lower.as_slice())
        }
    }

    /// Whether any of the patterns matches the path.
    pub fn matches_patterns(path: &str, patterns: &Vec<String>) -> (r: bool)
        ensures
            r == exists|i: int|
                0 <= i < patterns@.len() && spec_matches_pattern(path@, patterns@[i]@),
    {
        let mut i: usize = 0;
        while i < patterns.len()
            invariant
                i <= patterns@.len(),
                forall|j: int| 0 <= j < i ==> !spec_matches_pattern(path@, patterns@[j]@),
            decreases patterns@.len() - i,
        {
            if Self::matches_pattern(path, patterns[i].as_str()) {
                return true;
            }
            i = i + 1;
        }
        false
    }

    /// The extension of the path, lower-cased, when it has one.
    pub fn get_extension(path: &str) -> (r: Option<String>)
        ensures
            match r {
                Some(e) => spec_extension_of(path@) matches Some(ext) && e@ == lower_chars(ext),
                None => spec_extension_of(path@) is None,
            },
    {
        let chars = str_chars(path);
        let name = file_name_of(chars.as_slice());
        proof {
            lemma_last_dot_bounds(name@);
        }
        match find_last_dot(name.as_slice()) {
            Some(dot) => {
                if dot == 0 || dot >= name.len() - 1 {
                    return None;
                }
                let mut ext: Vec<char> = Vec::new();
                let mut i: usize = dot + 1;
                proof {
                    assert(ext@ =~= name@.subrange(dot + 1, dot + 1));
                }
                while i < name.len()
                    invariant
                        dot + 1 <= i <= name@.len(),
                        ext@ == name@.subrange(dot + 1, i as int),
                    decreases name@.len() - i,
                {
                    ext.push(name[i]);
                    proof {
                        assert(name@.subrange(dot + 1, i + 1) =~= name@.subrange(
                            dot + 1,
                            i as int,
                        ).push(name@[i as int]));
                    }
                    i = i + 1;
                }
                let lowered = to_lower_chars(ext.as_slice());
                Some(chars_to_string(&lowered))
            },
            None => None,
        }
    }

    /// Whether the path's extension, lower-cased, is one of `extensions`
    /// (each compared lower-cased).
    pub fn has_extension(path: &str, extensions: &Vec<String>) -> (r: bool)
        ensures
            r == (spec_extension_of(path@) matches Some(ext) && exists|i: int|
                0 <= i < extensions@.len() && lower_chars(extensions@[i]@) == lower_chars(ext)),
    {
        match Self::get_extension(path) {
            Some(ext) => {
                let ext_chars = str_chars(ext.as_str());
                let ghost spec_ext = spec_extension_of(path@)->Some_0;
                proof {
                    assert(lower_chars(lower_chars(spec_ext)) =~= lower_chars(spec_ext));
                }
                let mut i: usize = 0;
                while i < extensions.len()
                    invariant
                        i <= extensions@.len(),
                        ext_chars@ == lower_chars(spec_ext),
                        lower_chars(ext_chars@) == lower_chars(spec_ext),
                        spec_extension_of(path@) == Some(spec_ext),
                        forall|j: int|
                            0 <= j < i ==> lower_chars(extensions@[j]@) != lower_chars(spec_ext),
                    decreases extensions@.len() - i,
                {
                    let cand = str_chars(extensions[i].as_str());
                    let cand_lower = to_lower_chars(cand.as_slice());
                    if chars_eq(cand_lower.as_slice(), ext_chars.as_slice()) {
                        return true;
                    }
                    i = i + 1;
                }
                false
            },
            None => false,
        }
    }

    /// The final component of the path, when it is not empty.
    pub fn get_filename(path: &str) -> (r: Option<String>)
        ensures
            match r {
                Some(n) => n@ == spec_file_name(path@) && n@.len() > 0,
                None => spec_file_name(path@).len() == 0,
            },
    {
        let chars = str_chars(path);
        let name = file_name_of(chars.as_slice());
        if name.len() == 0 {
            None
        } else {
            Some(chars_to_string(&name))
        }
    }

    /// Everything before the final component, without its trailing
    /// separator, when the path has a parent.
    pub fn get_parent(path: &str) -> (r: Option<String>)
        ensures
            match r {
                Some(p) => {
                    &&& crate::text::spec_component_start(path@) > 0
                    &&& p@ == path@.take(crate::text::spec_component_start(path@) - 1)
                },
                None => crate::text::spec_component_start(path@) == 0,
            },
    {
        let chars = str_chars(path);
        let start = crate::text::component_start(chars.as_slice());
        if start == 0 {
            return None;
        }
        let mut parent: Vec<char> = Vec::new();
        let mut i: usize = 0;
        proof {
            assert(parent@ =~= chars@.take(0));
        }
        while i < start - 1
            invariant
                i <= start - 1,
                start <= chars@.len(),
                parent@ == chars@.take(i as int),
            decreases start - 1 - i,
        {
            parent.push(chars[i]);
            proof {
                assert(chars@.take(i + 1) =~= chars@.take(i as int).push(chars@[i as int]));
            }
            i = i + 1;
        }
        Some(chars_to_string(&parent))
    }

    /// No character of the path is one of the reserved ones
    /// `<`, `>`, `:`, `"`, `|`, `?`, `*`.
    pub open spec fn spec_is_valid_path(path: Seq<char>) -> bool {
        forall|i: int|
            0 <= i < path.len() ==> !(path[i] == '<' || path[i] == '>' || path[i] == ':'
                || path[i] == '"' || path[i] == '|' || path[i] == '?' || path[i] == '*')
    }

    /// Whether the path avoids the reserved characters.
    pub fn is_valid_path(path: &str) -> (r: bool)
        ensures
            r == Self::spec_is_valid_path(path@),
    {
        let chars = str_chars(path);
        let mut i: usize = 0;
        while i < chars.len()
            invariant
                i <= chars@.len(),
                chars@ == path@,
                forall|j: int|
                    0 <= j < i ==> !(path@[j] == '<' || path@[j] == '>' || path@[j] == ':'
                        || path@[j] == '"' || path@[j] == '|' || path@[j] == '?' || path@[j]
                        == '*'),
            decreases chars@.len() - i,
        {
            let c = chars[i];
            if c == '<' || c == '>' || c == ':' || c == '"' || c == '|' || c == '?' || c == '*' {
                return false;
            }
            i = i + 1;
        }
        true
    }

    /// Whether the path is absolute: it starts with a separator or with a
    /// drive letter and colon.
    pub open spec fn spec_is_absolute(path: Seq<char>) -> bool {
        ||| path.len() >= 1 && (path[0] == '/' || path[0] == '\\')
        ||| path.len() >= 2 && path[1] == ':'
    }

    pub fn is_absolute_path(path: &str) -> (r: bool)
        ensures
            r == Self::spec_is_absolute(path@),
    {
        let chars = str_chars(path);
        if chars.len() >= 1 {
            let c = chars[0];
            if c == '/' || c == '\\' {
                return true;
            }
        }
        if chars.len() >= 2 {
            return chars[1] == ':';
        }
        false
    }

    /// The path itself when absolute, else `base`, a separator and the path.
    pub fn to_absolute(path: &str, base: &str) -> (r: String)
        ensures
            Self::spec_is_absolute(path@) ==> r@ == path@,
            !Self::spec_is_absolute(path@) ==> r@ == base@ + "/"@ + path@,
    {
        if Self::is_absolute_path(path) {
            return path.to_owned();
        }
        let base_chars = str_chars(base);
        let path_chars = str_chars(path);
        let mut joined = base_chars;
        joined.push('/');
        let mut i: usize = 0;
        proof {
            reveal_strlit("/");
            assert(joined@ =~= base@ + "/"@ + path@.take(0));
        }
        while i < path_chars.len()
            invariant
                i <= path_chars@.len(),
                path_chars@ == path@,
                joined@ == base@ + "/"@ + path@.take(i as int),
            decreases path_chars@.len() - i,
        {
            joined.push(path_chars[i]);
            proof {
                assert(path@.take(i + 1) =~= path@.take(i as int).push(path@[i as int]));
                assert(joined@ =~= base@ + "/"@ + path@.take(i + 1));
            }
            i = i + 1;
        }
        proof {
            assert(path@.take(path@.len() as int) =~= path@);
        }
        chars_to_string(&joined)
    }
}


/// A path separator.
pub open spec fn is_sep(c: char) -> bool {
    c == '/' || c == '\\'
}

/// The components of a path: the maximal separator-free runs, in order.
pub open spec fn spec_path_components(s: Seq<char>) -> Seq<Seq<char>>
    decreases s.len(),
{
    if s.len() == 0 {
        Seq::<Seq<char>>::empty()
    } else if is_sep(s.last()) {
        spec_path_components(s.drop_last())
    } else {
        let c = crate::text::spec_component_start(s);
        let cs = if 0 <= c < s.len() {
            c
        } else {
            0
        };
        spec_path_components(s.take(cs)).push(s.subrange(cs, s.len() as int))
    }
}

/// Normalisation over components, from the left: a current-directory
/// component is dropped; a parent-directory component removes what precedes
/// it when anything does and stays otherwise; everything else is kept.
pub open spec fn spec_normalize_components(comps: Seq<Seq<char>>) -> Seq<Seq<char>>
    decreases comps.len(),
{
    if comps.len() == 0 {
        Seq::<Seq<char>>::empty()
    } else {
        let prev = spec_normalize_components(comps.drop_last());
        let c = comps.last();
        if c == "."@ {
            prev
        } else if c == ".."@ {
            if prev.len() > 0 {
                prev.drop_last()
            } else {
                prev.push(c)
            }
        } else {
            prev.push(c)
        }
    }
}

/// Components joined with a single forward separator.
pub open spec fn spec_join_components(comps: Seq<Seq<char>>) -> Seq<char>
    decreases comps.len(),
{
    if comps.len() == 0 {
        Seq::<char>::empty()
    } else if comps.len() == 1 {
        comps[0]
    } else {
        spec_join_components(comps.drop_last()) + "/"@ + comps.last()
    }
}

/// The path starts at a root: its first character is a separator.
pub open spec fn spec_has_root(s: Seq<char>) -> bool {
    s.len() > 0 && is_sep(s[0])
}

/// The normal form of a path: its components, normalised and joined with
/// forward separators, behind the root separator when the path had one.
pub open spec fn spec_normalize_path(s: Seq<char>) -> Seq<char> {
    if spec_has_root(s) {
        seq!['/'] + spec_join_components(spec_normalize_components(spec_path_components(s)))
    } else {
        spec_join_components(spec_normalize_components(spec_path_components(s)))
    }
}

/// A path ending in a separator-free character has its component start
/// strictly inside.
proof fn lemma_component_start_strict(s: Seq<char>)
    requires
        s.len() > 0,
        !is_sep(s.last()),
    ensures
        0 <= crate::text::spec_component_start(s) < s.len(),
{
    crate::text::lemma_component_start_bounds(s.drop_last());
    assert(crate::text::spec_component_start(s) == crate::text::spec_component_start(
        s.drop_last(),
    ));
}

/// How the components change when one character is appended: a separator
/// changes nothing, a fresh character after a separator opens a component,
/// and any other character extends the last component.
proof fn lemma_components_push(s: Seq<char>, c: char)
    ensures
        is_sep(c) ==> spec_path_components(s.push(c)) == spec_path_components(s),
        !is_sep(c) && (s.len() == 0 || is_sep(s.last())) ==> spec_path_components(s.push(c))
            == spec_path_components(s).push(seq![c]),
        !is_sep(c) && s.len() > 0 && !is_sep(s.last()) ==> spec_path_components(s).len() > 0
            && spec_path_components(s.push(c)) == spec_path_components(s).drop_last().push(
            spec_path_components(s).last().push(c),
        ),
{
    let t = s.push(c);
    assert(t.drop_last() =~= s);
    assert(t.last() == c);
    if is_sep(c) {
    } else if s.len() == 0 || is_sep(s.last()) {
        assert(crate::text::spec_component_start(t) == crate::text::spec_component_start(s));
        if s.len() == 0 {
            assert(crate::text::spec_component_start(s) == 0);
            assert(t.take(0) =~= Seq::<char>::empty());
            assert(t.subrange(0, 1) =~= seq![c]);
        } else {
            assert(crate::text::spec_component_start(s) == s.len());
            assert(t.take(s.len() as int) =~= s);
            assert(t.subrange(s.len() as int, t.len() as int) =~= seq![c]);
        }
    } else {
        lemma_component_start_strict(s);
        let cs = crate::text::spec_component_start(s);
        assert(crate::text::spec_component_start(t) == cs);
        assert(0 <= cs < t.len());
        assert(t.take(cs) =~= s.take(cs));
        assert(t.subrange(cs, t.len() as int) =~= s.subrange(cs, s.len() as int).push(c));
        assert(spec_path_components(s) == spec_path_components(s.take(cs)).push(
            s.subrange(cs, s.len() as int),
        ));
        assert(spec_path_components(t) == spec_path_components(s.take(cs)).push(
            s.subrange(cs, s.len() as int).push(c),
        ));
        assert(spec_path_components(s).drop_last() =~= spec_path_components(s.take(cs)));
    }
}

/// Split a path into its components.
fn split_components(s: &[char]) -> (r: Vec<Vec<char>>)
    ensures
        r@.map_values(|v: Vec<char>| v@) == spec_path_components(s@),
{
    let mut comps: Vec<Vec<char>> = Vec::new();
    let mut cur: Vec<char> = Vec::new();
    let mut i: usize = 0;
    proof {
        assert(s@.take(0) =~= Seq::<char>::empty());
        assert(comps@.map_values(|v: Vec<char>| v@) =~= Seq::<Seq<char>>::empty());
    }
    while i < s.len()
        invariant
            i <= s@.len(),
            cur@.len() == 0 ==> comps@.map_values(|v: Vec<char>| v@) == spec_path_components(
                s@.take(i as int),
            ) && (i == 0 || is_sep(s@[i - 1])),
            cur@.len() > 0 ==> comps@.map_values(|v: Vec<char>| v@).push(cur@)
                == spec_path_components(s@.take(i as int)) && i > 0 && !is_sep(s@[i - 1]),
        decreases s@.len() - i,
    {
        let c = s[i];
        proof {
            assert(s@.take(i + 1) =~= s@.take(i as int).push(s@[i as int]));
            lemma_components_push(s@.take(i as int), s@[i as int]);
            if i > 0 {
                assert(s@.take(i as int).last() == s@[i - 1]);
            }
        }
        if c == '/' || c == '\\' {
            if cur.len() > 0 {
                let ghost pre = comps@.map_values(|v: Vec<char>| v@);
                comps.push(cur);
                proof {
                    assert(comps@.map_values(|v: Vec<char>| v@) =~= pre.push(
                        comps@.last()@,
                    ));
                }
                cur = Vec::new();
            }
        } else {
            cur.push(c);
            proof {
                if cur@.len() == 1 {
                    let ghost built = comps@.map_values(|v: Vec<char>| v@);
                    assert(cur@ =~= seq![s@[i as int]]);
                    assert(spec_path_components(s@.take(i + 1)) == spec_path_components(
                        s@.take(i as int),
                    ).push(seq![s@[i as int]]));
                    assert(built.push(cur@) =~= spec_path_components(s@.take(i + 1)));
                }
                if cur@.len() > 1 {
                    let ghost built = comps@.map_values(|v: Vec<char>| v@);
                    assert(spec_path_components(s@.take(i + 1)) == spec_path_components(
                        s@.take(i as int),
                    ).drop_last().push(spec_path_components(s@.take(i as int)).last().push(
                        s@[i as int],
                    )));
                    assert(spec_path_components(s@.take(i as int)).drop_last() =~= built);
                    assert(spec_path_components(s@.take(i as int)).last() == cur@.drop_last());
                    assert(built.push(cur@) =~= spec_path_components(s@.take(i + 1)));
                }
            }
        }
        i = i + 1;
    }
    proof {
        assert(s@.take(s@.len() as int) =~= s@);
    }
    if cur.len() > 0 {
        let ghost pre = comps@.map_values(|v: Vec<char>| v@);
        comps.push(cur);
        proof {
            assert(comps@.map_values(|v: Vec<char>| v@) =~= pre.push(comps@.last()@));
        }
    }
    comps
}

impl PathUtils {
    /// The normal form of a path: current-directory components dropped,
    /// parent-directory components resolved against what precedes them, the
    /// root kept when the path had one, and the rest joined with forward
    /// separators.
    pub fn normalize(path: &str) -> (r: String)
        ensures
            r@ == spec_normalize_path(path@),
    {
        let chars = str_chars(path);
        let has_root = chars.len() > 0 && {
            let c = chars[0];
            c == '/' || c == '\\'
        };
        let comps = split_components(chars.as_slice());
        let ghost all = comps@.map_values(|v: Vec<char>| v@);
        let mut stack: Vec<Vec<char>> = Vec::new();
        let mut rest = comps;
        let ghost k: int = 0;
        let dot = str_chars(".");
        let dotdot = str_chars("..");
        proof {
            assert(all.take(0) =~= Seq::<Seq<char>>::empty());
            assert(stack@.map_values(|v: Vec<char>| v@) =~= Seq::<Seq<char>>::empty());
            assert(rest@.map_values(|v: Vec<char>| v@) =~= all.skip(0));
        }
        while rest.len() > 0
            invariant
                0 <= k <= all.len(),
                rest@.map_values(|v: Vec<char>| v@) == all.skip(k),
                stack@.map_values(|v: Vec<char>| v@) == spec_normalize_components(all.take(k)),
                dot@ == "."@,
                dotdot@ == ".."@,
            decreases rest@.len(),
        {
            let ghost rest_pre = rest@.map_values(|v: Vec<char>| v@);
            let comp = rest.remove(0);
            proof {
                assert(rest@.map_values(|v: Vec<char>| v@) =~= rest_pre.drop_first());
                assert(rest_pre.drop_first() =~= all.skip(k + 1));
                assert(comp@ == rest_pre[0]);
                assert(rest_pre[0] == all.skip(k)[0]);
                assert(comp@ == all[k]);
                assert(all.take(k + 1).drop_last() =~= all.take(k));
                assert(all.take(k + 1).last() == all[k]);
            }
            let ghost pre = stack@.map_values(|v: Vec<char>| v@);
            if crate::text::chars_eq(comp.as_slice(), dot.as_slice()) {
            } else if crate::text::chars_eq(comp.as_slice(), dotdot.as_slice()) {
                if stack.len() > 0 {
                    stack.pop();
                    proof {
                        assert(stack@.map_values(|v: Vec<char>| v@) =~= pre.drop_last());
                    }
                } else {
                    stack.push(comp);
                    proof {
                        assert(stack@.map_values(|v: Vec<char>| v@) =~= pre.push(
                            stack@.last()@,
                        ));
                    }
                }
            } else {
                stack.push(comp);
                proof {
                    assert(stack@.map_values(|v: Vec<char>| v@) =~= pre.push(stack@.last()@));
                }
            }
            proof {
                k = k + 1;
            }
        }
        proof {
            assert(all.skip(k).len() == 0);
            assert(k == all.len());
            assert(all.take(all.len() as int) =~= all);
        }
        let ghost kept = spec_normalize_components(all);
        let mut out: Vec<char> = Vec::new();
        if has_root {
            out.push('/');
        }
        let ghost prefix = if spec_has_root(path@) {
            seq!['/']
        } else {
            Seq::<char>::empty()
        };
        let mut g: usize = 0;
        proof {
            assert(stack@.map_values(|v: Vec<char>| v@).take(0) =~= Seq::<Seq<char>>::empty());
            assert(out@ =~= prefix + spec_join_components(kept.take(0)));
        }
        while g < stack.len()
            invariant
                g <= stack@.len(),
                stack@.map_values(|v: Vec<char>| v@) == kept,
                out@ == prefix + spec_join_components(kept.take(g as int)),
            decreases stack@.len() - g,
        {
            proof {
                assert(kept.take(g + 1).drop_last() =~= kept.take(g as int));
                assert(kept.take(g + 1).last() == kept[g as int]);
            }
            if g > 0 {
                out.push('/');
            }
            let comp = &stack[g];
            let mut m: usize = 0;
            let ghost out_mid = out@;
            while m < comp.len()
                invariant
                    m <= comp@.len(),
                    g < stack@.len(),
                    comp@ == stack@.map_values(|v: Vec<char>| v@)[g as int],
                    out@ == out_mid + comp@.take(m as int),
                decreases comp@.len() - m,
            {
                out.push(comp[m]);
                proof {
                    assert(comp@.take(m + 1) =~= comp@.take(m as int).push(comp@[m as int]));
                    assert(out@ =~= out_mid + comp@.take(m + 1));
                }
                m = m + 1;
            }
            proof {
                assert(comp@.take(comp@.len() as int) =~= comp@);
                reveal_strlit("/");
                if g == 0 {
                    assert(kept.take(1)[0] == kept[0]);
                    assert(spec_join_components(kept.take(1)) == kept[0]);
                    assert(out@ =~= prefix + spec_join_components(kept.take(1)));
                } else {
                    assert(out@ =~= prefix + spec_join_components(kept.take(g as int)) + "/"@
                        + kept[g as int]);
                    assert(spec_join_components(kept.take(g + 1)) == spec_join_components(
                        kept.take(g + 1).drop_last(),
                    ) + "/"@ + kept.take(g + 1).last());
                    assert(out@ =~= prefix + spec_join_components(kept.take(g + 1)));
                }
            }
            g = g + 1;
        }
        proof {
            assert(kept.take(kept.len() as int) =~= kept);
            assert(out@ =~= prefix + spec_join_components(kept));
        }
        crate::text::chars_to_string(&out)
    }

    /// The normal form of a path, from and to plain strings.
    pub fn normalize_string(path: &str) -> (r: String)
        ensures
            r@ == spec_normalize_path(path@),
    {
        Self::normalize(path)
    }
}

/// The directories the system gives out, and the fixed Windows system roots.
pub struct SystemPaths;

impl SystemPaths {
    /// The system temporary directory.
    pub fn temp_dir() -> String {
        platform::sys_temp_dir()
    }

    /// The user's home directory, when the system names one.
    pub fn home_dir() -> Option<String> {
        platform::sys_home_dir()
    }

    /// The user's documents directory, when the system names one.
    pub fn documents_dir() -> Option<String> {
        platform::sys_document_dir()
    }

    /// The local application-data directory, when the system names one.
    pub fn app_data_local() -> Option<String> {
        platform::sys_cache_dir()
    }

    /// The roaming application-data directory, when the system names one.
    pub fn app_data_roaming() -> Option<String> {
        platform::sys_config_dir()
    }

    pub fn program_files() -> (r: String)
        ensures
            r@ == "C:\\Program Files"@,
    {
        "C:\\Program Files".to_string()
    }

    pub fn program_files_x86() -> (r: String)
        ensures
            r@ == "C:\\Program Files (x86)"@,
    {
        "C:\\Program Files (x86)".to_string()
    }

    pub fn windows_dir() -> (r: String)
        ensures
            r@ == "C:\\Windows"@,
    {
        "C:\\Windows".to_string()
    }

    pub fn system32_dir() -> (r: String)
        ensures
            r@ == "C:\\Windows\\System32"@,
    {
        "C:\\Windows\\System32".to_string()
    }

    /// The cache directories of the common browsers under the local
    /// application-data directory: the first browser's cache, the second's,
    /// and the third's profile root, in that order; nothing when the system
    /// names no such directory.
    pub fn get_browser_cache_paths() -> (r: Vec<String>)
        ensures
            r@.len() == 0 || r@.len() == 3,
            r@.len() == 3 ==> crate::text::ends_with_chars_seq(
                r@[0]@,
                "\\Google\\Chrome\\User Data\\Default\\Cache"@,
            ) && crate::text::ends_with_chars_seq(
                r@[1]@,
                "\\Microsoft\\Edge\\User Data\\Default\\Cache"@,
            ) && crate::text::ends_with_chars_seq(
                r@[2]@,
                "\\Mozilla\\Firefox\\Profiles"@,
            ),
    {
        let mut paths: Vec<String> = Vec::new();
        match platform::sys_cache_dir() {
            Some(local) => {
                let chrome = join_path(local.as_str(), "Google\\Chrome\\User Data\\Default\\Cache");
                proof {
                    lemma_join_ends_with(local@, "Google\\Chrome\\User Data\\Default\\Cache"@);
                    assert("\\Google\\Chrome\\User Data\\Default\\Cache"@ =~= "\\"@
                        + "Google\\Chrome\\User Data\\Default\\Cache"@) by {
                        reveal_strlit("\\Google\\Chrome\\User Data\\Default\\Cache");
                        reveal_strlit("\\");
                        reveal_strlit("Google\\Chrome\\User Data\\Default\\Cache");
                    }
                }
                paths.push(chrome);
                let edge = join_path(local.as_str(), "Microsoft\\Edge\\User Data\\Default\\Cache");
                proof {
                    lemma_join_ends_with(local@, "Microsoft\\Edge\\User Data\\Default\\Cache"@);
                    assert("\\Microsoft\\Edge\\User Data\\Default\\Cache"@ =~= "\\"@
                        + "Microsoft\\Edge\\User Data\\Default\\Cache"@) by {
                        reveal_strlit("\\Microsoft\\Edge\\User Data\\Default\\Cache");
                        reveal_strlit("\\");
                        reveal_strlit("Microsoft\\Edge\\User Data\\Default\\Cache");
                    }
                }
                paths.push(edge);
                let firefox = join_path(local.as_str(), "Mozilla\\Firefox\\Profiles");
                proof {
                    lemma_join_ends_with(local@, "Mozilla\\Firefox\\Profiles"@);
                    assert("\\Mozilla\\Firefox\\Profiles"@ =~= "\\"@
                        + "Mozilla\\Firefox\\Profiles"@) by {
                        reveal_strlit("\\Mozilla\\Firefox\\Profiles");
                        reveal_strlit("\\");
                        reveal_strlit("Mozilla\\Firefox\\Profiles");
                    }
                }
                paths.push(firefox);
            },
            None => {},
        }
        paths
    }

    /// The system's temporary directories.
    pub fn get_temp_paths() -> (r: Vec<String>)
        ensures
            r@.len() == 2,
            r@[1]@ == "C:\\Windows\\Temp"@,
    {
        let mut paths: Vec<String> = Vec::new();
        paths.push(Self::temp_dir());
        paths.push("C:\\Windows\\Temp".to_string());
        paths
    }

    /// The spec-level list of protected system roots.
    pub open spec fn spec_protected_paths() -> Seq<Seq<char>> {
        seq![
            "C:\\Windows\\System32"@,
            "C:\\Windows\\SysWOW64"@,
            "C:\\Windows\\WinSxS"@,
            "C:\\Program Files"@,
            "C:\\Program Files (x86)"@,
            "C:\\ProgramData"@,
            "C:\\Boot"@,
            "C:\\EFI"@,
            "C:\\Recovery"@,
        ]
    }

    /// The protected system roots that no scan or clean may touch.
    pub fn get_protected_paths() -> (r: Vec<String>)
        ensures
            r@.len() == Self::spec_protected_paths().len(),
            forall|i: int| 0 <= i < r@.len() ==> r@[i]@ == Self::spec_protected_paths()[i],
    {
        let mut paths: Vec<String> = Vec::new();
        paths.push("C:\\Windows\\System32".to_string());
        paths.push("C:\\Windows\\SysWOW64".to_string());
        paths.push("C:\\Windows\\WinSxS".to_string());
        paths.push("C:\\Program Files".to_string());
        paths.push("C:\\Program Files (x86)".to_string());
        paths.push("C:\\ProgramData".to_string());
        paths.push("C:\\Boot".to_string());
        paths.push("C:\\EFI".to_string());
        paths.push("C:\\Recovery".to_string());
        proof {
            assert forall|i: int| 0 <= i < paths@.len() implies paths@[i]@
                == Self::spec_protected_paths()[i] by {
            }
        }
        paths
    }
}

/// A joined path ends with a separator and its tail.
pub proof fn lemma_join_ends_with(base: Seq<char>, tail: Seq<char>)
    ensures
        crate::text::ends_with_chars_seq(base + "\\"@ + tail, "\\"@ + tail),
{
    reveal_strlit("\\");
    let joined = base + "\\"@ + tail;
    let suffix = "\\"@ + tail;
    assert(joined.subrange(joined.len() - suffix.len(), joined.len() as int) =~= suffix);
}

/// `base`, a separator and `tail`.
pub fn join_path(base: &str, tail: &str) -> (r: String)
    ensures
        r@ == base@ + "\\"@ + tail@,
{
    let base_chars = str_chars(base);
    let tail_chars = str_chars(tail);
    let mut joined = base_chars;
    joined.push('\\');
    let mut i: usize = 0;
    proof {
        reveal_strlit("\\");
        assert(joined@ =~= base@ + "\\"@ + tail@.take(0));
    }
    while i < tail_chars.len()
        invariant
            i <= tail_chars@.len(),
            tail_chars@ == tail@,
            joined@ == base@ + "\\"@ + tail@.take(i as int),
        decreases tail_chars@.len() - i,
    {
        joined.push(tail_chars[i]);
        proof {
            assert(tail@.take(i + 1) =~= tail@.take(i as int).push(tail@[i as int]));
            assert(joined@ =~= base@ + "\\"@ + tail@.take(i + 1));
        }
        i = i + 1;
    }
    proof {
        assert(tail@.take(tail@.len() as int) =~= tail@);
    }
    chars_to_string(&joined)
}

} // verus!
