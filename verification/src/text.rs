//! Verified helpers over character and byte sequences.
//!
//! Path and pattern logic throughout the crate is specified over the
//! character view of the strings involved (`s@`), so the executable helpers
//! here work on `Vec<char>` and `&[char]`; a byte-level prefix test serves
//! the code that looks at raw file contents.

use vstd::prelude::*;

verus! {

/// Relies on str::chars: the characters of `s`, in order.
#[verifier::external_body]
pub fn str_chars(s: &str) -> (r: Vec<char>)
    ensures
        r@ == s@,
{
    s.chars().collect()
}

/// Relies on String's FromIterator over char: the string of exactly the
/// given characters.
#[verifier::external_body]
pub fn chars_to_string(v: &Vec<char>) -> (r: String)
    ensures
        r@ == v@,
{
    v.iter().collect()
}

/// ASCII lower-casing of a single character. Case folding here is ASCII
/// only, by design: paths and patterns are compared with non-ASCII letters
/// left as they are.
pub open spec fn lower_char(c: char) -> char {
    if 65 <= c as u32 <= 90 {
        ((c as u32) + 32) as char
    } else {
        c
    }
}

/// ASCII lower-casing of a character sequence.
pub open spec fn lower_chars(s: Seq<char>) -> Seq<char> {
    s.map_values(|c: char| lower_char(c))
}

/// Lower-case the ASCII letters of a character slice.
pub fn to_lower_chars(s: &[char]) -> (r: Vec<char>)
    ensures
        r@ == lower_chars(s@),
{
    let mut r: Vec<char> = Vec::new();
    let mut i: usize = 0;
    while i < s.len()
        invariant
            i <= s@.len(),
            r@ == lower_chars(s@.take(i as int)),
        decreases s@.len() - i,
    {
        let c = s[i];
        let u = c as u32;
        if 65 <= u && u <= 90 {
            let lowered = ((u + 32) as u8) as char;
            proof {
                assert(lowered == lower_char(c));
            }
            r.push(lowered);
        } else {
            r.push(c);
        }
        i = i + 1;
        proof {
            assert(s@.take(i as int) == s@.take(i - 1).push(s@[i - 1]));
            assert(r@ =~= lower_chars(s@.take(i as int)));
        }
    }
    proof {
        assert(s@.take(s@.len() as int) == s@);
    }
    r
}

/// `needle` occurs in `hay` starting at position `at`.
pub open spec fn matches_at_chars(hay: Seq<char>, needle: Seq<char>, at: int) -> bool {
    &&& 0 <= at
    &&& at + needle.len() <= hay.len()
    &&& hay.subrange(at, at + needle.len()) == needle
}

/// `needle` occurs somewhere in `hay`.
pub open spec fn contains_chars_seq(hay: Seq<char>, needle: Seq<char>) -> bool {
    exists|at: int| matches_at_chars(hay, needle, at)
}

/// `pre` is a prefix of `s`.
pub open spec fn starts_with_chars_seq(s: Seq<char>, pre: Seq<char>) -> bool {
    pre.len() <= s.len() && s.subrange(0, pre.len() as int) == pre
}

/// `suf` is a suffix of `s`.
pub open spec fn ends_with_chars_seq(s: Seq<char>, suf: Seq<char>) -> bool {
    suf.len() <= s.len() && s.subrange(s.len() - suf.len(), s.len() as int) == suf
}

/// Compare two character slices for equality.
pub fn chars_eq(a: &[char], b: &[char]) -> (r: bool)
    ensures
        r == (a@ == b@),
{
    if a.len() != b.len() {
        proof {
            assert(a@.len() != b@.len());
        }
        return false;
    }
    let mut i: usize = 0;
    while i < a.len()
        invariant
            i <= a@.len(),
            a@.len() == b@.len(),
            forall|j: int| 0 <= j < i ==> a@[j] == b@[j],
        decreases a@.len() - i,
    {
        if a[i] != b[i] {
            proof {
                assert(a@[i as int] != b@[i as int]);
            }
            return false;
        }
        i = i + 1;
    }
    proof {
        assert(a@ =~= b@);
    }
    true
}

/// Does `needle` occur at position `at` of `hay`?
fn check_match_at_chars(hay: &[char], needle: &[char], at: usize) -> (r: bool)
    requires
        at + needle@.len() <= hay@.len(),
    ensures
        r == matches_at_chars(hay@, needle@, at as int),
{
    let hay_len = hay.len();
    let mut j: usize = 0;
    while j < needle.len()
        invariant
            j <= needle@.len(),
            at + needle@.len() <= hay@.len(),
            hay@.len() == hay_len,
            forall|k: int| 0 <= k < j ==> hay@[at + k] == needle@[k],
        decreases needle@.len() - j,
    {
        if hay[at + j] != needle[j] {
            proof {
                assert(hay@[at + j] != needle@[j as int]);
                assert(hay@.subrange(at as int, at + needle@.len())[j as int] == hay@[at + j]);
            }
            return false;
        }
        j = j + 1;
    }
    proof {
        assert(hay@.subrange(at as int, at + needle@.len()) =~= needle@);
    }
    true
}

/// Substring search over characters.
pub fn contains_chars(hay: &[char], needle: &[char]) -> (r: bool)
    ensures
        r == contains_chars_seq(hay@, needle@),
{
    if needle.len() > hay.len() {
        proof {
            assert(forall|at: int| !matches_at_chars(hay@, needle@, at));
        }
        return false;
    }
    if needle.len() == 0 {
        proof {
            assert(hay@.subrange(0, 0) =~= needle@);
            assert(matches_at_chars(hay@, needle@, 0));
        }
        return true;
    }
    let hay_len = hay.len();
    let last = hay_len - needle.len();
    let mut i: usize = 0;
    loop
        invariant
            i <= last + 1,
            last == hay@.len() - needle@.len(),
            0 < needle@.len() <= hay@.len(),
            hay@.len() == hay_len,
            forall|at: int| 0 <= at < i ==> !matches_at_chars(hay@, needle@, at),
        decreases last + 1 - i,
    {
        if i > last {
            proof {
                assert(forall|at: int| matches_at_chars(hay@, needle@, at) ==> 0 <= at <= last);
            }
            return false;
        }
        if check_match_at_chars(hay, needle, i) {
            return true;
        }
        i = i + 1;
    }
}

/// Prefix test over characters.
pub fn starts_with_chars(s: &[char], pre: &[char]) -> (r: bool)
    ensures
        r == starts_with_chars_seq(s@, pre@),
{
    if pre.len() > s.len() {
        return false;
    }
    check_match_at_chars(s, pre, 0)
}

/// Suffix test over characters.
pub fn ends_with_chars(s: &[char], suf: &[char]) -> (r: bool)
    ensures
        r == ends_with_chars_seq(s@, suf@),
{
    if suf.len() > s.len() {
        return false;
    }
    let at = s.len() - suf.len();
    let r = check_match_at_chars(s, suf, at);
    proof {
        assert(matches_at_chars(s@, suf@, at as int) == ends_with_chars_seq(s@, suf@));
    }
    r
}

/// The position just after the last occurrence of any of `/` and `\` in `s`,
/// or 0 when neither occurs: where the final path component starts.
pub open spec fn spec_component_start(s: Seq<char>) -> int
    decreases s.len(),
{
    if s.len() == 0 {
        0
    } else if s[s.len() - 1] == '/' || s[s.len() - 1] == '\\' {
        s.len() as int
    } else {
        spec_component_start(s.drop_last())
    }
}

/// The final path component of `s` (everything after the last separator).
pub open spec fn spec_file_name(s: Seq<char>) -> Seq<char> {
    s.subrange(spec_component_start(s), s.len() as int)
}

/// The start of the final component lies within the sequence.
pub proof fn lemma_component_start_bounds(s: Seq<char>)
    ensures
        0 <= spec_component_start(s) <= s.len(),
    decreases s.len(),
{
    if s.len() > 0 && !(s[s.len() - 1] == '/' || s[s.len() - 1] == '\\') {
        lemma_component_start_bounds(s.drop_last());
    }
}

/// Find where the final path component starts.
pub fn component_start(s: &[char]) -> (r: usize)
    ensures
        r == spec_component_start(s@),
        r <= s@.len(),
{
    proof {
        lemma_component_start_bounds(s@);
        assert(s@.take(s@.len() as int) =~= s@);
    }
    let mut i: usize = s.len();
    while i > 0
        invariant
            i <= s@.len(),
            spec_component_start(s@) == spec_component_start(s@.take(i as int)),
        decreases i,
    {
        let c = s[i - 1];
        if c == '/' || c == '\\' {
            proof {
                assert(s@.take(i as int)[i - 1] == s@[i - 1]);
                assert(spec_component_start(s@.take(i as int)) == i);
            }
            return i;
        }
        proof {
            assert(s@.take(i as int).drop_last() =~= s@.take(i - 1));
            assert(s@.take(i as int)[i - 1] == s@[i - 1]);
        }
        i = i - 1;
    }
    proof {
        assert(s@.take(0) =~= Seq::<char>::empty());
    }
    0
}

/// The final path component of a path.
pub fn file_name_of(s: &[char]) -> (r: Vec<char>)
    ensures
        r@ == spec_file_name(s@),
{
    let start = component_start(s);
    let mut r: Vec<char> = Vec::new();
    proof {
        assert(r@ =~= s@.subrange(start as int, start as int));
    }
    let mut i: usize = start;
    while i < s.len()
        invariant
            start <= i <= s@.len(),
            start == spec_component_start(s@),
            r@ == s@.subrange(start as int, i as int),
        decreases s@.len() - i,
    {
        r.push(s[i]);
        proof {
            assert(s@.subrange(start as int, i + 1) =~= s@.subrange(start as int, i as int).push(
                s@[i as int],
            ));
        }
        i = i + 1;
    }
    r
}



/// `needle` occurs in `hay` starting at position `at`.
pub open spec fn matches_at(hay: Seq<u8>, needle: Seq<u8>, at: int) -> bool {
    &&& 0 <= at
    &&& at + needle.len() <= hay.len()
    &&& hay.subrange(at, at + needle.len()) == needle
}


/// `pre` is a prefix of `s`.
pub open spec fn starts_with_seq(s: Seq<u8>, pre: Seq<u8>) -> bool {
    pre.len() <= s.len() && s.subrange(0, pre.len() as int) == pre
}



/// Does `needle` occur at position `at` of `hay`?
fn check_match_at(hay: &[u8], needle: &[u8], at: usize) -> (r: bool)
    requires
        at + needle@.len() <= hay@.len(),
    ensures
        r == matches_at(hay@, needle@, at as int),
{
    let hay_len = hay.len();
    let mut j: usize = 0;
    while j < needle.len()
        invariant
            j <= needle@.len(),
            at + needle@.len() <= hay@.len(),
            hay@.len() == hay_len,
            forall|k: int| 0 <= k < j ==> hay@[at + k] == needle@[k],
        decreases needle@.len() - j,
    {
        if hay[at + j] != needle[j] {
            proof {
                assert(hay@[at + j] != needle@[j as int]);
                assert(hay@.subrange(at as int, at + needle@.len())[j as int] == hay@[at + j]);
            }
            return false;
        }
        j = j + 1;
    }
    proof {
        assert(hay@.subrange(at as int, at + needle@.len()) =~= needle@);
    }
    true
}


/// Prefix test.
pub fn starts_with_bytes(s: &[u8], pre: &[u8]) -> (r: bool)
    ensures
        r == starts_with_seq(s@, pre@),
{
    if pre.len() > s.len() {
        return false;
    }
    check_match_at(s, pre, 0)
}


} // verus!
