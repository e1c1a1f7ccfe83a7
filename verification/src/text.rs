//! Character-sequence functions shared by the path resolver and the filter:
//! suffix tests, substring search, last-separator search and the
//! slash-to-dot rewriting that turns a relative directory into a namespace.

use vstd::prelude::*;

verus! {

/// True when `s` ends with `suffix`.
pub open spec fn ends_with(s: Seq<char>, suffix: Seq<char>) -> bool {
    s.len() >= suffix.len() && s.subrange(s.len() - suffix.len(), s.len() as int) == suffix
}

/// True when `needle` occurs in `hay` starting at position `i`.
pub open spec fn contains_at(hay: Seq<char>, needle: Seq<char>, i: int) -> bool {
    0 <= i && i + needle.len() <= hay.len() && hay.subrange(i, i + needle.len()) == needle
}

/// The position of the first occurrence of `needle` in `hay` at or after `from`.
pub open spec fn first_match_from(hay: Seq<char>, needle: Seq<char>, from: int) -> Option<int>
    decreases hay.len() - from,
{
    if from < 0 || from + needle.len() > hay.len() {
        None
    } else if needle.len() == 0 || contains_at(hay, needle, from) {
        Some(from)
    } else {
        first_match_from(hay, needle, from + 1)
    }
}

/// The position of the first occurrence of `needle` in `hay`.
pub open spec fn first_match(hay: Seq<char>, needle: Seq<char>) -> Option<int> {
    first_match_from(hay, needle, 0)
}

/// The position of the last occurrence of the character `c` in `s`.
pub open spec fn last_index_of(s: Seq<char>, c: char) -> Option<int>
    decreases s.len(),
{
    if s.len() == 0 {
        None
    } else if s[s.len() - 1] == c {
        Some(s.len() - 1)
    } else {
        last_index_of(s.drop_last(), c)
    }
}

/// True when the character `c` occurs in `s`.
pub open spec fn contains_char(s: Seq<char>, c: char) -> bool {
    exists|i: int| 0 <= i < s.len() && s[i] == c
}

/// `s` with every '/' replaced by '.'.
pub open spec fn dotted_of(s: Seq<char>) -> Seq<char> {
    Seq::new(s.len(), |i: int| if s[i] == '/' { '.' } else { s[i] })
}

/// `s` without its leading '/', when it has one.
pub open spec fn strip_leading_slash(s: Seq<char>) -> Seq<char> {
    if s.len() > 0 && s[0] == '/' {
        s.subrange(1, s.len() as int)
    } else {
        s
    }
}

/// What `last_index_of` returns is the largest position holding `c`,
/// and `None` means `c` does not occur at all.
pub proof fn lemma_last_index_of(s: Seq<char>, c: char)
    ensures
        match last_index_of(s, c) {
            Some(i) => 0 <= i < s.len() && s[i] == c && (forall|j: int|
                i < j < s.len() ==> s[j] != c),
            None => forall|j: int| 0 <= j < s.len() ==> s[j] != c,
        },
    decreases s.len(),
{
    if s.len() == 0 {
    } else if s[s.len() - 1] == c {
    } else {
        let dl = s.drop_last();
        lemma_last_index_of(dl, c);
        assert(forall|j: int| 0 <= j < dl.len() ==> dl[j] == s[j]);
    }
}

proof fn lemma_first_match_from_props(hay: Seq<char>, needle: Seq<char>, from: int)
    requires
        0 <= from,
    ensures
        match first_match_from(hay, needle, from) {
            Some(i) => from <= i && contains_at(hay, needle, i),
            None => true,
        },
    decreases hay.len() - from + 1,
{
    if from + needle.len() > hay.len() {
    } else if needle.len() == 0 {
        assert(hay.subrange(from, from) =~= needle);
    } else if contains_at(hay, needle, from) {
    } else {
        lemma_first_match_from_props(hay, needle, from + 1);
    }
}

/// When `first_match` finds a position, `needle` indeed occurs there.
pub proof fn lemma_first_match_props(hay: Seq<char>, needle: Seq<char>)
    ensures
        match first_match(hay, needle) {
            Some(i) => 0 <= i && i + needle.len() <= hay.len() && contains_at(hay, needle, i),
            None => true,
        },
{
    lemma_first_match_from_props(hay, needle, 0);
}

/// Whether `needle` occurs in `hay` at position `i`.
fn match_at(hay: &str, needle: &str, i: usize) -> (r: bool)
    requires
        i + needle@.len() <= hay@.len(),
    ensures
        r == contains_at(hay@, needle@, i as int),
{
    let hay_len = hay.unicode_len();
    let nn = needle.unicode_len();
    let mut j: usize = 0;
    while j < nn
        invariant
            hay_len == hay@.len(),
            nn == needle@.len(),
            i + nn <= hay_len,
            j <= nn,
            forall|k: int| 0 <= k < j ==> hay@[i + k] == needle@[k],
        decreases nn - j,
    {
        if hay.get_char(i + j) != needle.get_char(j) {
            proof {
                assert(hay@.subrange(i as int, i + nn)[j as int] == hay@[i + j]);
            }
            return false;
        }
        j += 1;
    }
    proof {
        assert(hay@.subrange(i as int, i + nn) =~= needle@);
    }
    true
}

/// The position of the first occurrence of `needle` in `hay`, executably.
pub fn find_first(hay: &str, needle: &str) -> (r: Option<usize>)
    ensures
        match r {
            Some(i) => first_match(hay@, needle@) == Some(i as int),
            None => first_match(hay@, needle@) is None,
        },
{
    let hn = hay.unicode_len();
    let nn = needle.unicode_len();
    if nn > hn {
        return None;
    }
    let mut i: usize = 0;
    while i <= hn - nn
        invariant
            hn == hay@.len(),
            nn == needle@.len(),
            nn <= hn,
            i <= hn - nn + 1,
            first_match(hay@, needle@) == first_match_from(hay@, needle@, i as int),
        decreases hn - nn - i + 1,
    {
        if match_at(hay, needle, i) {
            return Some(i);
        }
        proof {
            if nn == 0 {
                assert(hay@.subrange(i as int, i as int) =~= needle@);
            }
            assert(first_match_from(hay@, needle@, i as int) == first_match_from(
                hay@,
                needle@,
                i + 1,
            ));
        }
        i += 1;
    }
    None
}

/// The position of the last '/' in `s`, executably.
pub fn find_last_slash(s: &str) -> (r: Option<usize>)
    ensures
        match r {
            Some(i) => last_index_of(s@, '/') == Some(i as int),
            None => last_index_of(s@, '/') is None,
        },
{
    let n = s.unicode_len();
    proof {
        assert(s@.subrange(0, n as int) =~= s@);
    }
    let mut i: usize = n;
    while i > 0
        invariant
            n == s@.len(),
            i <= n,
            last_index_of(s@, '/') == last_index_of(s@.subrange(0, i as int), '/'),
        decreases i,
    {
        if s.get_char(i - 1) == '/' {
            proof {
                assert(s@.subrange(0, i as int)[i - 1] == s@[i - 1]);
            }
            return Some(i - 1);
        }
        proof {
            assert(s@.subrange(0, i as int)[i - 1] == s@[i - 1]);
            assert(s@.subrange(0, i as int).drop_last() =~= s@.subrange(0, i - 1));
        }
        i -= 1;
    }
    proof {
        assert(s@.subrange(0, 0) =~= Seq::<char>::empty());
    }
    None
}

/// Whether the character `c` occurs in `s`, executably.
pub fn str_contains_char(s: &str, c: char) -> (r: bool)
    ensures
        r == contains_char(s@, c),
{
    let n = s.unicode_len();
    let mut i: usize = 0;
    while i < n
        invariant
            n == s@.len(),
            i <= n,
            forall|k: int| 0 <= k < i ==> s@[k] != c,
        decreases n - i,
    {
        if s.get_char(i) == c {
            return true;
        }
        i += 1;
    }
    false
}

/// `s` with every '/' replaced by '.', executably.
pub fn to_dotted(s: &str) -> (r: String)
    ensures
        r@ == dotted_of(s@),
{
    let n = s.unicode_len();
    let mut out = String::new();
    let mut i: usize = 0;
    while i < n
        invariant
            n == s@.len(),
            i <= n,
            out@ == dotted_of(s@).subrange(0, i as int),
        decreases n - i,
    {
        let c = s.get_char(i);
        if c == '/' {
            out.append(".");
        } else {
            let piece = s.substring_char(i, i + 1);
            out.append(piece);
        }
        proof {
            reveal_strlit(".");
            assert(out@ =~= dotted_of(s@).subrange(0, i + 1));
        }
        i += 1;
    }
    proof {
        assert(dotted_of(s@).subrange(0, n as int) =~= dotted_of(s@));
    }
    out
}

/// Whether `s` ends with the compiled-unit suffix ".class", executably.
pub fn has_class_suffix(s: &str) -> (r: bool)
    ensures
        r == ends_with(s@, ".class"@),
{
    proof {
        reveal_strlit(".class");
    }
    let n = s.unicode_len();
    if n < 6 {
        return false;
    }
    match_at(s, ".class", n - 6)
}

/// `s` with the compiled-unit suffix removed, when it carries one.
pub open spec fn strip_class_suffix(s: Seq<char>) -> Seq<char> {
    if ends_with(s, ".class"@) {
        s.subrange(0, s.len() - ".class"@.len())
    } else {
        s
    }
}

/// `s` with the compiled-unit suffix removed, executably.
pub fn strip_class_suffix_exec(s: &str) -> (r: String)
    ensures
        r@ == strip_class_suffix(s@),
{
    proof {
        reveal_strlit(".class");
    }
    if has_class_suffix(s) {
        let n = s.unicode_len();
        let stem = s.substring_char(0, n - 6);
        stem.to_owned()
    } else {
        s.to_owned()
    }
}

} // verus!
