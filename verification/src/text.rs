//! Small verified helpers over strings, stated on their character
//! sequences.

use vstd::prelude::*;
use vstd::string::StrSliceExecFns;

verus! {

/// Whether two strings hold the same characters.
pub fn str_eq(a: &str, b: &str) -> (r: bool)
    ensures
        r == (a@ == b@),
{
    let alen = a.unicode_len();
    let blen = b.unicode_len();
    if alen != blen {
        return false;
    }
    for i in 0..alen
        invariant
            alen == a@.len(),
            alen == b@.len(),
            forall|j: int| 0 <= j < i ==> a@[j] == b@[j],
    {
        if a.get_char(i) != b.get_char(i) {
            return false;
        }
    }
    proof {
        assert(a@ =~= b@);
    }
    true
}

/// Whether the string holds the character anywhere.
pub fn contains_char(s: &str, c: char) -> (r: bool)
    ensures
        r == s@.contains(c),
{
    let len = s.unicode_len();
    for i in 0..len
        invariant
            len == s@.len(),
            forall|j: int| 0 <= j < i ==> a_char_at(s@, j) != c,
    {
        if s.get_char(i) == c {
            assert(s@[i as int] == c);
            return true;
        }
    }
    proof {
        if s@.contains(c) {
            let w = choose|w: int| 0 <= w < s@.len() && s@[w] == c;
            assert(a_char_at(s@, w) == c);
        }
    }
    false
}

/// The character of `s` at `i`; a trigger-friendly alias for indexing.
pub open spec fn a_char_at(s: Seq<char>, i: int) -> char {
    s[i]
}

/// Whether `s` begins with the characters of `p`.
pub fn starts_with_str(s: &str, p: &str) -> (r: bool)
    ensures
        r == (s@.len() >= p@.len() && s@.subrange(0, p@.len() as int) == p@),
{
    let slen = s.unicode_len();
    let plen = p.unicode_len();
    if slen < plen {
        return false;
    }
    for i in 0..plen
        invariant
            slen == s@.len(),
            plen == p@.len(),
            plen <= slen,
            forall|j: int| 0 <= j < i ==> s@[j] == p@[j],
    {
        if s.get_char(i) != p.get_char(i) {
            assert(s@[i as int] != p@[i as int]);
            assert(s@.subrange(0, p@.len() as int)[i as int] != p@[i as int]);
            return false;
        }
    }
    proof {
        assert(s@.subrange(0, p@.len() as int) =~= p@);
    }
    true
}

/// Whether `s` ends with the characters of `p`.
pub fn ends_with_str(s: &str, p: &str) -> (r: bool)
    ensures
        r == (s@.len() >= p@.len() && s@.subrange(
            s@.len() - p@.len(),
            s@.len() as int,
        ) == p@),
{
    let slen = s.unicode_len();
    let plen = p.unicode_len();
    if slen < plen {
        return false;
    }
    let base = slen - plen;
    for i in 0..plen
        invariant
            slen == s@.len(),
            plen == p@.len(),
            base == slen - plen,
            forall|j: int| 0 <= j < i ==> s@[base + j] == p@[j],
    {
        if s.get_char(base + i) != p.get_char(i) {
            assert(s@[base + i] != p@[i as int]);
            assert(s@.subrange(s@.len() - p@.len(), s@.len() as int)[i as int] != p@[
                i as int
            ]);
            return false;
        }
    }
    proof {
        assert(s@.subrange(s@.len() - p@.len(), s@.len() as int) =~= p@);
    }
    true
}

} // verus!
