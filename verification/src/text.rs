//! Character-level helpers shared by the classifier, the signer and the
//! JSON codec: prefix and substring tests over `Seq<char>`, with executable
//! counterparts.

use vstd::prelude::*;

verus! {

/// Relies on std's `String::push`: appends exactly the given character.
pub assume_specification[ String::push ](s: &mut String, c: char)
    ensures
        final(s)@ == old(s)@.push(c),
;

/// `p` is an initial segment of `s`.
pub open spec fn spec_has_prefix(s: Seq<char>, p: Seq<char>) -> bool {
    p.len() <= s.len() && s.take(p.len() as int) == p
}

/// `needle` occurs contiguously somewhere in `s`.
pub open spec fn spec_contains_seq(s: Seq<char>, needle: Seq<char>) -> bool {
    exists|i: int|
        0 <= i && i + needle.len() <= s.len() && #[trigger] s.subrange(i, i + needle.len() as int)
            == needle
}

/// Collect the characters of a string slice into a vector for O(1) indexing.
pub fn chars_vec(s: &str) -> (v: Vec<char>)
    ensures
        v@ == s@,
{
    let n = s.unicode_len();
    let mut v: Vec<char> = Vec::new();
    for i in 0..n
        invariant
            n == s@.len(),
            v@ =~= s@.take(i as int),
    {
        v.push(s.get_char(i));
    }
    assert(v@ =~= s@);
    v
}

/// Whether the needle occurs at position `i` of `s`.
fn matches_at(s: &Vec<char>, needle: &Vec<char>, i: usize) -> (b: bool)
    requires
        i + needle@.len() <= s@.len(),
    ensures
        b == (s@.subrange(i as int, i + needle@.len() as int) == needle@),
{
    let m = needle.len();
    let slen = s.len();
    for k in 0..m
        invariant
            slen == s@.len(),
            i + m <= slen,
            m == needle@.len(),
            forall|q: int| 0 <= q < k ==> s@[i + q] == needle@[q],
    {
        if s[i + k] != needle[k] {
            assert(s@.subrange(i as int, i + needle@.len() as int)[k as int] != needle@[k as int]);
            return false;
        }
    }
    assert(s@.subrange(i as int, i + needle@.len() as int) =~= needle@);
    true
}

/// Executable prefix test matching `spec_has_prefix`.
pub fn str_has_prefix(s: &str, p: &str) -> (b: bool)
    ensures
        b == spec_has_prefix(s@, p@),
{
    let sv = chars_vec(s);
    let pv = chars_vec(p);
    if pv.len() > sv.len() {
        return false;
    }
    let r = matches_at(&sv, &pv, 0);
    assert(s@.subrange(0, p@.len() as int) =~= s@.take(p@.len() as int));
    r
}

/// Executable substring search matching `spec_contains_seq`.
pub fn str_contains(s: &str, needle: &str) -> (b: bool)
    ensures
        b == spec_contains_seq(s@, needle@),
{
    let sv = chars_vec(s);
    let nv = chars_vec(needle);
    if nv.len() > sv.len() {
        assert(!spec_contains_seq(s@, needle@));
        return false;
    }
    let last = sv.len() - nv.len();
    let mut i: usize = 0;
    loop
        invariant
            sv@ == s@,
            nv@ == needle@,
            nv@.len() <= sv@.len(),
            last == sv@.len() - nv@.len(),
            i <= last,
            forall|q: int|
                0 <= q < i ==> #[trigger] s@.subrange(q, q + needle@.len() as int) != needle@,
        ensures
            forall|q: int|
                0 <= q <= last ==> #[trigger] s@.subrange(q, q + needle@.len() as int) != needle@,
        decreases last - i,
    {
        if matches_at(&sv, &nv, i) {
            return true;
        }
        if i == last {
            break;
        }
        i += 1;
    }
    false
}

} // verus!
