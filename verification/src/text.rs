//! Character-level string helpers shared by the other modules.

use vstd::prelude::*;

verus! {

/// `String::push`: appends one character.
#[verifier::external_body]
pub(crate) fn push_char(s: &mut String, c: char)
    ensures
        final(s)@ == old(s)@.push(c),
{
    s.push(c)
}

/// The characters of a string slice, in order.
pub(crate) fn chars_of(s: &str) -> (r: Vec<char>)
    ensures
        r@ == s@,
{
    let mut r: Vec<char> = Vec::new();
    let n = s.unicode_len();
    let mut i: usize = 0;
    while i < n
        invariant
            n == s@.len(),
            i <= n,
            r@ == s@.take(i as int),
        decreases n - i,
    {
        let c = s.get_char(i);
        r.push(c);
        assert(s@.take(i as int).push(c) =~= s@.take(i as int + 1));
        i = i + 1;
    }
    assert(s@.take(n as int) =~= s@);
    r
}

/// A string holding exactly the given characters.
pub(crate) fn string_of(cs: &Vec<char>) -> (r: String)
    ensures
        r@ == cs@,
{
    let mut r = String::new();
    let mut i: usize = 0;
    while i < cs.len()
        invariant
            i <= cs.len(),
            r@ == cs@.take(i as int),
        decreases cs.len() - i,
    {
        push_char(&mut r, cs[i]);
        assert(cs@.take(i as int).push(cs@[i as int]) =~= cs@.take(i as int + 1));
        i = i + 1;
    }
    assert(cs@.take(cs.len() as int) =~= cs@);
    r
}

/// A copy of a string slice.
pub(crate) fn owned(s: &str) -> (r: String)
    ensures
        r@ == s@,
{
    String::from_str(s)
}

/// Whether two string slices hold the same characters.
pub(crate) fn same_text(a: &str, b: &str) -> (r: bool)
    ensures
        r == (a@ == b@),
{
    let x = owned(a);
    let y = owned(b);
    x == y
}

/// Whether `needle` occurs in `hay` starting at position `at`.
pub open spec fn occurs_at(hay: Seq<char>, needle: Seq<char>, at: int) -> bool {
    0 <= at && at + needle.len() <= hay.len() && hay.subrange(at, at + needle.len()) == needle
}

/// Whether `needle` occurs anywhere in `hay`.
pub open spec fn has_substring(hay: Seq<char>, needle: Seq<char>) -> bool {
    exists|at: int| occurs_at(hay, needle, at)
}

/// Searches `needle` in `hay`.
pub(crate) fn contains_text(hay: &Vec<char>, needle: &str) -> (r: bool)
    ensures
        r == has_substring(hay@, needle@),
{
    let nd = chars_of(needle);
    let n = hay.len();
    let m = nd.len();
    if m > n {
        assert forall|at: int| !occurs_at(hay@, needle@, at) by {}
        return false;
    }
    if m == 0 {
        assert(hay@.subrange(0, 0) =~= needle@);
        assert(occurs_at(hay@, needle@, 0));
        return true;
    }
    let mut at: usize = 0;
    while at <= n - m
        invariant
            n == hay@.len(),
            m == nd@.len(),
            nd@ == needle@,
            0 < m <= n,
            at <= n - m + 1,
            forall|k: int| 0 <= k < at ==> !occurs_at(hay@, needle@, k),
        decreases n - m + 1 - at,
    {
        let mut j: usize = 0;
        let mut ok = true;
        while j < m
            invariant
                n == hay@.len(),
                m == nd@.len(),
                at + m <= n,
                j <= m,
                ok ==> forall|q: int| 0 <= q < j ==> hay@[at + q] == nd@[q],
                !ok ==> hay@.subrange(at as int, at + m) != nd@,
            decreases m - j,
        {
            if hay[at + j] != nd[j] {
                if ok {
                    assert(hay@.subrange(at as int, at + m)[j as int] != nd@[j as int]);
                }
                ok = false;
            }
            j = j + 1;
        }
        if ok {
            assert(hay@.subrange(at as int, at + m) =~= nd@);
            assert(occurs_at(hay@, needle@, at as int));
            return true;
        }
        at = at + 1;
    }
    assert forall|k: int| !occurs_at(hay@, needle@, k) by {
        if 0 <= k && k + m <= n {
            assert(k < at);
        }
    }
    false
}

} // verus!
