//! Substring and suffix tests on character sequences.

use vstd::prelude::*;

verus! {

/// `pat` occurs in `text` starting at position `at`.
pub open spec fn occurs_at(text: Seq<char>, pat: Seq<char>, at: int) -> bool {
    &&& 0 <= at
    &&& at + pat.len() <= text.len()
    &&& text.subrange(at, at + pat.len()) == pat
}

/// `pat` occurs somewhere in `text` as a contiguous run of characters.
pub open spec fn has_substring(text: Seq<char>, pat: Seq<char>) -> bool {
    exists|at: int| occurs_at(text, pat, at)
}

/// `text` ends with `pat`.
pub open spec fn has_suffix(text: Seq<char>, pat: Seq<char>) -> bool {
    occurs_at(text, pat, text.len() - pat.len())
}

/// The characters of a string slice, in order.
pub fn chars_of(s: &str) -> (out: Vec<char>)
    ensures
        out@ == s@,
{
    let mut out: Vec<char> = Vec::new();
    for c in it: s.chars()
        invariant
            it.seq() == s@,
            out@ == it.seq().take(it.index() as int),
    {
        out.push(c);
    }
    out
}

/// Whether `pat` stands in `text` at position `at`.
fn matches_at(text: &Vec<char>, pat: &Vec<char>, at: usize) -> (found: bool)
    requires
        at + pat.len() <= text.len(),
    ensures
        found == occurs_at(text@, pat@, at as int),
{
    let mut j: usize = 0;
    while j < pat.len()
        invariant
            j <= pat.len(),
            at + pat.len() <= text.len(),
            forall|k: int| 0 <= k < j ==> text@[at + k] == pat@[k],
        decreases pat.len() - j,
    {
        if text[at + j] != pat[j] {
            assert(text@.subrange(at as int, at + pat.len())[j as int] == text@[at + j]);
            return false;
        }
        j += 1;
    }
    assert(text@.subrange(at as int, at + pat.len()) =~= pat@);
    true
}

/// Whether `pat` occurs in `text`, both given as characters.
pub fn contains_chars(text: &Vec<char>, pat: &Vec<char>) -> (found: bool)
    ensures
        found == has_substring(text@, pat@),
{
    if pat.len() > text.len() {
        return false;
    }
    let last: usize = text.len() - pat.len();
    let mut at: usize = 0;
    while at < last
        invariant
            at <= last,
            last == text.len() - pat.len(),
            forall|k: int| 0 <= k < at ==> !occurs_at(text@, pat@, k),
        decreases last - at,
    {
        if matches_at(text, pat, at) {
            return true;
        }
        at += 1;
    }
    matches_at(text, pat, last)
}

/// Whether `text` ends with `pat`, both given as characters.
pub fn ends_with_chars(text: &Vec<char>, pat: &Vec<char>) -> (found: bool)
    ensures
        found == has_suffix(text@, pat@),
{
    if pat.len() > text.len() {
        return false;
    }
    matches_at(text, pat, text.len() - pat.len())
}

/// Whether the string `pat` occurs in the characters `text`.
pub fn mentions(text: &Vec<char>, pat: &str) -> (found: bool)
    ensures
        found == has_substring(text@, pat@),
{
    let p = chars_of(pat);
    contains_chars(text, &p)
}

/// Whether the characters `text` end with the string `pat`.
pub fn closes_with(text: &Vec<char>, pat: &str) -> (found: bool)
    ensures
        found == has_suffix(text@, pat@),
{
    let p = chars_of(pat);
    ends_with_chars(text, &p)
}

/// Whether two strings hold the same characters.
pub fn same_text(a: &str, b: &str) -> (same: bool)
    ensures
        same == (a@ == b@),
{
    let x = chars_of(a);
    let y = chars_of(b);
    if x.len() != y.len() {
        return false;
    }
    let mut i: usize = 0;
    while i < x.len()
        invariant
            i <= x.len(),
            x.len() == y.len(),
            x@ == a@,
            y@ == b@,
            forall|k: int| 0 <= k < i ==> x@[k] == y@[k],
        decreases x.len() - i,
    {
        if x[i] != y[i] {
            return false;
        }
        i += 1;
    }
    assert(x@ =~= y@);
    true
}

/// Whether `pat` occurs in `text`. Matching is exact: case and every
/// character count, and the empty pattern occurs in every text.
pub fn contains(text: &str, pat: &str) -> (found: bool)
    ensures
        found == has_substring(text@, pat@),
{
    let t = chars_of(text);
    let p = chars_of(pat);
    contains_chars(&t, &p)
}

/// Whether `text` ends with `pat`.
pub fn ends_with(text: &str, pat: &str) -> (found: bool)
    ensures
        found == has_suffix(text@, pat@),
{
    let t = chars_of(text);
    let p = chars_of(pat);
    ends_with_chars(&t, &p)
}

} // verus!
