//! Character-level helpers shared by the path, template and option logic.
//!
//! Strings are reasoned about through their view, a `Seq<char>`. Executable
//! code first turns a string into a `Vec<char>` so that it can index it.

use vstd::prelude::*;

verus! {

/// `needle` occurs in `s` starting at index `i`.
pub open spec fn occurs_at(s: Seq<char>, needle: Seq<char>, i: int) -> bool {
    &&& 0 <= i
    &&& i + needle.len() <= s.len()
    &&& s.subrange(i, i + needle.len()) == needle
}

/// `needle` occurs somewhere in `s`.
pub open spec fn occurs_in(s: Seq<char>, needle: Seq<char>) -> bool {
    exists|i: int| occurs_at(s, needle, i)
}

/// What occurs in a text occurs in every text that ends with it.
pub proof fn lemma_occurs_in_the_end(head: Seq<char>, tail: Seq<char>, needle: Seq<char>)
    requires
        occurs_in(tail, needle),
    ensures
        occurs_in(head + tail, needle),
{
    let i = choose|i: int| occurs_at(tail, needle, i);
    let at = head.len() + i;
    assert((head + tail).subrange(at, at + needle.len()) =~= tail.subrange(i, i + needle.len()));
    assert(occurs_at(head + tail, needle, at));
}

/// A text occurs in every text that begins with it.
pub proof fn lemma_occurs_in_the_beginning(head: Seq<char>, tail: Seq<char>)
    ensures
        occurs_in(head + tail, head),
{
    assert((head + tail).subrange(0, head.len() as int) =~= head);
    assert(occurs_at(head + tail, head, 0));
}

/// The characters of `s`, in order, as an indexable vector.
pub fn chars_of(s: &str) -> (v: Vec<char>)
    ensures
        v@ == s@,
{
    broadcast use vstd::string::group_string_axioms;

    let mut v: Vec<char> = Vec::new();
    let chars = s.chars();
    for c in it: chars
        invariant
            it.seq() == s@,
            v@ == it.history(),
    {
        v.push(c);
    }
    v
}

/// Whether `s` holds `needle` at index `at`.
pub fn matches_at(s: &Vec<char>, needle: &Vec<char>, at: usize) -> (found: bool)
    ensures
        found == occurs_at(s@, needle@, at as int),
{
    if needle.len() > s.len() || at > s.len() - needle.len() {
        return false;
    }
    let mut k: usize = 0;
    while k < needle.len()
        invariant
            k <= needle.len(),
            at + needle.len() <= s.len(),
            forall|j: int| 0 <= j < k ==> s@[at + j] == needle@[j],
        decreases needle.len() - k,
    {
        if s[at + k] != needle[k] {
            assert(s@.subrange(at as int, at + needle@.len())[k as int] != needle@[k as int]);
            return false;
        }
        k += 1;
    }
    assert(s@.subrange(at as int, at + needle@.len()) =~= needle@);
    true
}

/// Whether two sequences of characters are the same.
pub fn same_chars(a: &Vec<char>, b: &Vec<char>) -> (same: bool)
    ensures
        same == (a@ == b@),
{
    if a.len() != b.len() {
        return false;
    }
    let found = matches_at(a, b, 0);
    proof {
        if found {
            assert(a@.subrange(0, b@.len() as int) =~= a@);
        } else {
            assert(a@ == b@ ==> a@.subrange(0, b@.len() as int) =~= b@);
        }
    }
    found
}

/// Whether two strings hold the same text.
pub fn same_text(a: &str, b: &str) -> (same: bool)
    ensures
        same == (a@ == b@),
{
    let av = chars_of(a);
    let bv = chars_of(b);
    same_chars(&av, &bv)
}

/// Whether `s` begins with `prefix`.
pub fn has_prefix(s: &Vec<char>, prefix: &Vec<char>) -> (found: bool)
    ensures
        found == prefix@.is_prefix_of(s@),
{
    matches_at(s, prefix, 0)
}

/// Whether `s` ends with `suffix`.
pub fn has_suffix(s: &Vec<char>, suffix: &Vec<char>) -> (found: bool)
    ensures
        found == suffix@.is_suffix_of(s@),
{
    if suffix.len() > s.len() {
        return false;
    }
    matches_at(s, suffix, s.len() - suffix.len())
}

/// The text of `a` followed by the text of `b`.
pub fn followed_by(a: &str, b: &str) -> (joined: String)
    ensures
        joined@ == a@ + b@,
{
    let mut joined = a.to_owned();
    joined.append(b);
    joined
}

/// The characters of `s` from index `from` up to, not including, index `to`.
pub(crate) fn slice_of(s: &str, from: usize, to: usize) -> (part: String)
    requires
        from <= to <= s@.len(),
    ensures
        part@ == s@.subrange(from as int, to as int),
{
    s.substring_char(from, to).to_owned()
}

} // verus!
