//! Searching a byte string for another, and the ASCII literals searched for.

use vstd::prelude::*;
use vstd::slice::slice_subrange;

verus! {

/// The bytes of an ASCII text.
pub open spec fn ascii(text: Seq<char>) -> Seq<u8> {
    Seq::new(text.len(), |i: int| text[i] as u8)
}

/// Whether `needle` stands in `haystack` at index `at`.
pub open spec fn occurs_at(haystack: Seq<u8>, needle: Seq<u8>, at: int) -> bool {
    &&& 0 <= at
    &&& at + needle.len() <= haystack.len()
    &&& haystack.subrange(at, at + needle.len()) == needle
}

/// Whether `needle` stands anywhere in `haystack`.
pub open spec fn occurs(haystack: Seq<u8>, needle: Seq<u8>) -> bool {
    exists|at: int| occurs_at(haystack, needle, at)
}

/// Whether `at` is the first index at which `needle` stands in `haystack`.
pub open spec fn first_occurrence(haystack: Seq<u8>, needle: Seq<u8>, at: int) -> bool {
    &&& occurs_at(haystack, needle, at)
    &&& forall|earlier: int| 0 <= earlier < at ==> !occurs_at(haystack, needle, earlier)
}

/// There is one first occurrence at most.
pub proof fn lemma_first_occurrence_is_unique(
    haystack: Seq<u8>,
    needle: Seq<u8>,
    one: int,
    other: int,
)
    requires
        first_occurrence(haystack, needle, one),
        first_occurrence(haystack, needle, other),
    ensures
        one == other,
{
    if one < other {
        assert(!occurs_at(haystack, needle, one));
    }
    if other < one {
        assert(!occurs_at(haystack, needle, other));
    }
}

/// Whether `text` begins with `prefix`.
pub open spec fn starts_with(text: Seq<u8>, prefix: Seq<u8>) -> bool {
    occurs_at(text, prefix, 0)
}

/// Whether `text` ends with `suffix`.
pub open spec fn ends_with(text: Seq<u8>, suffix: Seq<u8>) -> bool {
    occurs_at(text, suffix, text.len() - suffix.len())
}

/// The bytes of an ASCII string literal.
pub(crate) fn literal(text: &'static str) -> (bytes: &'static [u8])
    requires
        vstd::string::is_ascii(text),
    ensures
        bytes@ == ascii(text@),
{
    proof {
        vstd::string::is_ascii_spec_bytes(text);
    }
    text.as_bytes()
}

/// Whether two byte strings are the same.
pub fn same_bytes(left: &[u8], right: &[u8]) -> (same: bool)
    ensures
        same == (left@ == right@),
{
    if left.len() != right.len() {
        return false;
    }
    let mut i: usize = 0;
    while i < left.len()
        invariant
            left.len() == right.len(),
            i <= left.len(),
            forall|j: int| 0 <= j < i ==> left@[j] == right@[j],
        decreases left.len() - i,
    {
        if left[i] != right[i] {
            return false;
        }
        i += 1;
    }
    assert(left@ =~= right@);
    true
}

/// Whether `needle` stands in `haystack` at index `at`.
pub fn matches_at(haystack: &[u8], needle: &[u8], at: usize) -> (found: bool)
    ensures
        found == occurs_at(haystack@, needle@, at as int),
{
    if needle.len() > haystack.len() || at > haystack.len() - needle.len() {
        return false;
    }
    same_bytes(slice_subrange(haystack, at, at + needle.len()), needle)
}

/// Whether `text` begins with `prefix`.
pub fn has_prefix(text: &[u8], prefix: &[u8]) -> (found: bool)
    ensures
        found == starts_with(text@, prefix@),
{
    matches_at(text, prefix, 0)
}

/// Whether `text` ends with `suffix`.
pub fn has_suffix(text: &[u8], suffix: &[u8]) -> (found: bool)
    ensures
        found == ends_with(text@, suffix@),
{
    if suffix.len() > text.len() {
        return false;
    }
    matches_at(text, suffix, text.len() - suffix.len())
}

/// Whether `needle` stands anywhere in `haystack`. Meant for short texts:
/// it tries every index in turn.
pub fn contains_bytes(haystack: &[u8], needle: &[u8]) -> (found: bool)
    ensures
        found == occurs(haystack@, needle@),
{
    if needle.len() > haystack.len() {
        return false;
    }
    let last = haystack.len() - needle.len();
    let mut at: usize = 0;
    while at < last
        invariant
            last == haystack.len() - needle.len(),
            needle.len() <= haystack.len(),
            at <= last,
            forall|earlier: int| 0 <= earlier < at ==> !occurs_at(haystack@, needle@, earlier),
        decreases last - at,
    {
        if matches_at(haystack, needle, at) {
            return true;
        }
        at += 1;
    }
    matches_at(haystack, needle, last)
}

/// Calls `memchr::memmem::find`.
/// Trusted: it returns the index of the first occurrence of the needle in
/// the haystack, and nothing where the needle does not occur.
#[verifier::external_body]
pub(crate) fn find_bytes(haystack: &[u8], needle: &[u8]) -> (found: Option<usize>)
    ensures
        match found {
            Some(at) => first_occurrence(haystack@, needle@, at as int),
            None => !occurs(haystack@, needle@),
        },
{
    memchr::memmem::find(haystack, needle)
}

} // verus!
