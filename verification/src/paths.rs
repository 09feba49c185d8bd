//! File paths as byte strings: their components, read the way an operating
//! system reads them.
//!
//! A path is cut at its separators. The pieces between them that are not
//! empty and not `.` are its components; `..` is a component like any other
//! here, and it is up to the caller to treat it apart. Drive prefixes of
//! Windows are not told apart from other components.

use vstd::prelude::*;
use vstd::slice::slice_subrange;

verus! {

/// The operating system that the daemon runs on.
#[derive(Clone, Copy, Debug, PartialEq, Eq, Structural)]
pub enum Platform {
    Linux,
    MacOs,
    Windows,
}

/// Whether a byte separates the components of a path: the slash, and on
/// Windows the backslash too.
pub open spec fn is_separator(platform: Platform, byte: u8) -> bool {
    byte == 0x2f || (platform is Windows && byte == 0x5c)
}

/// Where the run of bytes without a separator that ends before `end` begins.
pub open spec fn segment_start(platform: Platform, text: Seq<u8>, end: int) -> int
    decreases end,
{
    if end <= 0 {
        0
    } else if is_separator(platform, text[end - 1]) {
        end
    } else {
        segment_start(platform, text, end - 1)
    }
}

/// The components that lie wholly before `end`, in order, each as the range
/// of its bytes.
pub open spec fn parts_before(platform: Platform, text: Seq<u8>, end: int) -> Seq<(int, int)>
    decreases end,
{
    if end <= 0 {
        Seq::empty()
    } else if is_separator(platform, text[end - 1]) {
        parts_before(platform, text, end - 1)
    } else {
        let start = segment_start(platform, text, end - 1);
        proof {
            lemma_segment_start_bounds(platform, text, end - 1);
        }
        if end - start == 1 && text[start] == 0x2e {
            parts_before(platform, text, start)
        } else {
            parts_before(platform, text, start).push((start, end))
        }
    }
}

/// A run of bytes begins at or before its end, and not before the text.
pub proof fn lemma_segment_start_bounds(platform: Platform, text: Seq<u8>, end: int)
    requires
        0 <= end,
    ensures
        0 <= segment_start(platform, text, end) <= end,
    decreases end,
{
    if end > 0 && !is_separator(platform, text[end - 1]) {
        lemma_segment_start_bounds(platform, text, end - 1);
    }
}

/// The components of a path, in order, each as the range of its bytes.
pub open spec fn parts(platform: Platform, text: Seq<u8>) -> Seq<(int, int)> {
    parts_before(platform, text, text.len() as int)
}

/// The components of a path, in order.
pub open spec fn names(platform: Platform, text: Seq<u8>) -> Seq<Seq<u8>> {
    Seq::new(
        parts(platform, text).len(),
        |i: int| text.subrange(parts(platform, text)[i].0, parts(platform, text)[i].1),
    )
}

/// Whether a component is `..`, the step to the parent directory.
pub open spec fn is_parent_step(name: Seq<u8>) -> bool {
    name.len() == 2 && name[0] == 0x2e && name[1] == 0x2e
}

/// The file name of a path: its last component, unless that is `..` or the
/// path has no component at all.
pub open spec fn file_name_of(platform: Platform, text: Seq<u8>) -> Option<Seq<u8>> {
    let all = names(platform, text);
    if all.len() > 0 && !is_parent_step(all.last()) {
        Some(all.last())
    } else {
        None
    }
}

/// The start of a run of bytes without a separator is never after its end.
proof fn lemma_segment_start(platform: Platform, text: Seq<u8>, end: int)
    requires
        0 <= end <= text.len(),
    ensures
        0 <= segment_start(platform, text, end) <= end,
        segment_start(platform, text, end) == 0 || is_separator(
            platform,
            text[segment_start(platform, text, end) - 1],
        ),
        forall|k: int|
            segment_start(platform, text, end) <= k < end ==> !is_separator(platform, text[k]),
    decreases end,
{
    if end > 0 && !is_separator(platform, text[end - 1]) {
        lemma_segment_start(platform, text, end - 1);
    }
}

/// A run of bytes without a separator that begins at the start of the text
/// or behind a separator begins where `segment_start` says.
proof fn lemma_segment_found(platform: Platform, text: Seq<u8>, start: int, end: int)
    requires
        0 <= start <= end <= text.len(),
        start == 0 || is_separator(platform, text[start - 1]),
        forall|k: int| start <= k < end ==> !is_separator(platform, text[k]),
    ensures
        segment_start(platform, text, end) == start,
    decreases end - start,
{
    if start < end {
        lemma_segment_found(platform, text, start, end - 1);
    }
}

/// Every component is a range of bytes without a separator, not empty and
/// not `.`, and the components follow one another.
pub proof fn lemma_parts(platform: Platform, text: Seq<u8>, end: int)
    requires
        0 <= end <= text.len(),
    ensures
        forall|i: int|
            0 <= i < parts_before(platform, text, end).len() ==> {
                let part = #[trigger] parts_before(platform, text, end)[i];
                &&& 0 <= part.0 < part.1 <= end
                &&& !(part.1 - part.0 == 1 && text[part.0] == 0x2e)
                &&& forall|k: int| part.0 <= k < part.1 ==> !is_separator(platform, text[k])
            },
        forall|i: int, j: int|
            0 <= i < j < parts_before(platform, text, end).len() ==> (#[trigger] parts_before(
                platform,
                text,
                end,
            )[i]).1 < (#[trigger] parts_before(platform, text, end)[j]).0,
    decreases end,
{
    if end > 0 {
        if is_separator(platform, text[end - 1]) {
            lemma_parts(platform, text, end - 1);
            assert(parts_before(platform, text, end) == parts_before(platform, text, end - 1));
        } else {
            let start = segment_start(platform, text, end - 1);
            lemma_segment_start(platform, text, end - 1);
            let before = parts_before(platform, text, start);
            if start > 0 {
                assert(before == parts_before(platform, text, start - 1));
                lemma_parts(platform, text, start - 1);
            }
            assert forall|i: int| 0 <= i < before.len() implies (#[trigger] before[i]).1
                < start by {}
            let all = parts_before(platform, text, end);
            if !(end - start == 1 && text[start] == 0x2e) {
                assert(all == before.push((start, end)));
                assert forall|i: int| 0 <= i < all.len() implies {
                    let part = #[trigger] all[i];
                    &&& 0 <= part.0 < part.1 <= end
                    &&& !(part.1 - part.0 == 1 && text[part.0] == 0x2e)
                    &&& forall|k: int| part.0 <= k < part.1 ==> !is_separator(platform, text[k])
                } by {
                    if i < before.len() {
                        assert(all[i] == before[i]);
                    }
                }
                assert forall|i: int, j: int| 0 <= i < j < all.len() implies (#[trigger] all[i]).1
                    < (#[trigger] all[j]).0 by {
                    assert(all[i] == before[i]);
                    if j < before.len() {
                        assert(all[j] == before[j]);
                    }
                }
            } else {
                assert(all == before);
            }
        }
    }
}

/// Whether these are the components of a path, in order, each as the range
/// of its bytes.
pub open spec fn are_parts(ranges: Seq<(usize, usize)>, platform: Platform, text: Seq<u8>) -> bool {
    &&& ranges.len() == parts(platform, text).len()
    &&& forall|i: int|
        0 <= i < ranges.len() ==> {
            &&& (#[trigger] ranges[i]).0 == parts(platform, text)[i].0
            &&& ranges[i].1 == parts(platform, text)[i].1
            &&& ranges[i].0 < ranges[i].1 <= text.len()
        }
}

/// The components of a path as ranges of its bytes.
pub fn split_path(platform: Platform, text: &[u8]) -> (ranges: Vec<(usize, usize)>)
    ensures
        are_parts(ranges@, platform, text@),
{
    let mut ranges: Vec<(usize, usize)> = Vec::new();
    let mut at: usize = 0;
    while at < text.len()
        invariant
            at <= text@.len(),
            at == 0 || at == text@.len() || is_separator(platform, text@[at - 1]) || is_separator(
                platform,
                text@[at as int],
            ),
            ranges@.len() == parts_before(platform, text@, at as int).len(),
            forall|i: int|
                0 <= i < ranges@.len() ==> (#[trigger] ranges@[i]).0 == parts_before(
                    platform,
                    text@,
                    at as int,
                )[i].0 && ranges@[i].1 == parts_before(platform, text@, at as int)[i].1,
        decreases text@.len() - at,
    {
        if is_path_separator(platform, text[at]) {
            at += 1;
        } else {
            let start = at;
            let mut end = at + 1;
            while end < text.len() && !is_path_separator(platform, text[end])
                invariant
                    start < end <= text@.len(),
                    forall|k: int| start <= k < end ==> !is_separator(platform, text@[k]),
                decreases text@.len() - end,
            {
                end += 1;
            }
            proof {
                lemma_segment_found(platform, text@, start as int, end - 1);
            }
            if !(end - start == 1 && text[start] == 0x2e) {
                ranges.push((start, end));
            }
            at = end;
        }
    }
    proof {
        lemma_parts(platform, text@, text@.len() as int);
    }
    ranges
}

/// Whether a byte separates the components of a path.
pub fn is_path_separator(platform: Platform, byte: u8) -> (separates: bool)
    ensures
        separates == is_separator(platform, byte),
{
    byte == 0x2f || (matches!(platform, Platform::Windows) && byte == 0x5c)
}

/// The bytes of one of the ranges that `split_path` gave.
pub(crate) fn part_of<'a>(text: &'a [u8], range: (usize, usize)) -> (name: &'a [u8])
    requires
        range.0 <= range.1 <= text@.len(),
    ensures
        name@ == text@.subrange(range.0 as int, range.1 as int),
{
    slice_subrange(text, range.0, range.1)
}

/// The file name of a path: its last component, unless that is `..` or the
/// path has no component at all.
pub fn file_name<'a>(platform: Platform, text: &'a [u8]) -> (name: Option<&'a [u8]>)
    ensures
        name is Some == file_name_of(platform, text@) is Some,
        name is Some ==> name.unwrap()@ == file_name_of(platform, text@).unwrap(),
{
    let ranges = split_path(platform, text);
    if ranges.len() == 0 {
        return None;
    }
    let name = part_of(text, ranges[ranges.len() - 1]);
    if name.len() == 2 && name[0] == 0x2e && name[1] == 0x2e {
        None
    } else {
        Some(name)
    }
}

} // verus!
