//! Ancestry paths: dot-separated identifier strings and the values derived from them.
//!
//! A comment's path has the shape `0.<root>. ... .<id>`: a sentinel, the top-level
//! ancestor, the ancestors below it and finally the comment itself. Nothing here fails:
//! a segment that is not a number reads as identifier 0, and a position that the path
//! lacks reads as 0 too.

use vstd::prelude::*;

use crate::text::{piece_views, split_chars, split_on};

verus! {

/// Whether `c` is one of the ASCII digits `0` to `9`.
pub open spec fn is_digit(c: char) -> bool {
    '0' <= c && c <= '9'
}

/// The number that the digit `c` stands for.
pub open spec fn digit_value(c: char) -> nat {
    (c as u32 - '0' as u32) as nat
}

/// The number written by `digits` in base ten, most significant digit first.
pub open spec fn decimal_value(digits: Seq<char>) -> nat
    decreases digits.len(),
{
    if digits.len() == 0 {
        0
    } else {
        decimal_value(digits.drop_last()) * 10 + digit_value(digits.last())
    }
}

/// Whether every character of `s` is a digit.
pub open spec fn all_digits(s: Seq<char>) -> bool {
    forall|i: int| 0 <= i < s.len() ==> is_digit(#[trigger] s[i])
}

/// `seg` without its leading plus sign, if it has one.
pub open spec fn unsigned_part(seg: Seq<char>) -> Seq<char> {
    if seg.len() > 0 && seg[0] == '+' {
        seg.skip(1)
    } else {
        seg
    }
}

/// Whether `seg` writes an identifier: an optional `+`, then at least one digit and
/// nothing but digits, with a value that fits in 64 bits.
pub open spec fn is_numeric(seg: Seq<char>) -> bool {
    let digits = unsigned_part(seg);
    &&& digits.len() > 0
    &&& all_digits(digits)
    &&& decimal_value(digits) <= u64::MAX
}

/// The identifier that the segment `seg` stands for: its value if it is numeric, else 0.
pub open spec fn segment_id(seg: Seq<char>) -> u64 {
    if is_numeric(seg) {
        decimal_value(unsigned_part(seg)) as u64
    } else {
        0
    }
}

/// The segments of `s` between its dots, in order. There is always at least one: the
/// empty string has one empty segment.
pub open spec fn split_dots(s: Seq<char>) -> Seq<Seq<char>> {
    split_on(s, '.')
}

/// The identifiers along the path `path`, one for each dot-separated segment.
pub open spec fn path_ids(path: Seq<char>) -> Seq<u64> {
    split_dots(path).map_values(|seg: Seq<char>| segment_id(seg))
}

/// How deep below its post a comment with identifiers `ids` sits: two less than the
/// number of identifiers, and 0 for a path too short for that.
pub open spec fn depth_of(ids: Seq<u64>) -> nat {
    if ids.len() >= 2 {
        (ids.len() - 2) as nat
    } else {
        0
    }
}

/// The identifier at position `level + 1` of `ids`, or 0 where `ids` ends before it.
pub open spec fn ancestor_of(ids: Seq<u64>, level: nat) -> u64 {
    if level + 1 < ids.len() {
        ids[level as int + 1]
    } else {
        0
    }
}

/// The ancestors of a comment strictly between its top-level ancestor and itself,
/// outermost first.
pub open spec fn chain_of(ids: Seq<u64>) -> Seq<u64> {
    if ids.len() >= 3 {
        ids.subrange(2, ids.len() - 1)
    } else {
        Seq::<u64>::empty()
    }
}

/// Whether `pos` is where `id` first occurs in `ids`, or 0 where it does not occur.
pub open spec fn is_position_of(ids: Seq<u64>, id: u64, pos: nat) -> bool {
    if ids.contains(id) {
        &&& pos < ids.len()
        &&& ids[pos as int] == id
        &&& forall|j: int| 0 <= j < pos ==> ids[j] != id
    } else {
        pos == 0
    }
}

/// Extending a run of digits never lowers the number it writes.
proof fn lemma_decimal_value_grows(digits: Seq<char>, k: int)
    requires
        0 <= k <= digits.len(),
    ensures
        decimal_value(digits.take(k)) <= decimal_value(digits),
    decreases digits.len() - k,
{
    if k == digits.len() {
        assert(digits.take(k) =~= digits);
    } else {
        lemma_decimal_value_grows(digits.drop_last(), k);
        assert(digits.drop_last().take(k) =~= digits.take(k));
    }
}

/// A path always has at least one segment.
pub proof fn lemma_split_dots_nonempty(s: Seq<char>)
    ensures
        split_dots(s).len() >= 1,
        path_ids(s).len() == split_dots(s).len(),
    decreases s.len(),
{
    if s.len() > 0 {
        lemma_split_dots_nonempty(s.drop_last());
    }
}

/// A path that goes on after a dot keeps the segments that it had and adds those of
/// what follows: the path of a reply begins with the identifiers of its parent.
pub proof fn lemma_path_extension(path: Seq<char>, rest: Seq<char>)
    ensures
        split_dots(path + seq!['.'] + rest) == split_dots(path) + split_dots(rest),
        path_ids(path + seq!['.'] + rest) == path_ids(path) + path_ids(rest),
    decreases rest.len(),
{
    let whole = path + seq!['.'] + rest;
    lemma_split_dots_nonempty(rest);
    if rest.len() == 0 {
        assert(whole.drop_last() =~= path);
        assert(split_dots(whole) =~= split_dots(path) + split_dots(rest));
    } else {
        let shorter = rest.drop_last();
        lemma_path_extension(path, shorter);
        lemma_split_dots_nonempty(shorter);
        assert(whole.drop_last() =~= path + seq!['.'] + shorter);
        assert(whole.last() == rest.last());
        assert(split_dots(whole) =~= split_dots(path) + split_dots(rest));
    }
    assert(path_ids(whole) =~= path_ids(path) + path_ids(rest));
}

/// Reads the identifier that `chars[start..end]` stands for.
fn parse_segment(chars: &Vec<char>, start: usize, end: usize) -> (id: u64)
    requires
        start <= end <= chars.len(),
    ensures
        id == segment_id(chars@.subrange(start as int, end as int)),
{
    let ghost seg = chars@.subrange(start as int, end as int);
    let mut i: usize = start;
    if i < end && chars[i] == '+' {
        i = i + 1;
    }
    let first: usize = i;
    assert(unsigned_part(seg) =~= chars@.subrange(first as int, end as int));
    let ghost digits = unsigned_part(seg);
    if i == end {
        return 0;
    }
    let mut value: u64 = 0;
    while i < end
        invariant
            start <= first <= i <= end <= chars.len(),
            digits == chars@.subrange(first as int, end as int),
            digits == unsigned_part(chars@.subrange(start as int, end as int)),
            all_digits(digits.take(i - first)),
            value == decimal_value(digits.take(i - first)),
        decreases end - i,
    {
        let c: char = chars[i];
        assert(c == digits[i - first]);
        if !(c >= '0' && c <= '9') {
            assert(!is_digit(digits[i - first]));
            return 0;
        }
        let d: u64 = (c as u32 - '0' as u32) as u64;
        proof {
            assert(digits.take(i - first + 1).drop_last() =~= digits.take(i - first));
            assert(digits.take(i - first + 1).last() == c);
            lemma_decimal_value_grows(digits, i - first + 1);
        }
        let scaled: u64 = match value.checked_mul(10) {
            Some(v) => v,
            None => { return 0; },
        };
        value = match scaled.checked_add(d) {
            Some(v) => v,
            None => { return 0; },
        };
        i = i + 1;
    }
    assert(digits.take(i - first) =~= digits);
    value
}

/// Splits `path` on `.` and reads each segment as an identifier, with 0 for a segment
/// that is not a number.
pub fn parse(path: &str) -> (ids: Vec<u64>)
    ensures
        ids@ == path_ids(path@),
        ids@.len() >= 1,
{
    let segments = split_chars(path, '.');
    let mut ids: Vec<u64> = Vec::new();
    let mut i: usize = 0;
    while i < segments.len()
        invariant
            i <= segments.len(),
            piece_views(segments@) == split_dots(path@),
            ids@.len() == i,
            forall|j: int| 0 <= j < i ==> ids@[j] == segment_id(#[trigger] segments@[j]@),
        decreases segments.len() - i,
    {
        let segment = &segments[i];
        let id = parse_segment(segment, 0, segment.len());
        assert(segment@.subrange(0, segment@.len() as int) =~= segment@);
        ids.push(id);
        i = i + 1;
    }
    assert(ids@ =~= path_ids(path@)) by {
        assert forall|j: int| 0 <= j < ids@.len() implies ids@[j] == path_ids(path@)[j] by {
            assert(piece_views(segments@)[j] == segments@[j]@);
        }
    }
    ids
}

/// The depth of the comment at `path`: the number of its segments less two, or 0 for a
/// path with fewer than two segments.
pub fn depth(path: &str) -> (d: usize)
    ensures
        d == depth_of(path_ids(path@)),
{
    let ids = parse(path);
    if ids.len() >= 2 {
        ids.len() - 2
    } else {
        0
    }
}

/// The identifier at position `level + 1` of `ids`, or 0 where `ids` is too short.
pub fn ancestor_in(ids: &Vec<u64>, level: usize) -> (id: u64)
    ensures
        id == ancestor_of(ids@, level as nat),
{
    if level < ids.len() && level + 1 < ids.len() {
        ids[level + 1]
    } else {
        0
    }
}

/// The ancestor of the comment at `path` on level `level`: level 0 is its top-level
/// ancestor. Returns 0 where the path does not reach that far.
pub fn ancestor_at(path: &str, level: usize) -> (id: u64)
    ensures
        id == ancestor_of(path_ids(path@), level as nat),
{
    let ids = parse(path);
    ancestor_in(&ids, level)
}

} // verus!
