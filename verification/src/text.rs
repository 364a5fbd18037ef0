//! Small helpers on strings, stated over their characters.

use vstd::prelude::*;

verus! {

/// The characters of an optional string, with none for an absent one.
pub open spec fn text_or_empty(text: Option<String>) -> Seq<char> {
    match text {
        Some(t) => t@,
        None => Seq::<char>::empty(),
    }
}

/// The characters of each of `texts`.
pub open spec fn text_views(texts: Seq<String>) -> Seq<Seq<char>> {
    texts.map_values(|text: String| text@)
}

/// Borrows an optional string, with the empty string for an absent one.
pub fn str_or_empty(text: &Option<String>) -> (s: &str)
    ensures
        s@ == text_or_empty(*text),
{
    match text {
        Some(t) => t.as_str(),
        None => {
            proof {
                reveal_strlit("");
            }
            assert(""@ =~= Seq::<char>::empty());
            ""
        },
    }
}

/// Copies the characters of `s` into a vector, in order.
pub fn chars_of(s: &str) -> (chars: Vec<char>)
    ensures
        chars@ == s@,
{
    let mut chars: Vec<char> = Vec::new();
    for c in it: s.chars()
        invariant
            it.seq() == s@,
            chars@ =~= s@.take(it.index() as int),
    {
        chars.push(c);
    }
    assert(chars@ =~= s@);
    chars
}

/// Whether `text` ends with `suffix`.
pub fn ends_with(text: &str, suffix: &str) -> (b: bool)
    ensures
        b == suffix@.is_suffix_of(text@),
{
    let chars = chars_of(text);
    let tail = chars_of(suffix);
    if tail.len() > chars.len() {
        return false;
    }
    let offset: usize = chars.len() - tail.len();
    let mut i: usize = 0;
    while i < tail.len()
        invariant
            i <= tail.len(),
            offset + tail.len() == chars.len(),
            chars@ == text@,
            tail@ == suffix@,
            forall|j: int| 0 <= j < i ==> tail@[j] == chars@[offset + j],
        decreases tail.len() - i,
    {
        if tail[i] != chars[offset + i] {
            assert(text@.subrange(text@.len() - suffix@.len(), text@.len() as int)[i as int]
                != suffix@[i as int]);
            return false;
        }
        i = i + 1;
    }
    assert(suffix@ =~= text@.subrange(text@.len() - suffix@.len(), text@.len() as int));
    true
}

/// The pieces of `s` between the occurrences of `sep`, in order. There is always at
/// least one: the empty text has one empty piece, each `sep` starts a new piece and
/// any other character extends the last one.
pub open spec fn split_on(s: Seq<char>, sep: char) -> Seq<Seq<char>>
    decreases s.len(),
{
    if s.len() == 0 {
        seq![Seq::<char>::empty()]
    } else {
        let before = split_on(s.drop_last(), sep);
        if s.last() == sep {
            before.push(Seq::<char>::empty())
        } else {
            before.drop_last().push(before.last().push(s.last()))
        }
    }
}

/// The character sequences that the vectors of `pieces` hold.
pub open spec fn piece_views(pieces: Seq<Vec<char>>) -> Seq<Seq<char>> {
    pieces.map_values(|piece: Vec<char>| piece@)
}

/// Splits `text` at each occurrence of `sep`.
pub fn split_chars(text: &str, sep: char) -> (pieces: Vec<Vec<char>>)
    ensures
        piece_views(pieces@) == split_on(text@, sep),
        pieces.len() >= 1,
{
    let mut pieces: Vec<Vec<char>> = Vec::new();
    let mut piece: Vec<char> = Vec::new();
    proof {
        assert(text@.take(0) =~= Seq::<char>::empty());
        assert(piece_views(pieces@).push(piece@) =~= seq![Seq::<char>::empty()]);
    }
    for c in it: text.chars()
        invariant
            it.seq() == text@,
            split_on(text@.take(it.index() as int), sep) == piece_views(pieces@).push(piece@),
    {
        proof {
            let n = it.index() as int;
            assert(text@.take(n + 1).drop_last() =~= text@.take(n));
            assert(text@.take(n + 1).last() == c);
            let before = piece_views(pieces@).push(piece@);
            assert(before.drop_last() =~= piece_views(pieces@));
            assert(before.last() == piece@);
        }
        if c == sep {
            let ghost done = piece_views(pieces@).push(piece@);
            pieces.push(piece);
            piece = Vec::new();
            proof {
                assert(piece_views(pieces@) =~= done);
                assert(piece@ =~= Seq::<char>::empty());
            }
        } else {
            piece.push(c);
        }
    }
    proof {
        assert(text@.take(text@.len() as int) =~= text@);
    }
    let ghost all = piece_views(pieces@).push(piece@);
    pieces.push(piece);
    assert(piece_views(pieces@) =~= all);
    pieces
}

} // verus!
