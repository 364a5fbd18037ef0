//! Thread order: the total order in which a post's comments are presented.
//!
//! Every comment has a key made of six parts, compared one after the other: the
//! top-level ancestor, the chain of ancestors below it, the depth, the number of
//! children, the comment's identifier and its publication time. Two comments whose
//! keys differ are strictly ordered, and an ancestor's key precedes the keys of its
//! descendants.

use vstd::prelude::*;

use crate::path::{ancestor_of, chain_of, depth_of};
use crate::text::chars_of;

verus! {

/// The part of a comment that thread order looks at.
pub struct ThreadKey {
    /// The top-level ancestor, which groups a thread together.
    pub root: u64,
    /// The ancestors between the top-level ancestor and the comment, outermost first.
    pub chain: Seq<u64>,
    /// The comment's depth below the post.
    pub depth: nat,
    /// The number of direct children that the server reports.
    pub child_count: u64,
    /// The comment's own identifier.
    pub id: u64,
    /// The publication time, as text.
    pub published: Seq<char>,
}

/// How one value stands to another in an order.
#[derive(Clone, Copy, Debug, PartialEq, Eq, Structural)]
pub enum Placement {
    Before,
    Same,
    After,
}

/// The first sequence precedes the second in lexicographic order: at the first place
/// where they differ the first holds the smaller number, or the first ends there and
/// the second goes on.
pub open spec fn lex_lt(a: Seq<int>, b: Seq<int>) -> bool
    decreases a.len(),
{
    if b.len() == 0 {
        false
    } else if a.len() == 0 {
        true
    } else if a[0] != b[0] {
        a[0] < b[0]
    } else {
        lex_lt(a.drop_first(), b.drop_first())
    }
}

/// Identifiers as plain integers.
pub open spec fn id_codes(ids: Seq<u64>) -> Seq<int> {
    ids.map_values(|id: u64| id as int)
}

/// Characters as their code points.
pub open spec fn char_codes(text: Seq<char>) -> Seq<int> {
    text.map_values(|c: char| c as int)
}

/// The thread-order key of a comment with the path identifiers `ids`.
pub open spec fn key_of(ids: Seq<u64>, child_count: u64, id: u64, published: Seq<char>) -> ThreadKey {
    ThreadKey {
        root: ancestor_of(ids, 0),
        chain: chain_of(ids),
        depth: depth_of(ids),
        child_count,
        id,
        published,
    }
}

/// Thread order on keys: `a` comes strictly before `b`. The first part in which the
/// keys differ decides.
pub open spec fn key_lt(a: ThreadKey, b: ThreadKey) -> bool {
    if a.root != b.root {
        a.root < b.root
    } else if a.chain != b.chain {
        lex_lt(id_codes(a.chain), id_codes(b.chain))
    } else if a.depth != b.depth {
        a.depth < b.depth
    } else if a.child_count != b.child_count {
        a.child_count < b.child_count
    } else if a.id != b.id {
        a.id < b.id
    } else {
        lex_lt(char_codes(a.published), char_codes(b.published))
    }
}

/// How `a` stands to `b` in lexicographic order.
pub open spec fn lex_placement(a: Seq<int>, b: Seq<int>) -> Placement {
    if lex_lt(a, b) {
        Placement::Before
    } else if lex_lt(b, a) {
        Placement::After
    } else {
        Placement::Same
    }
}

/// How `a` stands to `b` in thread order.
pub open spec fn key_placement(a: ThreadKey, b: ThreadKey) -> Placement {
    if key_lt(a, b) {
        Placement::Before
    } else if key_lt(b, a) {
        Placement::After
    } else {
        Placement::Same
    }
}

/// No sequence precedes itself.
pub proof fn lemma_lex_irreflexive(a: Seq<int>)
    ensures
        !lex_lt(a, a),
    decreases a.len(),
{
    if a.len() > 0 {
        lemma_lex_irreflexive(a.drop_first());
    }
}

/// Of two sequences at most one precedes the other.
pub proof fn lemma_lex_asymmetric(a: Seq<int>, b: Seq<int>)
    requires
        lex_lt(a, b),
    ensures
        !lex_lt(b, a),
    decreases a.len(),
{
    if a.len() > 0 && b.len() > 0 && a[0] == b[0] {
        lemma_lex_asymmetric(a.drop_first(), b.drop_first());
    }
}

/// Two different sequences are ordered one way or the other.
pub proof fn lemma_lex_total(a: Seq<int>, b: Seq<int>)
    ensures
        lex_lt(a, b) || a == b || lex_lt(b, a),
    decreases a.len(),
{
    if a.len() == 0 || b.len() == 0 {
        if a.len() == 0 && b.len() == 0 {
            assert(a =~= b);
        }
    } else if a[0] == b[0] {
        lemma_lex_total(a.drop_first(), b.drop_first());
        if a.drop_first() == b.drop_first() {
            assert(a =~= seq![a[0]] + a.drop_first());
            assert(b =~= seq![b[0]] + b.drop_first());
        }
    }
}

/// Lexicographic order is transitive.
pub proof fn lemma_lex_transitive(a: Seq<int>, b: Seq<int>, c: Seq<int>)
    requires
        lex_lt(a, b),
        lex_lt(b, c),
    ensures
        lex_lt(a, c),
    decreases a.len(),
{
    if a.len() > 0 && a[0] == b[0] && b[0] == c[0] {
        lemma_lex_transitive(a.drop_first(), b.drop_first(), c.drop_first());
    }
}

/// A proper prefix precedes the sequence that it begins.
pub proof fn lemma_lex_prefix(a: Seq<int>, b: Seq<int>)
    requires
        a.len() < b.len(),
        a == b.take(a.len() as int),
    ensures
        lex_lt(a, b),
    decreases a.len(),
{
    if a.len() > 0 {
        assert(a[0] == b[0]);
        assert(a.drop_first() =~= b.drop_first().take(a.len() - 1));
        lemma_lex_prefix(a.drop_first(), b.drop_first());
    }
}

/// Different identifier sequences have different codes.
pub proof fn lemma_id_codes_injective(a: Seq<u64>, b: Seq<u64>)
    requires
        id_codes(a) == id_codes(b),
    ensures
        a == b,
{
    assert(a.len() == id_codes(a).len());
    assert(b.len() == id_codes(b).len());
    assert forall|i: int| 0 <= i < a.len() implies a[i] == b[i] by {
        assert(id_codes(a)[i] == a[i] as int);
        assert(id_codes(b)[i] == b[i] as int);
    }
    assert(a =~= b);
}

/// Different texts have different codes.
pub proof fn lemma_char_codes_injective(a: Seq<char>, b: Seq<char>)
    requires
        char_codes(a) == char_codes(b),
    ensures
        a == b,
{
    assert(a.len() == char_codes(a).len());
    assert(b.len() == char_codes(b).len());
    assert forall|i: int| 0 <= i < a.len() implies a[i] == b[i] by {
        assert(char_codes(a)[i] == a[i] as int);
        assert(char_codes(b)[i] == b[i] as int);
    }
    assert(a =~= b);
}

/// No key comes before itself.
pub proof fn lemma_key_irreflexive(a: ThreadKey)
    ensures
        !key_lt(a, a),
{
    lemma_lex_irreflexive(char_codes(a.published));
}

/// Of two keys at most one comes before the other.
pub proof fn lemma_key_asymmetric(a: ThreadKey, b: ThreadKey)
    requires
        key_lt(a, b),
    ensures
        !key_lt(b, a),
{
    if a.root != b.root {
    } else if a.chain != b.chain {
        lemma_lex_asymmetric(id_codes(a.chain), id_codes(b.chain));
    } else if a.depth != b.depth {
    } else if a.child_count != b.child_count {
    } else if a.id != b.id {
    } else {
        lemma_lex_asymmetric(char_codes(a.published), char_codes(b.published));
    }
}

/// Two keys are equal, or one of them comes before the other: thread order has no
/// ties between different keys.
pub proof fn lemma_key_total(a: ThreadKey, b: ThreadKey)
    ensures
        key_lt(a, b) || a == b || key_lt(b, a),
{
    if a.root != b.root {
    } else if a.chain != b.chain {
        lemma_lex_total(id_codes(a.chain), id_codes(b.chain));
        if id_codes(a.chain) == id_codes(b.chain) {
            lemma_id_codes_injective(a.chain, b.chain);
        }
    } else if a.depth != b.depth {
    } else if a.child_count != b.child_count {
    } else if a.id != b.id {
    } else {
        lemma_lex_total(char_codes(a.published), char_codes(b.published));
        if char_codes(a.published) == char_codes(b.published) {
            lemma_char_codes_injective(a.published, b.published);
        }
    }
}

/// Thread order on keys is transitive.
pub proof fn lemma_key_transitive(a: ThreadKey, b: ThreadKey, c: ThreadKey)
    requires
        key_lt(a, b),
        key_lt(b, c),
    ensures
        key_lt(a, c),
{
    if a.root != b.root || b.root != c.root {
    } else if a.chain != b.chain || b.chain != c.chain {
        if a.chain != b.chain && b.chain != c.chain {
            lemma_lex_transitive(id_codes(a.chain), id_codes(b.chain), id_codes(c.chain));
            lemma_lex_irreflexive(id_codes(a.chain));
        }
    } else if a.depth != b.depth || b.depth != c.depth {
    } else if a.child_count != b.child_count || b.child_count != c.child_count {
    } else if a.id != b.id || b.id != c.id {
    } else {
        lemma_lex_transitive(
            char_codes(a.published),
            char_codes(b.published),
            char_codes(c.published),
        );
    }
}

/// Where `b` does not come before `a` and `b` comes before `c`, `a` comes before `c`.
pub proof fn lemma_key_le_lt(a: ThreadKey, b: ThreadKey, c: ThreadKey)
    requires
        !key_lt(b, a),
        key_lt(b, c),
    ensures
        key_lt(a, c),
{
    lemma_key_total(a, b);
    if a != b {
        lemma_key_transitive(a, b, c);
    }
}

/// Where `a` comes before `b` and `c` does not come before `b`, `a` comes before `c`.
pub proof fn lemma_key_lt_le(a: ThreadKey, b: ThreadKey, c: ThreadKey)
    requires
        key_lt(a, b),
        !key_lt(c, b),
    ensures
        key_lt(a, c),
{
    lemma_key_total(b, c);
    if b != c {
        lemma_key_transitive(a, b, c);
    }
}

/// Whether the path identifiers `a` are a proper beginning of `b`: the comment at
/// `a` is an ancestor of the comment at `b`.
pub open spec fn is_ancestor_path(a: Seq<u64>, b: Seq<u64>) -> bool {
    &&& 1 <= a.len() < b.len()
    &&& a == b.take(a.len() as int)
}

/// Whether `a` holds the sentinel alone and `b` adds identifier 0 to it and nothing
/// more. The keys of two such paths agree in their first three parts.
pub open spec fn is_bare_pair(a: Seq<u64>, b: Seq<u64>) -> bool {
    a.len() == 1 && b.len() == 2 && b[1] == 0
}

/// Ancestors come first: where the path of one comment is a proper beginning of the
/// path of another, the first comment's key comes before the second's, whatever the
/// other parts of the keys hold. The one exception is a path of the sentinel alone
/// against that path with identifier 0 added.
pub proof fn lemma_ancestor_key_first(
    a_ids: Seq<u64>,
    a_children: u64,
    a_id: u64,
    a_published: Seq<char>,
    b_ids: Seq<u64>,
    b_children: u64,
    b_id: u64,
    b_published: Seq<char>,
)
    requires
        is_ancestor_path(a_ids, b_ids),
        !is_bare_pair(a_ids, b_ids),
    ensures
        key_lt(
            key_of(a_ids, a_children, a_id, a_published),
            key_of(b_ids, b_children, b_id, b_published),
        ),
{
    let a = key_of(a_ids, a_children, a_id, a_published);
    let b = key_of(b_ids, b_children, b_id, b_published);
    if a_ids.len() >= 2 {
        assert(a_ids[1] == b_ids[1]);
    }
    if a.root == b.root {
        assert(a.depth < b.depth);
        if a.chain != b.chain {
            assert(a.chain.len() < b.chain.len()) by {
                if a.chain.len() == b.chain.len() {
                    assert(a.chain =~= b.chain);
                }
            }
            assert(id_codes(a.chain) =~= id_codes(b.chain).take(a.chain.len() as int));
            lemma_lex_prefix(id_codes(a.chain), id_codes(b.chain));
        }
    }
}

/// Compares two runs of identifiers lexicographically.
pub fn place_ids(a: &[u64], b: &[u64]) -> (p: Placement)
    ensures
        p == lex_placement(id_codes(a@), id_codes(b@)),
        p == Placement::Same <==> a@ == b@,
{
    let ghost codes_a = id_codes(a@);
    let ghost codes_b = id_codes(b@);
    let mut i: usize = 0;
    proof {
        assert(codes_a.skip(0) =~= codes_a);
        assert(codes_b.skip(0) =~= codes_b);
    }
    while i < a.len() && i < b.len()
        invariant
            i <= a.len(),
            i <= b.len(),
            codes_a == id_codes(a@),
            codes_b == id_codes(b@),
            lex_lt(codes_a, codes_b) == lex_lt(codes_a.skip(i as int), codes_b.skip(i as int)),
            lex_lt(codes_b, codes_a) == lex_lt(codes_b.skip(i as int), codes_a.skip(i as int)),
        decreases a.len() - i,
    {
        proof {
            assert(codes_a.skip(i as int)[0] == a@[i as int]);
            assert(codes_b.skip(i as int)[0] == b@[i as int]);
            assert(codes_a.skip(i as int).drop_first() =~= codes_a.skip(i + 1));
            assert(codes_b.skip(i as int).drop_first() =~= codes_b.skip(i + 1));
        }
        if a[i] < b[i] {
            proof {
                lemma_lex_asymmetric(codes_a, codes_b);
                lemma_lex_irreflexive(codes_a);
            }
            return Placement::Before;
        }
        if a[i] > b[i] {
            proof {
                lemma_lex_asymmetric(codes_b, codes_a);
                lemma_lex_irreflexive(codes_a);
            }
            return Placement::After;
        }
        i = i + 1;
    }
    proof {
        lemma_lex_total(codes_a, codes_b);
        lemma_lex_irreflexive(codes_a);
        if codes_a == codes_b {
            lemma_id_codes_injective(a@, b@);
        }
        if lex_lt(codes_a, codes_b) {
            lemma_lex_asymmetric(codes_a, codes_b);
        }
    }
    if a.len() < b.len() {
        Placement::Before
    } else if a.len() > b.len() {
        Placement::After
    } else {
        Placement::Same
    }
}

/// Compares two texts lexicographically by code point.
pub fn place_texts(a: &str, b: &str) -> (p: Placement)
    ensures
        p == lex_placement(char_codes(a@), char_codes(b@)),
        p == Placement::Same <==> a@ == b@,
{
    let chars_a = chars_of(a);
    let chars_b = chars_of(b);
    let ghost codes_a = char_codes(a@);
    let ghost codes_b = char_codes(b@);
    let mut i: usize = 0;
    proof {
        assert(codes_a.skip(0) =~= codes_a);
        assert(codes_b.skip(0) =~= codes_b);
    }
    while i < chars_a.len() && i < chars_b.len()
        invariant
            i <= chars_a.len(),
            i <= chars_b.len(),
            chars_a@ == a@,
            chars_b@ == b@,
            codes_a == char_codes(a@),
            codes_b == char_codes(b@),
            lex_lt(codes_a, codes_b) == lex_lt(codes_a.skip(i as int), codes_b.skip(i as int)),
            lex_lt(codes_b, codes_a) == lex_lt(codes_b.skip(i as int), codes_a.skip(i as int)),
        decreases chars_a.len() - i,
    {
        proof {
            assert(codes_a.skip(i as int)[0] == a@[i as int]);
            assert(codes_b.skip(i as int)[0] == b@[i as int]);
            assert(codes_a.skip(i as int).drop_first() =~= codes_a.skip(i + 1));
            assert(codes_b.skip(i as int).drop_first() =~= codes_b.skip(i + 1));
        }
        if chars_a[i] < chars_b[i] {
            proof {
                lemma_lex_asymmetric(codes_a, codes_b);
                lemma_lex_irreflexive(codes_a);
            }
            return Placement::Before;
        }
        if chars_a[i] > chars_b[i] {
            proof {
                lemma_lex_asymmetric(codes_b, codes_a);
                lemma_lex_irreflexive(codes_a);
            }
            return Placement::After;
        }
        i = i + 1;
    }
    proof {
        lemma_lex_total(codes_a, codes_b);
        lemma_lex_irreflexive(codes_a);
        if codes_a == codes_b {
            lemma_char_codes_injective(a@, b@);
        }
        if lex_lt(codes_a, codes_b) {
            lemma_lex_asymmetric(codes_a, codes_b);
        }
    }
    if chars_a.len() < chars_b.len() {
        Placement::Before
    } else if chars_a.len() > chars_b.len() {
        Placement::After
    } else {
        Placement::Same
    }
}

} // verus!
