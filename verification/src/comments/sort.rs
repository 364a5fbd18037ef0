//! Putting comment entries in thread order with a stable merge sort.
//!
//! The result is pinned down by three statements: no entry comes before an earlier
//! one, the entries are those that went in, and entries with the same key keep the
//! order in which they went in.

use vstd::prelude::*;
use vstd::seq_lib::*;

use crate::comments::order::{
    key_lt, lemma_key_asymmetric, lemma_key_irreflexive, lemma_key_le_lt, lemma_key_lt_le,
    ThreadKey,
};
use crate::comments::response::CommentResponse;

verus! {

/// The test whether an entry has the key `key`.
pub open spec fn has_key(key: ThreadKey) -> spec_fn(CommentResponse) -> bool {
    |r: CommentResponse| r.thread_key() == key
}

/// The entries of `s` whose key is `key`, in the order in which `s` holds them.
pub open spec fn with_key(s: Seq<CommentResponse>, key: ThreadKey) -> Seq<CommentResponse> {
    s.filter(has_key(key))
}

/// Whether `s` is in thread order: no entry comes strictly before one that stands
/// earlier in `s`.
pub open spec fn in_thread_order(s: Seq<CommentResponse>) -> bool {
    forall|i: int, j: int|
        #![trigger s[i], s[j]]
        0 <= i < j < s.len() ==> !key_lt(s[j].thread_key(), s[i].thread_key())
}

/// Whether `out` is `input` put in thread order by a stable sort: `out` is in thread
/// order, holds the entries of `input`, each as often as `input` does, and holds the
/// entries of any one key in the order in which `input` holds them.
pub open spec fn is_thread_sort_of(out: Seq<CommentResponse>, input: Seq<CommentResponse>) -> bool {
    &&& in_thread_order(out)
    &&& out.to_multiset() == input.to_multiset()
    &&& forall|key: ThreadKey| #[trigger] with_key(out, key) == with_key(input, key)
}

/// A sequence none of whose entries has the key `key` holds no entry with that key.
pub proof fn lemma_with_key_none(s: Seq<CommentResponse>, key: ThreadKey)
    requires
        forall|i: int| 0 <= i < s.len() ==> (#[trigger] s[i]).thread_key() != key,
    ensures
        with_key(s, key) == Seq::<CommentResponse>::empty(),
    decreases s.len(),
{
    reveal(Seq::filter);
    if s.len() > 0 {
        lemma_with_key_none(s.drop_last(), key);
    }
}

/// Putting `x` in front of `s` puts it in front of the entries with its key and leaves
/// the entries of the other keys as they were.
proof fn lemma_with_key_front(x: CommentResponse, s: Seq<CommentResponse>, key: ThreadKey)
    ensures
        with_key(seq![x] + s, key) == if x.thread_key() == key {
            seq![x] + with_key(s, key)
        } else {
            with_key(s, key)
        },
{
    s.lemma_filter_prepend(x, has_key(key));
    if x.thread_key() != key {
        assert(Seq::<CommentResponse>::empty() + with_key(s, key) =~= with_key(s, key));
    }
}

/// Putting `x` in front of `s` adds it once to the entries that `s` holds.
proof fn lemma_multiset_front(x: CommentResponse, s: Seq<CommentResponse>)
    ensures
        (seq![x] + s).to_multiset() == s.to_multiset().insert(x),
{
    broadcast use vstd::multiset::group_multiset_axioms;

    lemma_multiset_commutative(seq![x], s);
    lemma_multiset_commutative(s, seq![x]);
    assert(s + seq![x] =~= s.push(x));
    to_multiset_build(s, x);
    assert((seq![x] + s).to_multiset() =~= s.to_multiset().insert(x));
}

/// Moves the entries of `v` into a new vector, last entry first.
fn reversed(v: Vec<CommentResponse>) -> (out: Vec<CommentResponse>)
    ensures
        out@ == v@.reverse(),
{
    let ghost orig = v@;
    let mut v = v;
    let mut out: Vec<CommentResponse> = Vec::new();
    assert(out@ =~= orig.skip(v.len() as int).reverse());
    while v.len() > 0
        invariant
            v.len() <= orig.len(),
            v@ == orig.take(v.len() as int),
            out@ == orig.skip(v.len() as int).reverse(),
        decreases v.len(),
    {
        let ghost n = v.len() as int;
        let x = v.pop().unwrap();
        out.push(x);
        proof {
            assert(v@ =~= orig.take(n - 1));
            assert(out@ =~= orig.skip(n - 1).reverse());
        }
    }
    assert(orig.skip(0) =~= orig);
    out
}

/// Merges two runs that are in thread order into one. Where an entry of `left` and an
/// entry of `right` have the same key, the one of `left` comes first.
fn merge(left: Vec<CommentResponse>, right: Vec<CommentResponse>) -> (out: Vec<CommentResponse>)
    requires
        in_thread_order(left@),
        in_thread_order(right@),
    ensures
        is_thread_sort_of(out@, left@ + right@),
{
    let ghost l0 = left@;
    let ghost r0 = right@;
    let mut left = left;
    let mut right = right;
    let mut rev: Vec<CommentResponse> = Vec::new();
    let ghost mut tail: Seq<CommentResponse> = Seq::empty();
    proof {
        assert(l0.take(l0.len() as int) =~= l0);
        assert(r0.take(r0.len() as int) =~= r0);
        assert(rev@ =~= tail.reverse());
        assert(l0.skip(l0.len() as int) =~= Seq::<CommentResponse>::empty());
        assert(r0.skip(r0.len() as int) =~= Seq::<CommentResponse>::empty());
        broadcast use vstd::multiset::group_multiset_axioms;

        to_multiset_len(tail);
        vstd::multiset::lemma_multiset_empty_len(tail.to_multiset());
        assert(tail.to_multiset() =~= l0.skip(l0.len() as int).to_multiset().add(
            r0.skip(r0.len() as int).to_multiset(),
        ));
        assert forall|key: ThreadKey| #[trigger]
            with_key(tail, key) == with_key(l0.skip(l0.len() as int), key) + with_key(
                r0.skip(r0.len() as int),
                key,
            ) by {
            lemma_with_key_none(Seq::<CommentResponse>::empty(), key);
        }
    }
    while left.len() > 0 || right.len() > 0
        invariant
            in_thread_order(l0),
            in_thread_order(r0),
            left.len() <= l0.len(),
            right.len() <= r0.len(),
            left@ == l0.take(left.len() as int),
            right@ == r0.take(right.len() as int),
            rev@ == tail.reverse(),
            in_thread_order(tail),
            forall|p: int, q: int|
                #![trigger l0[p], tail[q]]
                0 <= p < left.len() && 0 <= q < tail.len() ==> !key_lt(
                    tail[q].thread_key(),
                    l0[p].thread_key(),
                ),
            forall|p: int, q: int|
                #![trigger r0[p], tail[q]]
                0 <= p < right.len() && 0 <= q < tail.len() ==> !key_lt(
                    tail[q].thread_key(),
                    r0[p].thread_key(),
                ),
            forall|m: int, n: int|
                #![trigger l0[m], r0[n]]
                left.len() <= m < l0.len() && 0 <= n < right.len() ==> key_lt(
                    r0[n].thread_key(),
                    l0[m].thread_key(),
                ),
            tail.to_multiset() == l0.skip(left.len() as int).to_multiset().add(
                r0.skip(right.len() as int).to_multiset(),
            ),
            forall|key: ThreadKey| #[trigger]
                with_key(tail, key) == with_key(l0.skip(left.len() as int), key) + with_key(
                    r0.skip(right.len() as int),
                    key,
                ),
        decreases left.len() + right.len(),
    {
        let ghost i = left.len() as int;
        let ghost j = right.len() as int;
        let from_left: bool = if right.len() == 0 {
            true
        } else if left.len() == 0 {
            false
        } else {
            right[right.len() - 1].precedes(&left[left.len() - 1])
        };
        if from_left {
            let x = left.pop().unwrap();
            rev.push(x);
            proof {
                let new_tail = seq![x] + tail;
                assert(x == l0[i - 1]);
                assert(left@ =~= l0.take(i - 1));
                assert(rev@ =~= new_tail.reverse());
                assert(l0.skip(i - 1) =~= seq![x] + l0.skip(i));
                assert forall|n: int| 0 <= n < j implies key_lt(
                    (#[trigger] r0[n]).thread_key(),
                    x.thread_key(),
                ) by {
                    assert(key_lt(r0[j - 1].thread_key(), l0[i - 1].thread_key()));
                    if n < j - 1 {
                        lemma_key_le_lt(
                            r0[n].thread_key(),
                            r0[j - 1].thread_key(),
                            x.thread_key(),
                        );
                    }
                }
                assert forall|p: int, q: int|
                    #![trigger r0[p], new_tail[q]]
                    0 <= p < j && 0 <= q < new_tail.len() implies !key_lt(
                    new_tail[q].thread_key(),
                    r0[p].thread_key(),
                ) by {
                    if q == 0 {
                        assert(key_lt(r0[p].thread_key(), x.thread_key()));
                        lemma_key_asymmetric(r0[p].thread_key(), x.thread_key());
                    } else {
                        assert(new_tail[q] == tail[q - 1]);
                    }
                }
                assert forall|p: int, q: int|
                    #![trigger l0[p], new_tail[q]]
                    0 <= p < i - 1 && 0 <= q < new_tail.len() implies !key_lt(
                    new_tail[q].thread_key(),
                    l0[p].thread_key(),
                ) by {
                    if q == 0 {
                        assert(!key_lt(l0[i - 1].thread_key(), l0[p].thread_key()));
                    } else {
                        assert(new_tail[q] == tail[q - 1]);
                    }
                }
                assert forall|a: int, b: int|
                    #![trigger new_tail[a], new_tail[b]]
                    0 <= a < b < new_tail.len() implies !key_lt(
                    new_tail[b].thread_key(),
                    new_tail[a].thread_key(),
                ) by {
                    assert(new_tail[b] == tail[b - 1]);
                    if a == 0 {
                        assert(!key_lt(tail[b - 1].thread_key(), l0[i - 1].thread_key()));
                    } else {
                        assert(new_tail[a] == tail[a - 1]);
                    }
                }
                assert forall|m: int, n: int|
                    #![trigger l0[m], r0[n]]
                    i - 1 <= m < l0.len() && 0 <= n < j implies key_lt(
                    r0[n].thread_key(),
                    l0[m].thread_key(),
                ) by {
                    if m == i - 1 {
                        assert(key_lt(r0[n].thread_key(), x.thread_key()));
                    }
                }
                lemma_multiset_front(x, tail);
                lemma_multiset_front(x, l0.skip(i));
                broadcast use vstd::multiset::group_multiset_axioms;

                assert(new_tail.to_multiset() =~= l0.skip(i - 1).to_multiset().add(
                    r0.skip(j).to_multiset(),
                ));
                assert forall|key: ThreadKey| #[trigger]
                    with_key(new_tail, key) == with_key(l0.skip(i - 1), key) + with_key(
                        r0.skip(j),
                        key,
                    ) by {
                    lemma_with_key_front(x, tail, key);
                    lemma_with_key_front(x, l0.skip(i), key);
                    assert(with_key(tail, key) == with_key(l0.skip(i), key) + with_key(
                        r0.skip(j),
                        key,
                    ));
                    if x.thread_key() == key {
                        assert(seq![x] + (with_key(l0.skip(i), key) + with_key(r0.skip(j), key))
                            =~= (seq![x] + with_key(l0.skip(i), key)) + with_key(
                            r0.skip(j),
                            key,
                        ));
                    }
                }
                tail = new_tail;
            }
        } else {
            let y = right.pop().unwrap();
            rev.push(y);
            proof {
                let new_tail = seq![y] + tail;
                assert(y == r0[j - 1]);
                assert(right@ =~= r0.take(j - 1));
                assert(rev@ =~= new_tail.reverse());
                assert(r0.skip(j - 1) =~= seq![y] + r0.skip(j));
                assert forall|p: int, q: int|
                    #![trigger l0[p], new_tail[q]]
                    0 <= p < i && 0 <= q < new_tail.len() implies !key_lt(
                    new_tail[q].thread_key(),
                    l0[p].thread_key(),
                ) by {
                    if q == 0 {
                        assert(!key_lt(r0[j - 1].thread_key(), l0[i - 1].thread_key()));
                        if p < i - 1 {
                            assert(!key_lt(l0[i - 1].thread_key(), l0[p].thread_key()));
                            if key_lt(y.thread_key(), l0[p].thread_key()) {
                                lemma_key_lt_le(
                                    y.thread_key(),
                                    l0[p].thread_key(),
                                    l0[i - 1].thread_key(),
                                );
                            }
                        }
                    } else {
                        assert(new_tail[q] == tail[q - 1]);
                    }
                }
                assert forall|p: int, q: int|
                    #![trigger r0[p], new_tail[q]]
                    0 <= p < j - 1 && 0 <= q < new_tail.len() implies !key_lt(
                    new_tail[q].thread_key(),
                    r0[p].thread_key(),
                ) by {
                    if q == 0 {
                        assert(!key_lt(r0[j - 1].thread_key(), r0[p].thread_key()));
                    } else {
                        assert(new_tail[q] == tail[q - 1]);
                    }
                }
                assert forall|a: int, b: int|
                    #![trigger new_tail[a], new_tail[b]]
                    0 <= a < b < new_tail.len() implies !key_lt(
                    new_tail[b].thread_key(),
                    new_tail[a].thread_key(),
                ) by {
                    assert(new_tail[b] == tail[b - 1]);
                    if a == 0 {
                        assert(!key_lt(tail[b - 1].thread_key(), r0[j - 1].thread_key()));
                    } else {
                        assert(new_tail[a] == tail[a - 1]);
                    }
                }
                lemma_multiset_front(y, tail);
                lemma_multiset_front(y, r0.skip(j));
                broadcast use vstd::multiset::group_multiset_axioms;

                assert(new_tail.to_multiset() =~= l0.skip(i).to_multiset().add(
                    r0.skip(j - 1).to_multiset(),
                ));
                assert forall|key: ThreadKey| #[trigger]
                    with_key(new_tail, key) == with_key(l0.skip(i), key) + with_key(
                        r0.skip(j - 1),
                        key,
                    ) by {
                    lemma_with_key_front(y, tail, key);
                    lemma_with_key_front(y, r0.skip(j), key);
                    assert(with_key(tail, key) == with_key(l0.skip(i), key) + with_key(
                        r0.skip(j),
                        key,
                    ));
                    if y.thread_key() == key {
                        assert forall|m: int| 0 <= m < l0.skip(i).len() implies (
                        #[trigger] l0.skip(i)[m]).thread_key() != key by {
                            assert(key_lt(r0[j - 1].thread_key(), l0[i + m].thread_key()));
                            lemma_key_irreflexive(key);
                        }
                        lemma_with_key_none(l0.skip(i), key);
                        assert(seq![y] + (Seq::<CommentResponse>::empty() + with_key(
                            r0.skip(j),
                            key,
                        )) =~= Seq::<CommentResponse>::empty() + (seq![y] + with_key(
                            r0.skip(j),
                            key,
                        )));
                    }
                }
                tail = new_tail;
            }
        }
    }
    let out = reversed(rev);
    proof {
        assert(out@ =~= tail);
        assert(l0.skip(0) =~= l0);
        assert(r0.skip(0) =~= r0);
        lemma_multiset_commutative(l0, r0);
        assert forall|key: ThreadKey| #[trigger]
            with_key(out@, key) == with_key(l0 + r0, key) by {
            Seq::filter_distributes_over_add(l0, r0, has_key(key));
        }
    }
    out
}

/// Puts `items` in thread order. Entries with the same key keep their order.
pub fn sort_by_thread(items: Vec<CommentResponse>) -> (out: Vec<CommentResponse>)
    ensures
        is_thread_sort_of(out@, items@),
    decreases items.len(),
{
    if items.len() <= 1 {
        return items;
    }
    let ghost input = items@;
    let mut left = items;
    let mid: usize = left.len() / 2;
    let right = left.split_off(mid);
    let ghost l = left@;
    let ghost r = right@;
    assert(input =~= l + r);
    let sorted_left = sort_by_thread(left);
    let sorted_right = sort_by_thread(right);
    let ghost sl = sorted_left@;
    let ghost sr = sorted_right@;
    let out = merge(sorted_left, sorted_right);
    proof {
        lemma_multiset_commutative(sl, sr);
        lemma_multiset_commutative(l, r);
        assert forall|key: ThreadKey| #[trigger] with_key(out@, key) == with_key(input, key) by {
            Seq::filter_distributes_over_add(sl, sr, has_key(key));
            Seq::filter_distributes_over_add(l, r, has_key(key));
            assert(with_key(sl, key) == with_key(l, key));
            assert(with_key(sr, key) == with_key(r, key));
        }
    }
    out
}

} // verus!
