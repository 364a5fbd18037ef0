//! What holds of thread order and of sorting by it, for every collection.

use vstd::prelude::*;
use vstd::seq_lib::*;

use crate::comments::order::{
    is_ancestor_path, is_bare_pair, key_lt, lemma_ancestor_key_first, lemma_key_irreflexive,
    lemma_key_total, ThreadKey,
};
use crate::comments::response::CommentResponse;
use crate::comments::sort::{
    has_key, in_thread_order, is_thread_sort_of, lemma_with_key_none, with_key,
};
use crate::comments::table::{parent_of, CommentResponseTable};
use crate::path::{ancestor_of, lemma_path_extension, lemma_split_dots_nonempty, path_ids};

verus! {

/// Whether entries of `s` with the same key are the same entry: either no two entries
/// share a key, as where every comment has its own identifier, or those that do are
/// copies of each other.
pub open spec fn ties_are_copies(s: Seq<CommentResponse>) -> bool {
    forall|i: int, j: int|
        #![trigger s[i], s[j]]
        0 <= i < s.len() && 0 <= j < s.len() && s[i].thread_key() == s[j].thread_key() ==> s[i]
            == s[j]
}

/// An entry of `s` is among the entries of `s` with its key.
proof fn lemma_with_key_holds(s: Seq<CommentResponse>, i: int)
    requires
        0 <= i < s.len(),
    ensures
        with_key(s, s[i].thread_key()).len() > 0,
{
    let key = s[i].thread_key();
    assert((has_key(key))(s[i]));
    s.lemma_filter_contains(has_key(key), i);
}

/// The last entry of a sequence in thread order has the greatest key.
proof fn lemma_last_is_greatest(s: Seq<CommentResponse>, i: int)
    requires
        in_thread_order(s),
        0 <= i < s.len(),
    ensures
        !key_lt(s.last().thread_key(), s[i].thread_key()),
{
    if i < s.len() - 1 {
        assert(!key_lt(s[s.len() - 1].thread_key(), s[i].thread_key()));
    } else {
        lemma_key_irreflexive(s[i].thread_key());
    }
}

/// Two sequences in thread order that hold the same entries under every key, in the
/// same order, are the same sequence.
pub proof fn lemma_stable_order_unique(a: Seq<CommentResponse>, b: Seq<CommentResponse>)
    requires
        in_thread_order(a),
        in_thread_order(b),
        forall|key: ThreadKey| #[trigger] with_key(a, key) == with_key(b, key),
    ensures
        a == b,
    decreases a.len(),
{
    if a.len() == 0 || b.len() == 0 {
        if a.len() > 0 {
            lemma_with_key_holds(a, 0);
            lemma_with_key_none(b, a[0].thread_key());
        }
        if b.len() > 0 {
            lemma_with_key_holds(b, 0);
            lemma_with_key_none(a, b[0].thread_key());
        }
        assert(a =~= b);
    } else {
        let x = a.last();
        let y = b.last();
        let kx = x.thread_key();
        let ky = y.thread_key();
        lemma_with_key_holds(a, a.len() - 1);
        if forall|m: int| 0 <= m < b.len() ==> (#[trigger] b[m]).thread_key() != kx {
            lemma_with_key_none(b, kx);
        }
        let m = choose|m: int| 0 <= m < b.len() && (#[trigger] b[m]).thread_key() == kx;
        lemma_last_is_greatest(b, m);
        lemma_with_key_holds(b, b.len() - 1);
        if forall|n: int| 0 <= n < a.len() ==> (#[trigger] a[n]).thread_key() != ky {
            lemma_with_key_none(a, ky);
        }
        let n = choose|n: int| 0 <= n < a.len() && (#[trigger] a[n]).thread_key() == ky;
        lemma_last_is_greatest(a, n);
        lemma_key_total(kx, ky);
        let a0 = a.drop_last();
        let b0 = b.drop_last();
        assert(a0.push(x) =~= a);
        assert(b0.push(y) =~= b);
        assert forall|key: ThreadKey| #[trigger] with_key(a0, key) == with_key(b0, key) by {
            a0.lemma_filter_push(x, has_key(key));
            b0.lemma_filter_push(y, has_key(key));
            assert(with_key(a, key) == with_key(b, key));
            if key == kx {
                assert(with_key(a0, key).push(x) == with_key(b0, key).push(y));
                assert(with_key(a0, key) =~= with_key(a0, key).push(x).drop_last());
                assert(with_key(b0, key) =~= with_key(b0, key).push(y).drop_last());
            }
        }
        a0.lemma_filter_push(x, has_key(kx));
        b0.lemma_filter_push(y, has_key(kx));
        assert(with_key(a, kx) == with_key(b, kx));
        assert(x == with_key(a0, kx).push(x).last());
        assert(y == with_key(b0, kx).push(y).last());
        assert(in_thread_order(a0)) by {
            assert forall|i: int, j: int|
                #![trigger a0[i], a0[j]]
                0 <= i < j < a0.len() implies !key_lt(a0[j].thread_key(), a0[i].thread_key()) by {
                assert(a0[i] == a[i] && a0[j] == a[j]);
            }
        }
        assert(in_thread_order(b0)) by {
            assert forall|i: int, j: int|
                #![trigger b0[i], b0[j]]
                0 <= i < j < b0.len() implies !key_lt(b0[j].thread_key(), b0[i].thread_key()) by {
                assert(b0[i] == b[i] && b0[j] == b[j]);
            }
        }
        lemma_stable_order_unique(a0, b0);
        assert(a =~= b);
    }
}

/// Sorting has one result: two sequences that are both the stable thread sort of the
/// same input are equal.
pub proof fn lemma_thread_sort_unique(
    input: Seq<CommentResponse>,
    a: Seq<CommentResponse>,
    b: Seq<CommentResponse>,
)
    requires
        is_thread_sort_of(a, input),
        is_thread_sort_of(b, input),
    ensures
        a == b,
{
    assert forall|key: ThreadKey| #[trigger] with_key(a, key) == with_key(b, key) by {
        assert(with_key(a, key) == with_key(input, key));
        assert(with_key(b, key) == with_key(input, key));
    }
    lemma_stable_order_unique(a, b);
}

/// Sorting changes nothing that is sorted: the stable thread sort of a sequence that
/// is in thread order is that sequence. So sorting twice gives what sorting once
/// gives.
pub proof fn lemma_sort_idempotent(sorted: Seq<CommentResponse>, again: Seq<CommentResponse>)
    requires
        in_thread_order(sorted),
        is_thread_sort_of(again, sorted),
    ensures
        again == sorted,
{
    lemma_stable_order_unique(again, sorted);
}

/// A sequence whose ties are copies keeps that property when its last entry goes.
proof fn lemma_ties_drop_last(s: Seq<CommentResponse>)
    requires
        ties_are_copies(s),
        s.len() > 0,
    ensures
        ties_are_copies(s.drop_last()),
{
    let s0 = s.drop_last();
    assert forall|i: int, j: int|
        #![trigger s0[i], s0[j]]
        0 <= i < s0.len() && 0 <= j < s0.len() && s0[i].thread_key()
            == s0[j].thread_key() implies s0[i] == s0[j] by {
        assert(s0[i] == s[i] && s0[j] == s[j]);
    }
}

/// A sequence in thread order stays in thread order when its last entry goes.
proof fn lemma_order_drop_last(s: Seq<CommentResponse>)
    requires
        in_thread_order(s),
        s.len() > 0,
    ensures
        in_thread_order(s.drop_last()),
{
    let s0 = s.drop_last();
    assert forall|i: int, j: int|
        #![trigger s0[i], s0[j]]
        0 <= i < j < s0.len() implies !key_lt(s0[j].thread_key(), s0[i].thread_key()) by {
        assert(s0[i] == s[i] && s0[j] == s[j]);
    }
}

/// Two sequences in thread order that hold the same entries, each as often as the
/// other does, are the same sequence, provided that entries with the same key are
/// copies of each other.
pub proof fn lemma_order_unique(a: Seq<CommentResponse>, b: Seq<CommentResponse>)
    requires
        in_thread_order(a),
        in_thread_order(b),
        a.to_multiset() == b.to_multiset(),
        ties_are_copies(a),
    ensures
        a == b,
    decreases a.len(),
{
    broadcast use vstd::multiset::group_multiset_axioms;

    to_multiset_len(a);
    to_multiset_len(b);
    if a.len() == 0 {
        assert(a =~= b);
    } else {
        let x = a.last();
        let y = b.last();
        to_multiset_contains(a, x);
        to_multiset_contains(b, x);
        to_multiset_contains(a, y);
        to_multiset_contains(b, y);
        assert(a.contains(x)) by {
            assert(a[a.len() - 1] == x);
        }
        assert(b.contains(y)) by {
            assert(b[b.len() - 1] == y);
        }
        let m = choose|m: int| 0 <= m < b.len() && b[m] == x;
        let n = choose|n: int| 0 <= n < a.len() && a[n] == y;
        lemma_last_is_greatest(b, m);
        lemma_last_is_greatest(a, n);
        lemma_key_total(x.thread_key(), y.thread_key());
        assert(a[n] == a[a.len() - 1]);
        assert(x == y);
        let a0 = a.drop_last();
        let b0 = b.drop_last();
        assert(a0.push(x) =~= a);
        assert(b0.push(y) =~= b);
        to_multiset_build(a0, x);
        to_multiset_build(b0, y);
        assert(a0.to_multiset() =~= b0.to_multiset()) by {
            assert forall|v: CommentResponse| a0.to_multiset().count(v) == b0.to_multiset().count(
                v,
            ) by {
                assert(a0.to_multiset().insert(x).count(v) == b0.to_multiset().insert(x).count(v));
            }
        }
        lemma_ties_drop_last(a);
        lemma_order_drop_last(a);
        lemma_order_drop_last(b);
        lemma_order_unique(a0, b0);
        assert(a =~= b);
    }
}

/// The order in which the entries arrive does not matter: two collections that hold
/// the same entries, each as often as the other does, sort to the same sequence,
/// provided that entries with the same key are copies of each other.
pub proof fn lemma_sort_deterministic(
    first: Seq<CommentResponse>,
    second: Seq<CommentResponse>,
    sorted_first: Seq<CommentResponse>,
    sorted_second: Seq<CommentResponse>,
)
    requires
        first.to_multiset() == second.to_multiset(),
        ties_are_copies(first),
        is_thread_sort_of(sorted_first, first),
        is_thread_sort_of(sorted_second, second),
    ensures
        sorted_first == sorted_second,
{
    assert forall|i: int, j: int|
        #![trigger sorted_first[i], sorted_first[j]]
        0 <= i < sorted_first.len() && 0 <= j < sorted_first.len()
            && sorted_first[i].thread_key()
            == sorted_first[j].thread_key() implies sorted_first[i] == sorted_first[j] by {
        let x = sorted_first[i];
        let y = sorted_first[j];
        to_multiset_contains(sorted_first, x);
        to_multiset_contains(sorted_first, y);
        to_multiset_contains(first, x);
        to_multiset_contains(first, y);
        assert(sorted_first.contains(x));
        assert(sorted_first.contains(y));
        let m = choose|m: int| 0 <= m < first.len() && first[m] == x;
        let n = choose|n: int| 0 <= n < first.len() && first[n] == y;
        assert(first[m] == first[n]);
    }
    lemma_order_unique(sorted_first, sorted_second);
}

/// Ancestors come first: in a sequence in thread order, an entry whose path is a
/// proper beginning of another entry's path stands before that entry. The one
/// exception is a path of the sentinel alone against that path with identifier 0
/// added.
pub proof fn lemma_ancestor_before_descendant(s: Seq<CommentResponse>, i: int, j: int)
    requires
        in_thread_order(s),
        0 <= i < s.len(),
        0 <= j < s.len(),
        is_ancestor_path(s[i].comment.ids(), s[j].comment.ids()),
        !is_bare_pair(s[i].comment.ids(), s[j].comment.ids()),
    ensures
        i < j,
{
    let a = s[i];
    let b = s[j];
    lemma_ancestor_key_first(
        a.comment.ids(),
        a.thread_key().child_count,
        a.comment.id,
        a.comment.published@,
        b.comment.ids(),
        b.thread_key().child_count,
        b.comment.id,
        b.comment.published@,
    );
    if j < i {
        assert(!key_lt(s[i].thread_key(), s[j].thread_key()));
    }
}

/// A reply's path names its parent as an ancestor: where the path of `b` is the path
/// of `a`, a dot and more, the identifiers of `a` are a proper beginning of those of
/// `b`.
pub proof fn lemma_reply_path_is_descendant(a: Seq<char>, rest: Seq<char>)
    ensures
        is_ancestor_path(path_ids(a), path_ids(a + seq!['.'] + rest)),
{
    lemma_path_extension(a, rest);
    lemma_split_dots_nonempty(a);
    lemma_split_dots_nonempty(rest);
    let b = path_ids(a + seq!['.'] + rest);
    assert(b.take(path_ids(a).len() as int) =~= path_ids(a));
}

/// Going one level down and up again ends on the level where it began, unless that
/// was the highest level there is. Nothing but the comment whose replies are shown
/// can have changed, and that comment is the same as before exactly where the first
/// entry for the comment entered names it on the old level, or, where there is no
/// such entry, it was 0.
pub proof fn lemma_enter_then_exit(view: CommentResponseTable)
    requires
        view.level < usize::MAX,
    ensures
        view.after_enter_child().after_go_to_parent() == (CommentResponseTable {
            comment_id: parent_of(view.items@, view.child_focus(), view.level as nat),
            ..view
        }),
        view.after_enter_child().after_go_to_parent().level == view.level,
        view.after_enter_child().after_go_to_parent() == view <==> parent_of(
            view.items@,
            view.child_focus(),
            view.level as nat,
        ) == view.comment_id,
{
}

/// The first entry with the identifier `id` decides what `parent_of` gives.
proof fn lemma_parent_of_first(items: Seq<CommentResponse>, id: u64, level: nat, i: int)
    requires
        0 <= i < items.len(),
        items[i].comment.id == id,
        forall|j: int| 0 <= j < i ==> (#[trigger] items[j]).comment.id != id,
    ensures
        parent_of(items, id, level) == ancestor_of(items[i].comment.ids(), level),
    decreases i,
{
    if i > 0 {
        assert(items[0].comment.id != id);
        let rest = items.drop_first();
        assert(rest[i - 1] == items[i]);
        assert forall|j: int| 0 <= j < i - 1 implies (#[trigger] rest[j]).comment.id != id by {
            assert(rest[j] == items[j + 1]);
        }
        lemma_parent_of_first(rest, id, level, i - 1);
    }
}

/// Round trip in a tree: a view shows the replies to a comment, an entry below that
/// comment is selected, and the entries hold the selected entry's ancestor on the
/// next level under a path that begins the selected entry's path. Then going one
/// level down and up again restores the view.
pub proof fn lemma_round_trip_in_tree(view: CommentResponseTable, parent: int)
    requires
        view.level < usize::MAX,
        view.current_entry() is Some,
        view.comment_id == ancestor_of(
            view.current_entry().unwrap().comment.ids(),
            view.level as nat,
        ),
        0 <= parent < view.items.len(),
        view.items@[parent].comment.id == view.child_focus(),
        forall|j: int| 0 <= j < parent ==> (#[trigger] view.items@[j]).comment.id != view.child_focus(),
        is_ancestor_path(
            view.items@[parent].comment.ids(),
            view.current_entry().unwrap().comment.ids(),
        ) || view.items@[parent].comment.ids() == view.current_entry().unwrap().comment.ids(),
        view.level + 1 < view.items@[parent].comment.ids().len(),
    ensures
        view.after_enter_child().after_go_to_parent() == view,
{
    lemma_parent_of_first(view.items@, view.child_focus(), view.level as nat, parent);
    lemma_enter_then_exit(view);
}

} // verus!
