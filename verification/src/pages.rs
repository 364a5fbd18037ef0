//! Fetching a post's comments page by page: how many pages there are, how many
//! comments each should hold, and how the pages join into one collection.

use vstd::prelude::*;

use crate::comments::{CommentResponse, CommentResponses};

verus! {

/// The number of comments asked for with each page.
pub const PAGE_SIZE: u64 = 50;

/// The number of pages that `count` comments take: `count / PAGE_SIZE`, rounded up.
pub open spec fn pages_for(count: nat) -> nat {
    if count % (PAGE_SIZE as nat) == 0 {
        count / (PAGE_SIZE as nat)
    } else {
        count / (PAGE_SIZE as nat) + 1
    }
}

/// The number of comments that page `page` should hold when a post has `count`
/// comments. Pages count from 1; all are full but the last, which holds what is left.
pub open spec fn comments_on_page(count: nat, page: nat) -> nat {
    if 1 <= page <= count / (PAGE_SIZE as nat) {
        PAGE_SIZE as nat
    } else if page == count / (PAGE_SIZE as nat) + 1 {
        count % (PAGE_SIZE as nat)
    } else {
        0
    }
}

/// The number of comments on the pages 1 to `pages` of a post with `count` comments.
pub open spec fn comments_up_to(count: nat, pages: nat) -> nat
    decreases pages,
{
    if pages == 0 {
        0
    } else {
        comments_up_to(count, (pages - 1) as nat) + comments_on_page(count, pages)
    }
}

/// The entries of `pages` joined in the order of the pages.
pub open spec fn joined(pages: Seq<CommentResponses>) -> Seq<CommentResponse>
    decreases pages.len(),
{
    if pages.len() == 0 {
        Seq::<CommentResponse>::empty()
    } else {
        joined(pages.drop_last()) + pages.last().comments@
    }
}

/// The number of pages to fetch for a post that reports `count` comments.
pub fn page_count(count: u64) -> (pages: u64)
    ensures
        pages == pages_for(count as nat),
{
    let full: u64 = count / PAGE_SIZE;
    if count % PAGE_SIZE > 0 {
        full + 1
    } else {
        full
    }
}

/// The number of comments to expect on page `page`, counted from 1, for a post that
/// reports `count` comments.
pub fn page_len(count: u64, page: u64) -> (len: u64)
    ensures
        len == comments_on_page(count as nat, page as nat),
{
    let full: u64 = count / PAGE_SIZE;
    if 1 <= page && page <= full {
        PAGE_SIZE
    } else if page == full + 1 {
        count % PAGE_SIZE
    } else {
        0
    }
}

/// Joins the pages of one post into one collection, in the order of the pages, with
/// each page's entries in the order in which the page holds them.
pub fn merge_pages(pages: Vec<CommentResponses>) -> (merged: CommentResponses)
    ensures
        merged.comments@ == joined(pages@),
{
    let ghost all = pages@;
    let mut pages = pages;
    let mut stack: Vec<CommentResponses> = Vec::new();
    while pages.len() > 0
        invariant
            pages.len() <= all.len(),
            pages@ == all.take(pages.len() as int),
            stack@ == all.skip(pages.len() as int).reverse(),
        decreases pages.len(),
    {
        let ghost n = pages.len() as int;
        let page = pages.pop().unwrap();
        stack.push(page);
        proof {
            assert(pages@ =~= all.take(n - 1));
            assert(stack@ =~= all.skip(n - 1).reverse());
        }
    }
    let mut comments: Vec<CommentResponse> = Vec::new();
    let ghost mut done: int = 0;
    proof {
        assert(all.skip(0) =~= all);
        assert(all.take(0) =~= Seq::<CommentResponses>::empty());
    }
    while stack.len() > 0
        invariant
            0 <= done <= all.len(),
            stack.len() == all.len() - done,
            stack@ == all.skip(done).reverse(),
            comments@ == joined(all.take(done)),
        decreases stack.len(),
    {
        let mut page = stack.pop().unwrap();
        proof {
            assert(page == all[done]);
            assert(all.take(done + 1).drop_last() =~= all.take(done));
            assert(all.take(done + 1).last() == all[done]);
        }
        comments.append(&mut page.comments);
        proof {
            done = done + 1;
            assert(stack@ =~= all.skip(done).reverse());
        }
    }
    proof {
        assert(all.take(done) =~= all);
    }
    CommentResponses::new(comments)
}

/// The pages hold every comment once: up to the last page, the expected page sizes
/// add up to the number of comments.
pub proof fn lemma_pages_hold_all(count: nat)
    ensures
        comments_up_to(count, pages_for(count)) == count,
        count > 0 ==> count <= pages_for(count) * 50 < count + 50,
{
    lemma_full_pages(count, count / 50);
    if count % 50 != 0 {
        assert(comments_up_to(count, count / 50 + 1) == comments_up_to(count, count / 50)
            + comments_on_page(count, count / 50 + 1));
    }
}

/// The first `pages` pages are full where the post has at least that many full pages.
proof fn lemma_full_pages(count: nat, pages: nat)
    requires
        pages <= count / 50,
    ensures
        comments_up_to(count, pages) == pages * 50,
    decreases pages,
{
    if pages > 0 {
        lemma_full_pages(count, (pages - 1) as nat);
    }
}

} // verus!
