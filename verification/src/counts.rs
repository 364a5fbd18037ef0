//! Count statistics that the content API attaches to posts and comments, and a
//! selectable list of them.

use vstd::prelude::*;

use crate::selection::{in_range, position_after, position_before, step_back, step_forward};
use crate::text::{str_or_empty, text_or_empty};

verus! {

/// The value of an optional count, with 0 for an absent one.
pub open spec fn count_or_zero(count: Option<u64>) -> u64 {
    match count {
        Some(n) => n,
        None => 0,
    }
}

/// The value of an optional flag, with `false` for an absent one.
pub open spec fn flag_or_false(flag: Option<bool>) -> bool {
    match flag {
        Some(b) => b,
        None => false,
    }
}

/// Count statistics for a post or a comment.
#[derive(Clone, Debug, PartialEq)]
pub struct Counts {
    pub id: Option<u64>,
    pub post_id: Option<u64>,
    pub comment_id: Option<u64>,
    pub comments: Option<u64>,
    pub score: i64,
    pub upvotes: u64,
    pub downvotes: u64,
    pub published: String,
    pub newest_comment_time_necro: Option<String>,
    pub newest_comment_time: Option<String>,
    pub featured_community: Option<bool>,
    pub featured_local: Option<bool>,
    pub hot_rank: Option<u64>,
    pub hot_rank_active: Option<u64>,
    pub child_count: Option<u64>,
}

impl Counts {
    /// Whether every optional field is absent and every other field holds its empty
    /// value.
    pub open spec fn is_blank(&self) -> bool {
        &&& self.id is None
        &&& self.post_id is None
        &&& self.comment_id is None
        &&& self.comments is None
        &&& self.score == 0
        &&& self.upvotes == 0
        &&& self.downvotes == 0
        &&& self.published@.len() == 0
        &&& self.newest_comment_time_necro is None
        &&& self.newest_comment_time is None
        &&& self.featured_community is None
        &&& self.featured_local is None
        &&& self.hot_rank is None
        &&& self.hot_rank_active is None
        &&& self.child_count is None
    }

    /// Creates blank statistics.
    pub fn new() -> (counts: Counts)
        ensures
            counts.is_blank(),
    {
        Self {
            id: None,
            post_id: None,
            comment_id: None,
            comments: None,
            score: 0,
            upvotes: 0,
            downvotes: 0,
            published: String::new(),
            newest_comment_time_necro: None,
            newest_comment_time: None,
            featured_community: None,
            featured_local: None,
            hot_rank: None,
            hot_rank_active: None,
            child_count: None,
        }
    }

    /// Gets the identifier of the statistics, or 0 where there is none.
    pub fn id(&self) -> (id: u64)
        ensures
            id == count_or_zero(self.id),
    {
        match self.id {
            Some(n) => n,
            None => 0,
        }
    }

    /// Gets whether the statistics are for a post.
    pub fn for_post(&self) -> (flag: bool)
        ensures
            flag == self.post_id is Some,
    {
        self.post_id.is_some()
    }

    /// Gets the identifier of the post, or 0 where the statistics are not for a post.
    pub fn post_id(&self) -> (id: u64)
        ensures
            id == count_or_zero(self.post_id),
    {
        match self.post_id {
            Some(n) => n,
            None => 0,
        }
    }

    /// Gets whether the statistics are for a comment.
    pub fn for_comment(&self) -> (flag: bool)
        ensures
            flag == self.comment_id is Some,
    {
        self.comment_id.is_some()
    }

    /// Gets the identifier of the comment, or 0 where the statistics are not for a
    /// comment.
    pub fn comment_id(&self) -> (id: u64)
        ensures
            id == count_or_zero(self.comment_id),
    {
        match self.comment_id {
            Some(n) => n,
            None => 0,
        }
    }

    /// Gets the number of comments, or 0 where none is reported.
    pub fn comments(&self) -> (n: u64)
        ensures
            n == count_or_zero(self.comments),
    {
        match self.comments {
            Some(n) => n,
            None => 0,
        }
    }

    /// Gets the score.
    pub fn score(&self) -> (n: i64)
        ensures
            n == self.score,
    {
        self.score
    }

    /// Gets the number of upvotes.
    pub fn upvotes(&self) -> (n: u64)
        ensures
            n == self.upvotes,
    {
        self.upvotes
    }

    /// Gets the number of downvotes.
    pub fn downvotes(&self) -> (n: u64)
        ensures
            n == self.downvotes,
    {
        self.downvotes
    }

    /// Gets the publication time.
    pub fn published(&self) -> (text: &str)
        ensures
            text@ == self.published@,
    {
        self.published.as_str()
    }

    /// Gets the time of the newest comment, old threads included, or the empty string
    /// where none is reported.
    pub fn newest_comment_time_necro(&self) -> (text: &str)
        ensures
            text@ == text_or_empty(self.newest_comment_time_necro),
    {
        str_or_empty(&self.newest_comment_time_necro)
    }

    /// Gets the time of the newest comment, or the empty string where none is
    /// reported.
    pub fn newest_comment_time(&self) -> (text: &str)
        ensures
            text@ == text_or_empty(self.newest_comment_time),
    {
        str_or_empty(&self.newest_comment_time)
    }

    /// Gets whether the item is featured in its community.
    pub fn featured_community(&self) -> (flag: bool)
        ensures
            flag == flag_or_false(self.featured_community),
    {
        match self.featured_community {
            Some(b) => b,
            None => false,
        }
    }

    /// Gets whether the item is featured on its instance.
    pub fn featured_local(&self) -> (flag: bool)
        ensures
            flag == flag_or_false(self.featured_local),
    {
        match self.featured_local {
            Some(b) => b,
            None => false,
        }
    }

    /// Gets the hot rank, or 0 where none is reported.
    pub fn hot_rank(&self) -> (n: u64)
        ensures
            n == count_or_zero(self.hot_rank),
    {
        match self.hot_rank {
            Some(n) => n,
            None => 0,
        }
    }

    /// Gets the active hot rank, or 0 where none is reported.
    pub fn hot_rank_active(&self) -> (n: u64)
        ensures
            n == count_or_zero(self.hot_rank_active),
    {
        match self.hot_rank_active {
            Some(n) => n,
            None => 0,
        }
    }

    /// Gets the number of direct children of a comment, or 0 where none is reported.
    pub fn child_count(&self) -> (n: u64)
        ensures
            n == count_or_zero(self.child_count),
    {
        match self.child_count {
            Some(n) => n,
            None => 0,
        }
    }
}

impl Default for Counts {
    fn default() -> (counts: Self)
        ensures
            counts.is_blank(),
    {
        Counts::new()
    }
}

/// A list of count statistics with at most one of them selected.
#[derive(Clone, Debug)]
pub struct Countss {
    pub items: Vec<Counts>,
    pub selected: Option<usize>,
}

impl Countss {
    /// Creates a list of `items` with nothing selected.
    pub fn new(items: Vec<Counts>) -> (list: Self)
        ensures
            list.items == items,
            list.selected is None,
    {
        Self { items, selected: None }
    }

    /// Gets the items.
    pub fn items(&self) -> (items: &[Counts])
        ensures
            items@ == self.items@,
    {
        self.items.as_slice()
    }

    /// Gets the position of the selected item, if one is selected.
    pub fn state(&self) -> (selected: Option<usize>)
        ensures
            selected == self.selected,
    {
        self.selected
    }

    /// Gives access to the selection.
    pub fn state_mut(&mut self) -> (selected: &mut Option<usize>)
        ensures
            *selected == old(self).selected,
            *final(self) == (Countss { selected: *final(selected), ..*old(self) }),
    {
        &mut self.selected
    }

    /// Gets the selected item, if one is selected.
    pub fn current(&self) -> (item: Option<&Counts>)
        requires
            in_range(self.selected, self.items.len()),
        ensures
            match self.selected {
                Some(i) => item == Some(&self.items@[i as int]),
                None => item is None,
            },
    {
        match self.selected {
            Some(i) => Some(&self.items[i]),
            None => None,
        }
    }

    /// Clears the selection.
    pub fn deselect(&mut self)
        ensures
            *final(self) == (Countss { selected: None, ..*old(self) }),
    {
        self.selected = None;
    }

    /// Selects the next item, the first one after the last, and the first one where
    /// none is selected.
    pub fn next(&mut self)
        requires
            old(self).selected is Some ==> old(self).items.len() > 0,
        ensures
            *final(self) == (Countss {
                selected: Some(position_after(old(self).selected, old(self).items.len())),
                ..*old(self)
            }),
    {
        self.selected = Some(step_forward(self.selected, self.items.len()));
    }

    /// Selects the previous item, the last one before the first, and the last one
    /// where none is selected.
    pub fn previous(&mut self)
        requires
            old(self).items.len() > 0,
        ensures
            *final(self) == (Countss {
                selected: Some(position_before(old(self).selected, old(self).items.len())),
                ..*old(self)
            }),
    {
        self.selected = Some(step_back(self.selected, self.items.len()));
    }
}

} // verus!
