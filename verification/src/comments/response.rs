//! A comment together with what the content API reports around it.

use vstd::prelude::*;
use vstd::std_specs::cmp::PartialEqSpecImpl;

use crate::comments::comment::Comment;
use crate::comments::order::{
    key_lt, key_of, key_placement, place_ids, place_texts, Placement, ThreadKey,
};
use crate::community::Community;
use crate::counts::{count_or_zero, Counts};
use crate::path::{ancestor_in, parse};
use crate::posts::{Creator, Post};

verus! {

/// One entry of a comment listing: the comment, its author, its post, its community
/// and its statistics.
#[derive(Clone, Debug)]
pub struct CommentResponse {
    pub comment: Comment,
    pub creator: Creator,
    pub post: Post,
    pub community: Community,
    pub counts: Counts,
    pub creator_banned_from_community: bool,
    pub subscribed: String,
    pub saved: bool,
    pub creator_blocked: bool,
    pub level: Option<usize>,
}

/// The smaller of two lengths.
pub open spec fn shorter(a: nat, b: nat) -> nat {
    if a <= b {
        a
    } else {
        b
    }
}

impl CommentResponse {
    /// Whether every part is blank and no level is set.
    pub open spec fn is_blank(&self) -> bool {
        &&& self.comment.is_blank()
        &&& self.creator.is_blank()
        &&& self.post.is_blank()
        &&& self.community.is_blank()
        &&& self.counts.is_blank()
        &&& !self.creator_banned_from_community
        &&& self.subscribed@.len() == 0
        &&& !self.saved
        &&& !self.creator_blocked
        &&& self.level is None
    }

    /// The key by which thread order places this entry.
    pub open spec fn thread_key(&self) -> ThreadKey {
        key_of(
            self.comment.ids(),
            count_or_zero(self.counts.child_count),
            self.comment.id,
            self.comment.published@,
        )
    }

    /// The identifier that both paths hold at the last position of the shorter one.
    pub open spec fn shared_id(&self, rhs: &Self) -> bool {
        let a = self.comment.ids();
        let b = rhs.comment.ids();
        let last = shorter(a.len(), b.len()) - 1;
        a[last] == b[last]
    }

    /// Creates a blank entry.
    pub fn new() -> (response: Self)
        ensures
            response.is_blank(),
    {
        Self {
            comment: Comment::new(),
            creator: Creator::new(),
            post: Post::new(),
            community: Community::new(),
            counts: Counts::new(),
            creator_banned_from_community: false,
            subscribed: String::new(),
            saved: false,
            creator_blocked: false,
            level: None,
        }
    }

    /// Gets the level at which the entry is shown, or 0 where none is set.
    pub fn level(&self) -> (level: usize)
        ensures
            level == match self.level {
                Some(l) => l,
                None => 0,
            },
    {
        match self.level {
            Some(l) => l,
            None => 0,
        }
    }

    /// Sets the level at which the entry is shown.
    pub fn set_level(&mut self, level: usize)
        ensures
            *final(self) == (CommentResponse { level: Some(level), ..*old(self) }),
    {
        self.level = Some(level);
    }

    /// How this entry stands to `other` in thread order.
    pub fn placement(&self, other: &Self) -> (p: Placement)
        ensures
            p == key_placement(self.thread_key(), other.thread_key()),
            p == Placement::Same <==> self.thread_key() == other.thread_key(),
    {
        let a = parse(self.comment.path.as_str());
        let b = parse(other.comment.path.as_str());
        proof {
            crate::comments::order::lemma_key_total(self.thread_key(), other.thread_key());
            crate::comments::order::lemma_key_irreflexive(self.thread_key());
            if key_lt(self.thread_key(), other.thread_key()) {
                crate::comments::order::lemma_key_asymmetric(self.thread_key(), other.thread_key());
            }
        }
        let root_a = ancestor_in(&a, 0);
        let root_b = ancestor_in(&b, 0);
        if root_a != root_b {
            return if root_a < root_b {
                Placement::Before
            } else {
                Placement::After
            };
        }
        let chain_a = if a.len() >= 3 {
            vstd::slice::slice_subrange(a.as_slice(), 2, a.len() - 1)
        } else {
            vstd::slice::slice_subrange(a.as_slice(), 0, 0)
        };
        let chain_b = if b.len() >= 3 {
            vstd::slice::slice_subrange(b.as_slice(), 2, b.len() - 1)
        } else {
            vstd::slice::slice_subrange(b.as_slice(), 0, 0)
        };
        assert(chain_a@ =~= self.thread_key().chain);
        assert(chain_b@ =~= other.thread_key().chain);
        let by_chain = place_ids(chain_a, chain_b);
        if by_chain != Placement::Same {
            return by_chain;
        }
        let depth_a: usize = if a.len() >= 2 {
            a.len() - 2
        } else {
            0
        };
        let depth_b: usize = if b.len() >= 2 {
            b.len() - 2
        } else {
            0
        };
        if depth_a != depth_b {
            return if depth_a < depth_b {
                Placement::Before
            } else {
                Placement::After
            };
        }
        let children_a = self.counts.child_count();
        let children_b = other.counts.child_count();
        if children_a != children_b {
            return if children_a < children_b {
                Placement::Before
            } else {
                Placement::After
            };
        }
        if self.comment.id != other.comment.id {
            return if self.comment.id < other.comment.id {
                Placement::Before
            } else {
                Placement::After
            };
        }
        place_texts(self.comment.published.as_str(), other.comment.published.as_str())
    }

    /// Whether this entry comes strictly before `other` in thread order.
    pub fn precedes(&self, other: &Self) -> (before: bool)
        ensures
            before == key_lt(self.thread_key(), other.thread_key()),
    {
        self.placement(other) == Placement::Before
    }
}

impl PartialEq for CommentResponse {
    /// Two entries are equal where they are shown at the same level, were published
    /// at the same time and hold the same identifier at the last position of the
    /// shorter of their paths.
    fn eq(&self, rhs: &Self) -> (equal: bool) {
        let a = parse(self.comment.path.as_str());
        let b = parse(rhs.comment.path.as_str());
        let last: usize = if a.len() <= b.len() {
            a.len() - 1
        } else {
            b.len() - 1
        };
        self.level == rhs.level && a[last] == b[last] && self.comment.published
            == rhs.comment.published
    }
}

impl PartialEqSpecImpl for CommentResponse {
    open spec fn obeys_eq_spec() -> bool {
        true
    }

    open spec fn eq_spec(&self, rhs: &Self) -> bool {
        &&& self.level == rhs.level
        &&& self.shared_id(rhs)
        &&& self.comment.published@ == rhs.comment.published@
    }
}

impl Default for CommentResponse {
    fn default() -> (response: Self)
        ensures
            response.is_blank(),
    {
        CommentResponse::new()
    }
}

/// The comment entries of one response of the content API.
#[derive(Clone, Debug, PartialEq)]
pub struct CommentResponses {
    pub comments: Vec<CommentResponse>,
}

impl CommentResponses {
    /// Wraps a list of entries.
    pub fn new(comments: Vec<CommentResponse>) -> (responses: Self)
        ensures
            responses.comments == comments,
    {
        Self { comments }
    }

    /// Gets the entries.
    pub fn comments(&self) -> (comments: &[CommentResponse])
        ensures
            comments@ == self.comments@,
    {
        self.comments.as_slice()
    }
}

} // verus!
