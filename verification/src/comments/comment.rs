//! A single comment on a post, and a selectable list of comments.

use vstd::prelude::*;
use vstd::std_specs::convert::FromSpecImpl;

use crate::path::{ancestor_of, chain_of, depth_of, is_position_of, parse, path_ids};
use crate::selection::{in_range, position_after, position_before, step_back, step_forward};

verus! {

/// A comment on a post, as the content API reports it.
#[derive(Clone, Debug, PartialEq)]
pub struct Comment {
    pub id: u64,
    pub creator_id: u64,
    pub post_id: u64,
    pub content: String,
    pub removed: bool,
    pub published: String,
    pub deleted: bool,
    pub ap_id: String,
    pub local: bool,
    pub path: String,
    pub distinguished: bool,
    pub language_id: u64,
}

impl Comment {
    /// Whether every field holds its empty value: 0, `false` or the empty string.
    pub open spec fn is_blank(&self) -> bool {
        &&& self.id == 0
        &&& self.creator_id == 0
        &&& self.post_id == 0
        &&& self.content@.len() == 0
        &&& !self.removed
        &&& self.published@.len() == 0
        &&& !self.deleted
        &&& self.ap_id@.len() == 0
        &&& !self.local
        &&& self.path@.len() == 0
        &&& !self.distinguished
        &&& self.language_id == 0
    }

    /// The identifiers along this comment's ancestry path.
    pub open spec fn ids(&self) -> Seq<u64> {
        path_ids(self.path@)
    }

    /// Creates a blank comment.
    pub fn new() -> (comment: Self)
        ensures
            comment.is_blank(),
    {
        Self {
            id: 0,
            creator_id: 0,
            post_id: 0,
            content: String::new(),
            removed: false,
            published: String::new(),
            deleted: false,
            ap_id: String::new(),
            local: false,
            path: String::new(),
            distinguished: false,
            language_id: 0,
        }
    }

    /// Gets the comment's identifier.
    pub fn id(&self) -> (id: u64)
        ensures
            id == self.id,
    {
        self.id
    }

    /// Gets the identifier of the comment's author.
    pub fn creator_id(&self) -> (id: u64)
        ensures
            id == self.creator_id,
    {
        self.creator_id
    }

    /// Gets the identifier of the post that the comment belongs to.
    pub fn post_id(&self) -> (id: u64)
        ensures
            id == self.post_id,
    {
        self.post_id
    }

    /// Gets the comment's text.
    pub fn content(&self) -> (text: &str)
        ensures
            text@ == self.content@,
    {
        self.content.as_str()
    }

    /// Gets whether the comment is deleted.
    pub fn deleted(&self) -> (flag: bool)
        ensures
            flag == self.deleted,
    {
        self.deleted
    }

    /// Gets the comment's federation identifier.
    pub fn ap_id(&self) -> (text: &str)
        ensures
            text@ == self.ap_id@,
    {
        self.ap_id.as_str()
    }

    /// Gets whether the comment is local to the instance.
    pub fn local(&self) -> (flag: bool)
        ensures
            flag == self.local,
    {
        self.local
    }

    /// Gets the comment's ancestry path.
    pub fn path(&self) -> (text: &str)
        ensures
            text@ == self.path@,
    {
        self.path.as_str()
    }

    /// Gets whether the comment is distinguished.
    pub fn distinguished(&self) -> (flag: bool)
        ensures
            flag == self.distinguished,
    {
        self.distinguished
    }

    /// Gets the identifier of the comment's language.
    pub fn language_id(&self) -> (id: u64)
        ensures
            id == self.language_id,
    {
        self.language_id
    }

    /// How deep below its post the comment sits; a top-level comment has depth 0.
    pub fn depth(&self) -> (d: usize)
        ensures
            d == depth_of(self.ids()),
    {
        crate::path::depth(self.path.as_str())
    }

    /// The comment's top-level ancestor, or 0 where the path names none.
    pub fn root_ancestor_id(&self) -> (id: u64)
        ensures
            id == ancestor_of(self.ids(), 0),
    {
        crate::path::ancestor_at(self.path.as_str(), 0)
    }

    /// The ancestor that the path names on level `level`, or 0 where it does not reach
    /// that far.
    pub fn parent_id_at(&self, level: usize) -> (id: u64)
        ensures
            id == ancestor_of(self.ids(), level as nat),
    {
        crate::path::ancestor_at(self.path.as_str(), level)
    }

    /// The ancestors strictly between the top-level ancestor and the comment itself,
    /// outermost first.
    pub fn ancestor_chain(&self) -> (chain: Vec<u64>)
        ensures
            chain@ == chain_of(self.ids()),
    {
        let ids = parse(self.path.as_str());
        let mut chain: Vec<u64> = Vec::new();
        if ids.len() >= 3 {
            let end: usize = ids.len() - 1;
            let mut i: usize = 2;
            while i < end
                invariant
                    2 <= i <= end,
                    end == ids.len() - 1,
                    chain@ == ids@.subrange(2, i as int),
                decreases end - i,
            {
                chain.push(ids[i]);
                assert(chain@ =~= ids@.subrange(2, i + 1));
                i = i + 1;
            }
        }
        assert(chain@ =~= chain_of(ids@));
        chain
    }

    /// Where the comment's own identifier first occurs in its path, or 0 where the
    /// path does not hold it.
    pub fn own_position(&self) -> (pos: usize)
        ensures
            is_position_of(self.ids(), self.id, pos as nat),
    {
        let ids = parse(self.path.as_str());
        let mut i: usize = 0;
        while i < ids.len()
            invariant
                i <= ids.len(),
                ids@ == self.ids(),
                forall|j: int| 0 <= j < i ==> ids@[j] != self.id,
            decreases ids.len() - i,
        {
            if ids[i] == self.id {
                assert(ids@.contains(self.id));
                return i;
            }
            i = i + 1;
        }
        0
    }
}

impl Default for Comment {
    fn default() -> (comment: Self)
        ensures
            comment.is_blank(),
    {
        Comment::new()
    }
}

/// A list of comments with at most one of them selected.
#[derive(Clone, Debug)]
pub struct CommentList {
    pub items: Vec<Comment>,
    pub selected: Option<usize>,
}

impl CommentList {
    /// Creates a list of `items` with nothing selected.
    pub fn new(items: Vec<Comment>) -> (list: Self)
        ensures
            list.items == items,
            list.selected is None,
    {
        Self { items, selected: None }
    }

    /// Gets the items.
    pub fn items(&self) -> (items: &[Comment])
        ensures
            items@ == self.items@,
    {
        self.items.as_slice()
    }

    /// Gets the position of the selected item, if one is selected.
    pub fn state(&self) -> (selected: Option<usize>)
        ensures
            selected == self.selected,
    {
        self.selected
    }

    /// Gives access to the selection.
    pub fn state_mut(&mut self) -> (selected: &mut Option<usize>)
        ensures
            *selected == old(self).selected,
            *final(self) == (CommentList { selected: *final(selected), ..*old(self) }),
    {
        &mut self.selected
    }

    /// Gets the selected item, if one is selected.
    pub fn current(&self) -> (item: Option<&Comment>)
        requires
            in_range(self.selected, self.items.len()),
        ensures
            match self.selected {
                Some(i) => item == Some(&self.items@[i as int]),
                None => item is None,
            },
    {
        match self.selected {
            Some(i) => Some(&self.items[i]),
            None => None,
        }
    }

    /// Clears the selection.
    pub fn deselect(&mut self)
        ensures
            *final(self) == (CommentList { selected: None, ..*old(self) }),
    {
        self.selected = None;
    }

    /// Selects the next item, the first one after the last, and the first one where
    /// none is selected.
    pub fn next(&mut self)
        requires
            old(self).selected is Some ==> old(self).items.len() > 0,
        ensures
            *final(self) == (CommentList {
                selected: Some(position_after(old(self).selected, old(self).items.len())),
                ..*old(self)
            }),
    {
        self.selected = Some(step_forward(self.selected, self.items.len()));
    }

    /// Selects the previous item, the last one before the first, and the last one
    /// where none is selected.
    pub fn previous(&mut self)
        requires
            old(self).items.len() > 0,
        ensures
            *final(self) == (CommentList {
                selected: Some(position_before(old(self).selected, old(self).items.len())),
                ..*old(self)
            }),
    {
        self.selected = Some(step_back(self.selected, self.items.len()));
    }
}

impl From<Vec<Comment>> for CommentList {
    fn from(val: Vec<Comment>) -> (list: Self) {
        CommentList::new(val)
    }
}

impl FromSpecImpl<Vec<Comment>> for CommentList {
    open spec fn obeys_from_spec() -> bool {
        true
    }

    open spec fn from_spec(val: Vec<Comment>) -> Self {
        CommentList { items: val, selected: None }
    }
}

} // verus!
