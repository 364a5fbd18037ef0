//! A post together with what the content API reports around it, and the table of
//! posts that is browsed.

use vstd::prelude::*;
use vstd::std_specs::convert::FromSpecImpl;

use crate::counts::Counts;
use crate::posts::creator::Creator;
use crate::posts::post::Post;
use crate::selection::{position_after, position_before, step_back, step_forward};

verus! {

/// One entry of a post listing: the post, its author and its statistics.
#[derive(Clone, Debug, PartialEq)]
pub struct PostResponse {
    pub post: Post,
    pub creator: Creator,
    pub counts: Counts,
}

/// The post entries of one response of the content API.
#[derive(Clone, Debug, PartialEq)]
pub struct PostResponses {
    pub posts: Vec<PostResponse>,
}

/// A table of post entries with at most one of them selected.
#[derive(Clone, Debug)]
pub struct PostResponseTable {
    pub items: Vec<PostResponse>,
    pub selected: Option<usize>,
}

impl PostResponseTable {
    /// The selected entry, where one is selected and the table reaches that far.
    pub open spec fn current_entry(&self) -> Option<PostResponse> {
        match self.selected {
            Some(i) => if i < self.items.len() {
                Some(self.items@[i as int])
            } else {
                None
            },
            None => None,
        }
    }

    /// Creates a table of `items` with nothing selected.
    pub fn new(items: Vec<PostResponse>) -> (table: Self)
        ensures
            table.items == items,
            table.selected is None,
    {
        Self { items, selected: None }
    }

    /// Gets the entries.
    pub fn items(&self) -> (items: &[PostResponse])
        ensures
            items@ == self.items@,
    {
        self.items.as_slice()
    }

    /// Gets the position of the selected entry, if one is selected.
    pub fn state(&self) -> (selected: Option<usize>)
        ensures
            selected == self.selected,
    {
        self.selected
    }

    /// Gives access to the selection.
    pub fn state_mut(&mut self) -> (selected: &mut Option<usize>)
        ensures
            *selected == old(self).selected,
            *final(self) == (PostResponseTable { selected: *final(selected), ..*old(self) }),
    {
        &mut self.selected
    }

    /// Gets the selected entry, or nothing where none is selected or the selection
    /// lies beyond the entries.
    pub fn current(&self) -> (entry: Option<&PostResponse>)
        ensures
            match entry {
                Some(e) => self.current_entry() == Some(*e),
                None => self.current_entry() is None,
            },
    {
        match self.selected {
            Some(i) => if i < self.items.len() {
                Some(&self.items[i])
            } else {
                None
            },
            None => None,
        }
    }

    /// Gives access to the selected entry, or nothing where none is selected or the
    /// selection lies beyond the entries.
    pub fn current_mut(&mut self) -> (entry: Option<&mut PostResponse>)
        ensures
            match entry {
                Some(e) => {
                    &&& old(self).current_entry() == Some(*e)
                    &&& final(self).selected == old(self).selected
                    &&& final(self).items@ == old(self).items@.update(
                        old(self).selected.unwrap() as int,
                        *final(e),
                    )
                },
                None => old(self).current_entry() is None && *final(self) == *old(self),
            },
    {
        match self.selected {
            Some(i) => if i < self.items.len() {
                Some(&mut self.items[i])
            } else {
                None
            },
            None => None,
        }
    }

    /// Clears the selection.
    pub fn deselect(&mut self)
        ensures
            *final(self) == (PostResponseTable { selected: None, ..*old(self) }),
    {
        self.selected = None;
    }

    /// Selects the next entry, the first one after the last, and the first one where
    /// none is selected.
    pub fn next(&mut self)
        requires
            old(self).selected is Some ==> old(self).items.len() > 0,
        ensures
            *final(self) == (PostResponseTable {
                selected: Some(position_after(old(self).selected, old(self).items.len())),
                ..*old(self)
            }),
    {
        self.selected = Some(step_forward(self.selected, self.items.len()));
    }

    /// Selects the previous entry, the last one before the first, and the last one
    /// where none is selected. In an empty table that is position 0.
    pub fn previous(&mut self)
        ensures
            *final(self) == (PostResponseTable {
                selected: Some(position_before(old(self).selected, old(self).items.len())),
                ..*old(self)
            }),
    {
        self.selected = Some(step_back(self.selected, self.items.len()));
    }
}

impl From<Vec<PostResponse>> for PostResponseTable {
    fn from(val: Vec<PostResponse>) -> (table: Self) {
        PostResponseTable::new(val)
    }
}

impl FromSpecImpl<Vec<PostResponse>> for PostResponseTable {
    open spec fn obeys_from_spec() -> bool {
        true
    }

    open spec fn from_spec(val: Vec<PostResponse>) -> Self {
        PostResponseTable { items: val, selected: None }
    }
}

impl From<PostResponses> for PostResponseTable {
    fn from(val: PostResponses) -> (table: Self) {
        PostResponseTable::new(val.posts)
    }
}

impl FromSpecImpl<PostResponses> for PostResponseTable {
    open spec fn obeys_from_spec() -> bool {
        true
    }

    open spec fn from_spec(val: PostResponses) -> Self {
        PostResponseTable { items: val.posts, selected: None }
    }
}

} // verus!
