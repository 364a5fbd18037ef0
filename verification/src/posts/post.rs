//! A post, and a selectable list of posts.

use vstd::prelude::*;

use crate::selection::{in_range, position_after, position_before, step_back, step_forward};
use crate::text::{str_or_empty, text_or_empty};

verus! {

/// A post, as the content API reports it.
#[derive(Clone, Debug, PartialEq)]
pub struct Post {
    pub id: u64,
    pub name: String,
    pub url: Option<String>,
    pub deleted: bool,
    pub nsfw: bool,
    pub thumbnail_url: Option<String>,
    pub ap_id: String,
    pub body: Option<String>,
    pub sorted: Option<bool>,
}

impl Post {
    /// Whether every optional field is absent and every other field holds its empty
    /// value.
    pub open spec fn is_blank(&self) -> bool {
        &&& self.id == 0
        &&& self.name@.len() == 0
        &&& self.url is None
        &&& !self.deleted
        &&& !self.nsfw
        &&& self.thumbnail_url is None
        &&& self.ap_id@.len() == 0
        &&& self.body is None
        &&& self.sorted is None
    }

    /// Creates a blank post.
    pub fn new() -> (post: Self)
        ensures
            post.is_blank(),
    {
        Self {
            id: 0,
            name: String::new(),
            url: None,
            deleted: false,
            nsfw: false,
            thumbnail_url: None,
            ap_id: String::new(),
            body: None,
            sorted: None,
        }
    }

    /// Gets the post's title.
    pub fn name(&self) -> (text: &str)
        ensures
            text@ == self.name@,
    {
        self.name.as_str()
    }

    /// Gets the post's identifier.
    pub fn id(&self) -> (id: u64)
        ensures
            id == self.id,
    {
        self.id
    }

    /// Gets the address that the post links to, or the empty string where there is
    /// none.
    pub fn url(&self) -> (text: &str)
        ensures
            text@ == text_or_empty(self.url),
    {
        str_or_empty(&self.url)
    }

    /// Gets the post's text, or the empty string where there is none.
    pub fn body(&self) -> (text: &str)
        ensures
            text@ == text_or_empty(self.body),
    {
        str_or_empty(&self.body)
    }

    /// Gets the address of the post's thumbnail, or the empty string where there is
    /// none.
    pub fn thumbnail_url(&self) -> (text: &str)
        ensures
            text@ == text_or_empty(self.thumbnail_url),
    {
        str_or_empty(&self.thumbnail_url)
    }

    /// Gets the post's federation identifier.
    pub fn ap_id(&self) -> (text: &str)
        ensures
            text@ == self.ap_id@,
    {
        self.ap_id.as_str()
    }

    /// Gets whether the post's comments are marked as put in thread order.
    pub fn sorted(&self) -> (flag: bool)
        ensures
            flag == (self.sorted == Some(true)),
    {
        match self.sorted {
            Some(true) => true,
            _ => false,
        }
    }

    /// Marks the post's comments as put in thread order, or as not.
    pub fn set_sorted(&mut self, val: bool)
        ensures
            *final(self) == (Post { sorted: Some(val), ..*old(self) }),
    {
        self.sorted = Some(val);
    }

    /// Forgets whether the post's comments are put in thread order.
    pub fn unset_sorted(&mut self)
        ensures
            *final(self) == (Post { sorted: None, ..*old(self) }),
    {
        self.sorted = None;
    }
}

impl Default for Post {
    fn default() -> (post: Self)
        ensures
            post.is_blank(),
    {
        Post::new()
    }
}

/// A list of posts with at most one of them selected.
#[derive(Clone, Debug)]
pub struct Posts {
    pub items: Vec<Post>,
    pub selected: Option<usize>,
}

impl Posts {
    /// Creates a list of `items` with nothing selected.
    pub fn new(items: Vec<Post>) -> (list: Self)
        ensures
            list.items == items,
            list.selected is None,
    {
        Self { items, selected: None }
    }

    /// Gets the items.
    pub fn items(&self) -> (items: &[Post])
        ensures
            items@ == self.items@,
    {
        self.items.as_slice()
    }

    /// Gets the position of the selected item, if one is selected.
    pub fn state(&self) -> (selected: Option<usize>)
        ensures
            selected == self.selected,
    {
        self.selected
    }

    /// Gives access to the selection.
    pub fn state_mut(&mut self) -> (selected: &mut Option<usize>)
        ensures
            *selected == old(self).selected,
            *final(self) == (Posts { selected: *final(selected), ..*old(self) }),
    {
        &mut self.selected
    }

    /// Gets the selected item, if one is selected.
    pub fn current(&self) -> (item: Option<&Post>)
        requires
            in_range(self.selected, self.items.len()),
        ensures
            match self.selected {
                Some(i) => item == Some(&self.items@[i as int]),
                None => item is None,
            },
    {
        match self.selected {
            Some(i) => Some(&self.items[i]),
            None => None,
        }
    }

    /// Clears the selection.
    pub fn deselect(&mut self)
        ensures
            *final(self) == (Posts { selected: None, ..*old(self) }),
    {
        self.selected = None;
    }

    /// Selects the next item, the first one after the last, and the first one where
    /// none is selected.
    pub fn next(&mut self)
        requires
            old(self).selected is Some ==> old(self).items.len() > 0,
        ensures
            *final(self) == (Posts {
                selected: Some(position_after(old(self).selected, old(self).items.len())),
                ..*old(self)
            }),
    {
        self.selected = Some(step_forward(self.selected, self.items.len()));
    }

    /// Selects the previous item, the last one before the first, and the last one
    /// where none is selected.
    pub fn previous(&mut self)
        requires
            old(self).items.len() > 0,
        ensures
            *final(self) == (Posts {
                selected: Some(position_before(old(self).selected, old(self).items.len())),
                ..*old(self)
            }),
    {
        self.selected = Some(step_back(self.selected, self.items.len()));
    }
}

} // verus!
