//! The community that a post or comment belongs to, and a selectable list of
//! communities.

use vstd::prelude::*;

use crate::selection::{in_range, position_after, position_before, step_back, step_forward};

verus! {

/// A community, as the content API reports it.
#[derive(Clone, Debug, PartialEq)]
pub struct Community {
    pub id: u64,
    pub name: String,
    pub title: String,
    pub description: Option<String>,
    pub removed: bool,
    pub published: String,
    pub updated: Option<String>,
    pub deleted: bool,
    pub nsfw: bool,
    pub actor_id: String,
    pub local: bool,
    pub icon: Option<String>,
    pub hidden: bool,
    pub posting_restricted_to_mods: bool,
    pub instance_id: u64,
}

impl Community {
    /// Whether every optional field is absent and every other field holds its empty
    /// value.
    pub open spec fn is_blank(&self) -> bool {
        &&& self.id == 0
        &&& self.name@.len() == 0
        &&& self.title@.len() == 0
        &&& self.description is None
        &&& !self.removed
        &&& self.published@.len() == 0
        &&& self.updated is None
        &&& !self.deleted
        &&& !self.nsfw
        &&& self.actor_id@.len() == 0
        &&& !self.local
        &&& self.icon is None
        &&& !self.hidden
        &&& !self.posting_restricted_to_mods
        &&& self.instance_id == 0
    }

    /// Creates a blank community.
    pub fn new() -> (community: Self)
        ensures
            community.is_blank(),
    {
        Self {
            id: 0,
            name: String::new(),
            title: String::new(),
            description: None,
            removed: false,
            published: String::new(),
            updated: None,
            deleted: false,
            nsfw: false,
            actor_id: String::new(),
            local: false,
            icon: None,
            hidden: false,
            posting_restricted_to_mods: false,
            instance_id: 0,
        }
    }
}

impl Default for Community {
    fn default() -> (community: Self)
        ensures
            community.is_blank(),
    {
        Community::new()
    }
}

/// A list of communities with at most one of them selected.
#[derive(Clone, Debug)]
pub struct Communities {
    pub items: Vec<Community>,
    pub selected: Option<usize>,
}

impl Communities {
    /// Creates a list of `items` with nothing selected.
    pub fn new(items: Vec<Community>) -> (list: Self)
        ensures
            list.items == items,
            list.selected is None,
    {
        Self { items, selected: None }
    }

    /// Gets the items.
    pub fn items(&self) -> (items: &[Community])
        ensures
            items@ == self.items@,
    {
        self.items.as_slice()
    }

    /// Gets the position of the selected item, if one is selected.
    pub fn state(&self) -> (selected: Option<usize>)
        ensures
            selected == self.selected,
    {
        self.selected
    }

    /// Gives access to the selection.
    pub fn state_mut(&mut self) -> (selected: &mut Option<usize>)
        ensures
            *selected == old(self).selected,
            *final(self) == (Communities { selected: *final(selected), ..*old(self) }),
    {
        &mut self.selected
    }

    /// Gets the selected item, if one is selected.
    pub fn current(&self) -> (item: Option<&Community>)
        requires
            in_range(self.selected, self.items.len()),
        ensures
            match self.selected {
                Some(i) => item == Some(&self.items@[i as int]),
                None => item is None,
            },
    {
        match self.selected {
            Some(i) => Some(&self.items[i]),
            None => None,
        }
    }

    /// Clears the selection.
    pub fn deselect(&mut self)
        ensures
            *final(self) == (Communities { selected: None, ..*old(self) }),
    {
        self.selected = None;
    }

    /// Selects the next item, the first one after the last, and the first one where
    /// none is selected.
    pub fn next(&mut self)
        requires
            old(self).selected is Some ==> old(self).items.len() > 0,
        ensures
            *final(self) == (Communities {
                selected: Some(position_after(old(self).selected, old(self).items.len())),
                ..*old(self)
            }),
    {
        self.selected = Some(step_forward(self.selected, self.items.len()));
    }

    /// Selects the previous item, the last one before the first, and the last one
    /// where none is selected.
    pub fn previous(&mut self)
        requires
            old(self).items.len() > 0,
        ensures
            *final(self) == (Communities {
                selected: Some(position_before(old(self).selected, old(self).items.len())),
                ..*old(self)
            }),
    {
        self.selected = Some(step_back(self.selected, self.items.len()));
    }
}

} // verus!
