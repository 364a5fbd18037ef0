//! The author of a post or comment, and a selectable list of authors.

use vstd::prelude::*;

use crate::selection::{in_range, position_before, step_back};
use crate::text::{str_or_empty, text_or_empty};

verus! {

/// The author of a post or comment, as the content API reports them.
#[derive(Clone, Debug, PartialEq)]
pub struct Creator {
    pub id: u64,
    pub name: String,
    pub avatar: Option<String>,
    pub banned: bool,
    pub published: String,
    pub actor_id: String,
    pub local: bool,
    pub icon: Option<String>,
    pub deleted: bool,
    pub admin: Option<bool>,
    pub bot_account: bool,
    pub instance_id: u64,
}

impl Creator {
    /// Whether every optional field is absent and every other field holds its empty
    /// value.
    pub open spec fn is_blank(&self) -> bool {
        &&& self.id == 0
        &&& self.name@.len() == 0
        &&& self.avatar is None
        &&& !self.banned
        &&& self.published@.len() == 0
        &&& self.actor_id@.len() == 0
        &&& !self.local
        &&& self.icon is None
        &&& !self.deleted
        &&& self.admin is None
        &&& !self.bot_account
        &&& self.instance_id == 0
    }

    /// Creates a blank author.
    pub fn new() -> (creator: Self)
        ensures
            creator.is_blank(),
    {
        Self {
            id: 0,
            name: String::new(),
            avatar: None,
            banned: false,
            published: String::new(),
            actor_id: String::new(),
            local: false,
            icon: None,
            deleted: false,
            admin: None,
            bot_account: false,
            instance_id: 0,
        }
    }

    /// Gets the author's name.
    pub fn name(&self) -> (text: &str)
        ensures
            text@ == self.name@,
    {
        self.name.as_str()
    }

    /// Gets the time at which the author's account was published.
    pub fn published(&self) -> (text: &str)
        ensures
            text@ == self.published@,
    {
        self.published.as_str()
    }

    /// Gets the address of the author's icon, or the empty string where there is none.
    pub fn icon(&self) -> (text: &str)
        ensures
            text@ == text_or_empty(self.icon),
    {
        str_or_empty(&self.icon)
    }

    /// Gets the address of the author's avatar, or the empty string where there is
    /// none.
    pub fn avatar(&self) -> (text: &str)
        ensures
            text@ == text_or_empty(self.avatar),
    {
        str_or_empty(&self.avatar)
    }
}

impl Default for Creator {
    fn default() -> (creator: Self)
        ensures
            creator.is_blank(),
    {
        Creator::new()
    }
}

/// A list of authors with at most one of them selected.
#[derive(Clone, Debug)]
pub struct Creators {
    pub items: Vec<Creator>,
    pub selected: Option<usize>,
}

impl Creators {
    /// Creates a list of `items` with nothing selected.
    pub fn new(items: Vec<Creator>) -> (list: Self)
        ensures
            list.items == items,
            list.selected is None,
    {
        Self { items, selected: None }
    }

    /// Gets the items.
    pub fn items(&self) -> (items: &[Creator])
        ensures
            items@ == self.items@,
    {
        self.items.as_slice()
    }

    /// Gets the position of the selected item, if one is selected.
    pub fn state(&self) -> (selected: Option<usize>)
        ensures
            selected == self.selected,
    {
        self.selected
    }

    /// Gives access to the selection.
    pub fn state_mut(&mut self) -> (selected: &mut Option<usize>)
        ensures
            *selected == old(self).selected,
            *final(self) == (Creators { selected: *final(selected), ..*old(self) }),
    {
        &mut self.selected
    }

    /// Gets the selected item, if one is selected.
    pub fn current(&self) -> (item: Option<&Creator>)
        requires
            in_range(self.selected, self.items.len()),
        ensures
            match self.selected {
                Some(i) => item == Some(&self.items@[i as int]),
                None => item is None,
            },
    {
        match self.selected {
            Some(i) => Some(&self.items[i]),
            None => None,
        }
    }

    /// Clears the selection.
    pub fn deselect(&mut self)
        ensures
            *final(self) == (Creators { selected: None, ..*old(self) }),
    {
        self.selected = None;
    }

    /// Selects the item after the selected one, and the first one where none is
    /// selected or the selection lies beyond the items.
    pub fn next(&mut self)
        ensures
            *final(self) == (Creators {
                selected: Some(
                    match old(self).selected {
                        Some(i) => if i >= old(self).items.len() {
                            0
                        } else {
                            (i + 1) as usize
                        },
                        None => 0,
                    },
                ),
                ..*old(self)
            }),
    {
        let i: usize = match self.selected {
            Some(i) => if i >= self.items.len() {
                0
            } else {
                i + 1
            },
            None => 0,
        };
        self.selected = Some(i);
    }

    /// Selects the previous item, the last one before the first, and the last one
    /// where none is selected.
    pub fn previous(&mut self)
        requires
            old(self).items.len() > 0,
        ensures
            *final(self) == (Creators {
                selected: Some(position_before(old(self).selected, old(self).items.len())),
                ..*old(self)
            }),
    {
        self.selected = Some(step_back(self.selected, self.items.len()));
    }
}

} // verus!
