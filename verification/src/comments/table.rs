//! The threaded view over a post's comments: the entries, the level that is being
//! browsed, the comment whose replies are shown and the selected entry.

use vstd::prelude::*;
use vstd::std_specs::convert::FromSpecImpl;

use crate::comments::response::{CommentResponse, CommentResponses};
use crate::comments::sort::{in_thread_order, is_thread_sort_of, sort_by_thread};
use crate::path::{ancestor_at, ancestor_of};
use crate::selection::{position_after, position_before, step_back, step_forward};

verus! {

/// The comments of one post with the state of browsing them.
#[derive(Clone, Debug)]
pub struct CommentResponseTable {
    /// The entries, in the order in which they are shown.
    pub items: Vec<CommentResponse>,
    /// The comment whose replies are being browsed; 0 on the top level.
    pub comment_id: u64,
    /// The page of comments that was fetched last, counted from 1.
    pub page: u64,
    /// The level that is being browsed; 0 is the top level.
    pub level: usize,
    /// The position of the selected entry, if one is selected.
    pub selected: Option<usize>,
    /// Whether the entries have been put in thread order since they were loaded.
    pub sorted: bool,
}

/// The level one above `level`, or `level` itself where there is none.
pub open spec fn level_above(level: usize) -> usize {
    if level < usize::MAX {
        (level + 1) as usize
    } else {
        level
    }
}

/// The level one below `level`, or 0 for the top level.
pub open spec fn level_below(level: usize) -> usize {
    if level > 0 {
        (level - 1) as usize
    } else {
        0
    }
}

/// The ancestor on level `level` that the first entry with the identifier `id` names,
/// or 0 where `items` holds no such entry.
pub open spec fn parent_of(items: Seq<CommentResponse>, id: u64, level: nat) -> u64
    decreases items.len(),
{
    if items.len() == 0 {
        0
    } else if items[0].comment.id == id {
        ancestor_of(items[0].comment.ids(), level)
    } else {
        parent_of(items.drop_first(), id, level)
    }
}

impl CommentResponseTable {
    /// Whether the flag that says the entries are sorted tells the truth.
    pub open spec fn wf(&self) -> bool {
        self.sorted ==> in_thread_order(self.items@)
    }

    /// The selected entry, where one is selected and the collection reaches that far.
    pub open spec fn current_entry(&self) -> Option<CommentResponse> {
        match self.selected {
            Some(i) => if i < self.items.len() {
                Some(self.items@[i as int])
            } else {
                None
            },
            None => None,
        }
    }

    /// The comment whose replies are shown after going one level down: the ancestor
    /// that the selected entry names on the new level, or 0 where nothing is selected.
    pub open spec fn child_focus(&self) -> u64 {
        match self.current_entry() {
            Some(entry) => ancestor_of(entry.comment.ids(), level_above(self.level) as nat),
            None => 0,
        }
    }

    /// The comment whose replies are shown after going one level up: the ancestor
    /// that the present one names on the level below, or 0 where it is not among the
    /// entries.
    pub open spec fn parent_focus(&self) -> u64 {
        parent_of(self.items@, self.comment_id, level_below(self.level) as nat)
    }

    /// The view after going one level down.
    pub open spec fn after_enter_child(self) -> Self {
        CommentResponseTable {
            level: level_above(self.level),
            comment_id: self.child_focus(),
            ..self
        }
    }

    /// The view after going one level up.
    pub open spec fn after_go_to_parent(self) -> Self {
        CommentResponseTable {
            level: level_below(self.level),
            comment_id: self.parent_focus(),
            ..self
        }
    }

    /// Creates a view of `items` on the top level, with nothing selected and the
    /// entries not yet sorted.
    pub fn new(items: Vec<CommentResponse>) -> (table: Self)
        ensures
            table == fresh_view(items),
            table.wf(),
    {
        Self { items, comment_id: 0, page: 1, level: 0, selected: None, sorted: false }
    }

    /// Replaces the entries and starts over on the top level with nothing selected
    /// and the entries not yet sorted.
    pub fn load(&mut self, items: Vec<CommentResponse>)
        ensures
            *final(self) == (CommentResponseTable {
                items,
                comment_id: 0,
                level: 0,
                selected: None,
                sorted: false,
                ..*old(self)
            }),
            final(self).wf(),
    {
        self.items = items;
        self.comment_id = 0;
        self.level = 0;
        self.selected = None;
        self.sorted = false;
    }

    /// Gets the entries.
    pub fn items(&self) -> (items: &[CommentResponse])
        ensures
            items@ == self.items@,
    {
        self.items.as_slice()
    }

    /// Gets the level that is being browsed.
    pub fn level(&self) -> (level: usize)
        ensures
            level == self.level,
    {
        self.level
    }

    /// Gets the comment whose replies are being browsed, 0 on the top level.
    pub fn focal_parent_id(&self) -> (id: u64)
        ensures
            id == self.comment_id,
    {
        self.comment_id
    }

    /// Goes one level down without changing anything else, and returns the new level.
    pub fn next_level(&mut self) -> (level: usize)
        ensures
            level == level_above(old(self).level),
            *final(self) == (CommentResponseTable { level, ..*old(self) }),
    {
        if self.level < usize::MAX {
            self.level = self.level + 1;
        }
        self.level
    }

    /// Goes one level up without changing anything else, and returns the new level.
    pub fn previous_level(&mut self) -> (level: usize)
        ensures
            level == level_below(old(self).level),
            *final(self) == (CommentResponseTable { level, ..*old(self) }),
    {
        if self.level > 0 {
            self.level = self.level - 1;
        }
        self.level
    }

    /// Changes to the next page of comments.
    pub fn next_page(&mut self)
        requires
            old(self).page < u64::MAX,
        ensures
            *final(self) == (CommentResponseTable {
                page: (old(self).page + 1) as u64,
                ..*old(self)
            }),
    {
        self.page = self.page + 1;
    }

    /// Changes to the previous page of comments, if there is one.
    pub fn previous_page(&mut self)
        ensures
            *final(self) == (CommentResponseTable {
                page: if old(self).page > 1 {
                    (old(self).page - 1) as u64
                } else {
                    old(self).page
                },
                ..*old(self)
            }),
    {
        if self.page > 1 {
            self.page = self.page - 1;
        }
    }

    /// Gets the position of the selected entry, if one is selected.
    pub fn state(&self) -> (selected: Option<usize>)
        ensures
            selected == self.selected,
    {
        self.selected
    }

    /// Gives access to the selection.
    pub fn state_mut(&mut self) -> (selected: &mut Option<usize>)
        ensures
            *selected == old(self).selected,
            *final(self) == (CommentResponseTable { selected: *final(selected), ..*old(self) }),
    {
        &mut self.selected
    }

    /// Gets the selected entry, or nothing where none is selected or the selection
    /// lies beyond the entries.
    pub fn current(&self) -> (entry: Option<&CommentResponse>)
        ensures
            match entry {
                Some(e) => self.current_entry() == Some(*e),
                None => self.current_entry() is None,
            },
    {
        match self.selected {
            Some(i) => if i < self.items.len() {
                Some(&self.items[i])
            } else {
                None
            },
            None => None,
        }
    }

    /// The ancestor that the comment whose replies are shown names on the present
    /// level, or 0 where that comment is not among the entries.
    pub fn parent_id(&self) -> (id: u64)
        ensures
            id == parent_of(self.items@, self.comment_id, self.level as nat),
    {
        let mut i: usize = 0;
        assert(self.items@.skip(0) =~= self.items@);
        while i < self.items.len()
            invariant
                i <= self.items.len(),
                parent_of(self.items@, self.comment_id, self.level as nat) == parent_of(
                    self.items@.skip(i as int),
                    self.comment_id,
                    self.level as nat,
                ),
            decreases self.items.len() - i,
        {
            assert(self.items@.skip(i as int)[0] == self.items@[i as int]);
            assert(self.items@.skip(i as int).drop_first() =~= self.items@.skip(i + 1));
            if self.items[i].comment.id == self.comment_id {
                return ancestor_at(self.items[i].comment.path.as_str(), self.level);
            }
            i = i + 1;
        }
        0
    }

    /// Goes one level up: the level drops by one, but not below the top level, and
    /// the comment whose replies are shown becomes the ancestor that the present one
    /// names on that level, or 0 where the present one is not among the entries.
    pub fn go_to_parent(&mut self)
        ensures
            *final(self) == old(self).after_go_to_parent(),
    {
        if self.level > 0 {
            self.level = self.level - 1;
        }
        self.comment_id = self.parent_id();
    }

    /// Goes one level down: the level rises by one, and the comment whose replies are
    /// shown becomes the ancestor that the selected entry names on the new level, or
    /// 0 where nothing is selected.
    pub fn enter_child(&mut self)
        ensures
            *final(self) == old(self).after_enter_child(),
    {
        if self.level < usize::MAX {
            self.level = self.level + 1;
        }
        let id = match self.current() {
            Some(entry) => ancestor_at(entry.comment.path.as_str(), self.level),
            None => 0,
        };
        self.comment_id = id;
    }

    /// Clears the selection.
    pub fn deselect(&mut self)
        ensures
            *final(self) == (CommentResponseTable { selected: None, ..*old(self) }),
    {
        self.selected = None;
    }

    /// Selects the next entry, the first one after the last, and the first one where
    /// none was selected. Does nothing where there are no entries.
    pub fn next(&mut self)
        ensures
            old(self).items.len() == 0 ==> *final(self) == *old(self),
            old(self).items.len() > 0 ==> *final(self) == (CommentResponseTable {
                selected: Some(position_after(old(self).selected, old(self).items.len())),
                ..*old(self)
            }),
    {
        let len: usize = self.items.len();
        if len > 0 {
            self.selected = Some(step_forward(self.selected, len));
        }
    }

    /// Selects the previous entry, the last one before the first, and the last one
    /// where none was selected. Does nothing where there are no entries.
    pub fn previous(&mut self)
        ensures
            old(self).items.len() == 0 ==> *final(self) == *old(self),
            old(self).items.len() > 0 ==> *final(self) == (CommentResponseTable {
                selected: Some(position_before(old(self).selected, old(self).items.len())),
                ..*old(self)
            }),
    {
        let len: usize = self.items.len();
        if len > 0 {
            self.selected = Some(step_back(self.selected, len));
        }
    }

    /// Puts the entries in thread order and marks them as sorted. Entries with the
    /// same key keep their order.
    pub fn sort_comments(&mut self)
        ensures
            is_thread_sort_of(final(self).items@, old(self).items@),
            final(self).sorted,
            final(self).wf(),
            final(self).comment_id == old(self).comment_id,
            final(self).page == old(self).page,
            final(self).level == old(self).level,
            final(self).selected == old(self).selected,
    {
        let mut items: Vec<CommentResponse> = Vec::new();
        core::mem::swap(&mut items, &mut self.items);
        self.items = sort_by_thread(items);
        self.sorted = true;
    }

    /// Puts the entries in thread order unless they are marked as sorted already.
    pub fn ensure_sorted(&mut self)
        ensures
            old(self).sorted ==> *final(self) == *old(self),
            !old(self).sorted ==> is_thread_sort_of(final(self).items@, old(self).items@),
            final(self).sorted,
            old(self).wf() ==> in_thread_order(final(self).items@),
            final(self).comment_id == old(self).comment_id,
            final(self).page == old(self).page,
            final(self).level == old(self).level,
            final(self).selected == old(self).selected,
    {
        if !self.sorted {
            self.sort_comments();
        }
    }
}

/// The view with which browsing `items` begins.
pub open spec fn fresh_view(items: Vec<CommentResponse>) -> CommentResponseTable {
    CommentResponseTable {
        items,
        comment_id: 0,
        page: 1,
        level: 0,
        selected: None,
        sorted: false,
    }
}

impl From<Vec<CommentResponse>> for CommentResponseTable {
    fn from(val: Vec<CommentResponse>) -> (table: Self) {
        CommentResponseTable::new(val)
    }
}

impl FromSpecImpl<Vec<CommentResponse>> for CommentResponseTable {
    open spec fn obeys_from_spec() -> bool {
        true
    }

    open spec fn from_spec(val: Vec<CommentResponse>) -> Self {
        fresh_view(val)
    }
}

impl From<CommentResponses> for CommentResponseTable {
    fn from(val: CommentResponses) -> (table: Self) {
        CommentResponseTable::new(val.comments)
    }
}

impl FromSpecImpl<CommentResponses> for CommentResponseTable {
    open spec fn obeys_from_spec() -> bool {
        true
    }

    open spec fn from_spec(val: CommentResponses) -> Self {
        fresh_view(val.comments)
    }
}

} // verus!
