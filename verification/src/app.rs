//! The state of a browsing session: the posts, the comments fetched so far and the
//! scroll positions.

use vstd::prelude::*;

use crate::comments::sort::is_thread_sort_of;
use crate::comments::CommentResponseTable;
use crate::posts::PostResponseTable;

verus! {

/// The comment views fetched so far, by the identifier of their post. The views are
/// kept in a `hashbrown::HashMap`.
#[verifier::external_body]
pub struct CommentCache {
    map: hashbrown::HashMap<u64, CommentResponseTable>,
}

/// The comment views that `cache` holds, by the identifier of their post.
pub uninterp spec fn tables_of(cache: CommentCache) -> Map<u64, CommentResponseTable>;

/// Whether `after` is `before` with its entries put in thread order, or `before`
/// itself where that one is marked as sorted.
pub open spec fn is_sorted_view_of(after: CommentResponseTable, before: CommentResponseTable) -> bool {
    &&& after.sorted
    &&& before.sorted ==> after == before
    &&& !before.sorted ==> is_thread_sort_of(after.items@, before.items@)
    &&& after.comment_id == before.comment_id
    &&& after.page == before.page
    &&& after.level == before.level
    &&& after.selected == before.selected
}

/// The cache that holds no view.
pub open spec fn no_tables() -> Map<u64, CommentResponseTable> {
    Map::empty()
}

/// Makes an empty cache with `hashbrown::HashMap::new`, which holds nothing.
#[verifier::external_body]
fn new_cache() -> (cache: CommentCache)
    ensures
        tables_of(cache) == no_tables(),
{
    CommentCache { map: hashbrown::HashMap::new() }
}

/// Asks `hashbrown::HashMap::contains_key` whether the cache holds a view for the
/// post `post_id`: it does exactly where an earlier insertion under that identifier
/// was not followed by a removal.
#[verifier::external_body]
fn cache_holds(cache: &CommentCache, post_id: u64) -> (held: bool)
    ensures
        held == tables_of(*cache).contains_key(post_id),
{
    cache.map.contains_key(&post_id)
}

/// Looks the view for the post `post_id` up with `hashbrown::HashMap::get`, which
/// gives the value last inserted under that identifier, or nothing.
#[verifier::external_body]
fn cache_get(cache: &CommentCache, post_id: u64) -> (table: Option<&CommentResponseTable>)
    ensures
        table == (if tables_of(*cache).contains_key(post_id) {
            Some(&tables_of(*cache)[post_id])
        } else {
            None
        }),
{
    cache.map.get(&post_id)
}

/// Puts `table` under `post_id` with `hashbrown::HashMap::insert`, which replaces the
/// value held under that identifier, hands the replaced value back and leaves the
/// other entries alone.
#[verifier::external_body]
fn cache_insert(cache: &mut CommentCache, post_id: u64, table: CommentResponseTable) -> (replaced:
    Option<CommentResponseTable>)
    ensures
        tables_of(*final(cache)) == tables_of(*old(cache)).insert(post_id, table),
        replaced == (if tables_of(*old(cache)).contains_key(post_id) {
            Some(tables_of(*old(cache))[post_id])
        } else {
            None
        }),
{
    cache.map.insert(post_id, table)
}

/// Takes the view for the post `post_id` out with `hashbrown::HashMap::remove`,
/// which hands the removed value back and leaves the other entries alone.
#[verifier::external_body]
fn cache_remove(cache: &mut CommentCache, post_id: u64) -> (removed: Option<CommentResponseTable>)
    ensures
        tables_of(*final(cache)) == tables_of(*old(cache)).remove(post_id),
        removed == (if tables_of(*old(cache)).contains_key(post_id) {
            Some(tables_of(*old(cache))[post_id])
        } else {
            None
        }),
{
    cache.map.remove(&post_id)
}

impl CommentCache {
    /// Creates an empty cache.
    pub fn new() -> (cache: Self)
        ensures
            tables_of(cache) == no_tables(),
    {
        new_cache()
    }

    /// Whether the cache holds a view for the post `post_id`.
    pub fn contains(&self, post_id: u64) -> (held: bool)
        ensures
            held == tables_of(*self).contains_key(post_id),
    {
        cache_holds(self, post_id)
    }

    /// Gets the view for the post `post_id`, if the cache holds one.
    pub fn get(&self, post_id: u64) -> (table: Option<&CommentResponseTable>)
        ensures
            match table {
                Some(t) => tables_of(*self).contains_key(post_id) && *t == tables_of(*self)[post_id],
                None => !tables_of(*self).contains_key(post_id),
            },
    {
        cache_get(self, post_id)
    }

    /// Whether the comments of the post `post_id` have to be fetched: they have
    /// where the cache holds none for it or a refresh is asked for.
    pub fn needs_fetch(&self, post_id: u64, refresh: bool) -> (needed: bool)
        ensures
            needed == (refresh || !tables_of(*self).contains_key(post_id)),
    {
        refresh || !cache_holds(self, post_id)
    }

    /// Puts the view for the post `post_id` in thread order, unless it is marked as
    /// sorted already. Does nothing where the cache holds no view for the post. The
    /// views of the other posts stay as they are.
    pub fn ensure_sorted(&mut self, post_id: u64)
        ensures
            tables_of(*final(self)).dom() == tables_of(*old(self)).dom(),
            forall|other: u64|
                other != post_id && tables_of(*old(self)).contains_key(other) ==> #[trigger] tables_of(
                    *final(self),
                )[other] == tables_of(*old(self))[other],
            tables_of(*old(self)).contains_key(post_id) ==> is_sorted_view_of(
                tables_of(*final(self))[post_id],
                tables_of(*old(self))[post_id],
            ),
    {
        match cache_remove(self, post_id) {
            Some(table) => {
                let mut table = table;
                table.ensure_sorted();
                let _ = cache_insert(self, post_id, table);
                assert(tables_of(*self).dom() =~= tables_of(*old(self)).dom());
            },
            None => {
                assert(tables_of(*self) =~= tables_of(*old(self)));
            },
        }
    }

    /// Puts `table` in place of whatever view the cache holds for the post `post_id`.
    /// The views of the other posts stay as they are.
    pub fn store(&mut self, post_id: u64, table: CommentResponseTable)
        ensures
            tables_of(*final(self)) == tables_of(*old(self)).insert(post_id, table),
    {
        let _ = cache_remove(self, post_id);
        let _ = cache_insert(self, post_id, table);
        assert(tables_of(*self) =~= tables_of(*old(self)).insert(post_id, table));
    }
}

/// The state of a scrollbar: the position and the lengths of content and viewport.
#[derive(Clone, Copy, Debug, Default, PartialEq, Eq, Structural)]
pub struct Scroll {
    pub position: u16,
    pub content_length: u16,
    pub viewport_length: u16,
}

/// The last position in content of `content_length` lines, and 0 for no content.
pub open spec fn last_line(content_length: u16) -> u16 {
    if content_length > 0 {
        (content_length - 1) as u16
    } else {
        0
    }
}

impl Scroll {
    /// Creates a scrollbar state at position 0 with no content.
    pub fn new() -> (scroll: Self)
        ensures
            scroll == (Scroll { position: 0, content_length: 0, viewport_length: 0 }),
    {
        Self { position: 0, content_length: 0, viewport_length: 0 }
    }

    /// Creates a scrollbar state from its three parts.
    pub fn create(position: u16, content_length: u16, viewport_length: u16) -> (scroll: Self)
        ensures
            scroll == (Scroll { position, content_length, viewport_length }),
    {
        Self { position, content_length, viewport_length }
    }

    /// Gets the position.
    pub fn position(&self) -> (pos: u16)
        ensures
            pos == self.position,
    {
        self.position
    }

    /// Sets the position.
    pub fn set_position(&mut self, pos: u16)
        ensures
            *final(self) == (Scroll { position: pos, ..*old(self) }),
    {
        self.position = pos;
    }

    /// Gets the length of the content.
    pub fn content_length(&self) -> (len: u16)
        ensures
            len == self.content_length,
    {
        self.content_length
    }

    /// Sets the length of the content.
    pub fn set_content_length(&mut self, len: u16)
        ensures
            *final(self) == (Scroll { content_length: len, ..*old(self) }),
    {
        self.content_length = len;
    }

    /// Gets the length of the viewport.
    pub fn viewport_length(&self) -> (len: u16)
        ensures
            len == self.viewport_length,
    {
        self.viewport_length
    }

    /// Sets the length of the viewport.
    pub fn set_viewport_length(&mut self, len: u16)
        ensures
            *final(self) == (Scroll { viewport_length: len, ..*old(self) }),
    {
        self.viewport_length = len;
    }

    /// Moves one position down, but not beyond the last line of the content.
    pub fn next(&mut self)
        ensures
            *final(self) == (Scroll {
                position: if old(self).position < last_line(old(self).content_length) {
                    (old(self).position + 1) as u16
                } else {
                    last_line(old(self).content_length)
                },
                ..*old(self)
            }),
    {
        let last: u16 = if self.content_length > 0 {
            self.content_length - 1
        } else {
            0
        };
        if self.position < last {
            self.position = self.position + 1;
        } else {
            self.position = last;
        }
    }

    /// Moves one position up, but not above the first line.
    pub fn prev(&mut self)
        ensures
            *final(self) == (Scroll {
                position: if old(self).position > 0 {
                    (old(self).position - 1) as u16
                } else {
                    0
                },
                ..*old(self)
            }),
    {
        if self.position > 0 {
            self.position = self.position - 1;
        }
    }

    /// Moves to the first line.
    pub fn first(&mut self)
        ensures
            *final(self) == (Scroll { position: 0, ..*old(self) }),
    {
        self.position = 0;
    }

    /// Moves to the last line of the content.
    pub fn last(&mut self)
        ensures
            *final(self) == (Scroll {
                position: last_line(old(self).content_length),
                ..*old(self)
            }),
    {
        self.position = if self.content_length > 0 {
            self.content_length - 1
        } else {
            0
        };
    }
}

/// The state of a browsing session.
pub struct App {
    pub instance_url: String,
    pub page: u64,
    pub posts: PostResponseTable,
    pub comments: CommentCache,
    pub post_scroll: Scroll,
    pub comment_scroll: Scroll,
}

impl App {
    /// Starts a session on page 1 of the posts of the instance at `instance_url`,
    /// with no comments fetched.
    pub fn new(instance_url: String, posts: PostResponseTable) -> (app: Self)
        ensures
            app.instance_url == instance_url,
            app.page == 1,
            app.posts == posts,
            tables_of(app.comments) == no_tables(),
            app.post_scroll == (Scroll { position: 0, content_length: 0, viewport_length: 0 }),
            app.comment_scroll == (Scroll { position: 0, content_length: 0, viewport_length: 0 }),
    {
        Self {
            instance_url,
            page: 1,
            posts,
            comments: CommentCache::new(),
            post_scroll: Scroll::new(),
            comment_scroll: Scroll::new(),
        }
    }

    /// Gets the page of posts that is shown.
    pub fn page(&self) -> (page: u64)
        ensures
            page == self.page,
    {
        self.page
    }

    /// Goes to the next page of posts, unless the page number is the greatest there
    /// is, and returns the new page number.
    pub fn next_page(&mut self) -> (page: u64)
        ensures
            page == if old(self).page < u64::MAX {
                (old(self).page + 1) as u64
            } else {
                old(self).page
            },
            final(self).page == page,
            final(self).instance_url == old(self).instance_url,
            final(self).posts == old(self).posts,
            final(self).comments == old(self).comments,
            final(self).post_scroll == old(self).post_scroll,
            final(self).comment_scroll == old(self).comment_scroll,
    {
        if self.page < u64::MAX {
            self.page = self.page + 1;
        }
        self.page
    }

    /// Goes to the previous page of posts, unless the first page is shown, and
    /// returns the new page number.
    pub fn previous_page(&mut self) -> (page: u64)
        ensures
            page == if old(self).page > 1 {
                (old(self).page - 1) as u64
            } else {
                old(self).page
            },
            final(self).page == page,
            final(self).instance_url == old(self).instance_url,
            final(self).posts == old(self).posts,
            final(self).comments == old(self).comments,
            final(self).post_scroll == old(self).post_scroll,
            final(self).comment_scroll == old(self).comment_scroll,
    {
        if self.page > 1 {
            self.page = self.page - 1;
        }
        self.page
    }
}

} // verus!
