//! The switches of a browsing session: what is shown and what is to be fetched anew.

use vstd::prelude::*;

use crate::screen::Screen;

verus! {

/// The switches of a browsing session.
#[derive(Clone, Copy, Debug, Default, PartialEq, Eq, Structural)]
pub struct Session {
    /// Whether the comments of the post that is shown are to be fetched anew.
    pub refresh: bool,
    /// Whether the page of posts is to be fetched.
    pub download_posts: bool,
    /// The screen that is shown.
    pub screen: Screen,
}

impl Session {
    /// Starts a session on the listing of posts, with nothing to fetch.
    pub fn new() -> (session: Self)
        ensures
            session == (Session {
                refresh: false,
                download_posts: false,
                screen: Screen::PostList,
            }),
    {
        Self { refresh: false, download_posts: false, screen: Screen::PostList }
    }
}

/// Gets whether the comments of the post that is shown are to be fetched anew.
pub fn refresh(session: &Session) -> (flag: bool)
    ensures
        flag == session.refresh,
{
    session.refresh
}

/// Sets whether the comments of the post that is shown are to be fetched anew.
pub fn set_refresh(session: &mut Session, val: bool)
    ensures
        *final(session) == (Session { refresh: val, ..*old(session) }),
{
    session.refresh = val;
}

/// Gets whether the page of posts is to be fetched.
pub fn download_posts(session: &Session) -> (flag: bool)
    ensures
        flag == session.download_posts,
{
    session.download_posts
}

/// Sets whether the page of posts is to be fetched.
pub fn set_download_posts(session: &mut Session, val: bool)
    ensures
        *final(session) == (Session { download_posts: val, ..*old(session) }),
{
    session.download_posts = val;
}

/// Gets the screen that is shown.
pub fn current_screen(session: &Session) -> (screen: Screen)
    ensures
        screen == session.screen,
{
    session.screen
}

/// Sets the screen that is shown.
pub fn set_current_screen(session: &mut Session, screen: Screen)
    ensures
        *final(session) == (Session { screen, ..*old(session) }),
{
    session.screen = screen;
}

} // verus!
