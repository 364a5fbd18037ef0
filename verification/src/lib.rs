//! Threaded comment browsing for a forum-style content API.
//!
//! The heart of the crate is the threading of comments: `path` reads the ancestry
//! path that every comment carries, `comments::order` defines the order in which
//! comments are presented, `comments::sort` puts a collection in that order,
//! `comments::laws` states what holds of the order for every collection, and
//! `comments::CommentResponseTable` is the view in which a post's comments are
//! browsed level by level. `pages` joins the pages in which comments arrive. The
//! other modules hold the records of the API and the state of a browsing session.

pub mod app;
pub mod comments;
pub mod community;
pub mod counts;
pub mod endpoint;
pub mod error;
pub mod pages;
pub mod path;
pub mod posts;
pub mod screen;
pub mod selection;
pub mod session;
pub mod text;
