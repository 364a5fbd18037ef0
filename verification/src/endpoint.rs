//! The endpoints of the content API.

use vstd::prelude::*;
use vstd::std_specs::convert::FromSpecImpl;

verus! {

/// An endpoint of the content API.
#[derive(Copy, Clone, Debug, Default, PartialEq, Eq, Structural)]
pub enum Endpoint {
    /// The listing of posts.
    #[default]
    PostList,
    /// The listing of a post's comments.
    CommentList,
}

impl Endpoint {
    /// The path under which the endpoint is served.
    pub open spec fn spec_path(self) -> Seq<char> {
        match self {
            Endpoint::PostList => "/api/v3/post/list"@,
            Endpoint::CommentList => "/api/v3/comment/list"@,
        }
    }

    /// Gets the path under which the endpoint is served.
    pub fn path(&self) -> (path: &'static str)
        ensures
            path@ == self.spec_path(),
    {
        match self {
            Endpoint::PostList => "/api/v3/post/list",
            Endpoint::CommentList => "/api/v3/comment/list",
        }
    }

    /// Gets the path under which the endpoint is served, as an owned string.
    pub fn to_string(&self) -> (path: String)
        ensures
            path@ == self.spec_path(),
    {
        self.path().to_owned()
    }
}

impl From<Endpoint> for &'static str {
    fn from(val: Endpoint) -> (path: Self) {
        match val {
            Endpoint::PostList => "/api/v3/post/list",
            Endpoint::CommentList => "/api/v3/comment/list",
        }
    }
}

impl FromSpecImpl<Endpoint> for &'static str {
    open spec fn obeys_from_spec() -> bool {
        true
    }

    open spec fn from_spec(val: Endpoint) -> Self {
        match val {
            Endpoint::PostList => "/api/v3/post/list",
            Endpoint::CommentList => "/api/v3/comment/list",
        }
    }
}

} // verus!
