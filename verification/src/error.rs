//! The ways in which browsing can fail.

use vstd::prelude::*;

verus! {

/// An error, with the text that describes it.
#[derive(Clone, Debug, PartialEq)]
pub enum Error {
    /// Reading or writing failed.
    Io(String),
    /// An address was malformed or a request failed.
    Http(String),
    /// A response could not be decoded.
    Json(String),
    /// An image was of no supported kind or could not be read.
    Image(String),
}

impl Error {
    /// The text that describes the error.
    pub open spec fn text(&self) -> Seq<char> {
        match self {
            Error::Io(text) => text@,
            Error::Http(text) => text@,
            Error::Json(text) => text@,
            Error::Image(text) => text@,
        }
    }

    /// Gets the text that describes the error.
    pub fn message(&self) -> (text: &str)
        ensures
            text@ == self.text(),
    {
        match self {
            Error::Io(text) => text.as_str(),
            Error::Http(text) => text.as_str(),
            Error::Json(text) => text.as_str(),
            Error::Image(text) => text.as_str(),
        }
    }
}

} // verus!
