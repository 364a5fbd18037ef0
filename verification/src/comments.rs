//! Comment records and the threaded view over them.

mod comment;
pub mod laws;
pub mod order;
mod ranking;
mod response;
pub mod sort;
mod table;

pub use comment::{Comment, CommentList};
pub use response::{CommentResponse, CommentResponses};
pub use table::CommentResponseTable;
