//! Posts, their authors and the responses that carry them.

mod creator;
mod image;
mod post;
mod response;

pub use creator::{Creator, Creators};
pub use image::{
    has_image_extension, image_name, image_name_for_path, is_image, is_image_name_for,
    outcome_text, temporary_name, uri_path,
};
pub use post::{Post, Posts};
pub use response::{PostResponse, PostResponseTable, PostResponses};
pub use crate::session::{download_posts, set_download_posts};
