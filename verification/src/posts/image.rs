//! Telling which posts link to an image, and under which name to keep the image.

use vstd::prelude::*;

use crate::error::Error;
use crate::text::ends_with;

verus! {

/// What `http::Uri` makes of the address `url`: the path of the address, or the text
/// of the error with which it turns the address down.
pub uninterp spec fn uri_path(url: Seq<char>) -> Result<Seq<char>, Seq<char>>;

/// The characters of a text that was read or of the text of the error instead.
pub open spec fn outcome_text(outcome: Result<String, String>) -> Result<Seq<char>, Seq<char>> {
    match outcome {
        Ok(text) => Ok(text@),
        Err(text) => Err(text@),
    }
}

/// Whether `text` ends in one of the file extensions of the supported image kinds.
pub open spec fn has_image_extension(text: Seq<char>) -> bool {
    ||| ".bmp"@.is_suffix_of(text)
    ||| ".gif"@.is_suffix_of(text)
    ||| ".jpg"@.is_suffix_of(text)
    ||| ".jpeg"@.is_suffix_of(text)
    ||| ".png"@.is_suffix_of(text)
    ||| ".webp"@.is_suffix_of(text)
}

/// The name of the temporary file for an image at the path `path`, by the extension
/// of `path`; nothing where the extension is none of a supported image kind.
pub open spec fn temporary_name(path: Seq<char>) -> Option<Seq<char>> {
    if ".bmp"@.is_suffix_of(path) {
        Some("tmp.bmp"@)
    } else if ".gif"@.is_suffix_of(path) {
        Some("tmp.gif"@)
    } else if ".jpg"@.is_suffix_of(path) || ".jpeg"@.is_suffix_of(path) {
        Some("tmp.jpeg"@)
    } else if ".png"@.is_suffix_of(path) {
        Some("tmp.png"@)
    } else if ".webp"@.is_suffix_of(path) {
        Some("tmp.webp"@)
    } else {
        None
    }
}

/// Whether `name` is what `image_name` owes for an address of which `http::Uri`
/// makes `outcome`.
pub open spec fn is_image_name_for(
    outcome: Result<Seq<char>, Seq<char>>,
    name: Result<&'static str, Error>,
) -> bool {
    match outcome {
        Ok(path) => match temporary_name(path) {
            Some(file) => name matches Ok(n) && n@ == file,
            None => name matches Err(Error::Image(text)) && text@ == "unsupported image type"@,
        },
        Err(reason) => name matches Err(Error::Http(text)) && text@ == reason,
    }
}

/// Parses `url` with `<http::Uri as FromStr>::from_str` and hands back the path of
/// the parsed address, as `http::Uri::path` gives it, or the text of the error as the
/// error displays itself. Trusted: both depend on the text of `url` alone, which is
/// all that the contract says.
#[verifier::external_body]
fn read_uri_path(url: &str) -> (outcome: Result<String, String>)
    ensures
        outcome_text(outcome) == uri_path(url@),
{
    match url.parse::<http::Uri>() {
        Ok(uri) => Ok(uri.path().to_string()),
        Err(err) => Err(format!("{err}")),
    }
}

/// Gets whether the address `url` ends like an image file.
pub fn is_image(url: &str) -> (b: bool)
    ensures
        b == has_image_extension(url@),
{
    ends_with(url, ".bmp") || ends_with(url, ".gif") || ends_with(url, ".jpg") || ends_with(
        url,
        ".jpeg",
    ) || ends_with(url, ".png") || ends_with(url, ".webp")
}

/// Gets the name of the temporary file for an image at the path `path`.
pub fn image_name_for_path(path: &str) -> (name: Result<&'static str, Error>)
    ensures
        is_image_name_for(Ok(path@), name),
{
    if ends_with(path, ".bmp") {
        Ok("tmp.bmp")
    } else if ends_with(path, ".gif") {
        Ok("tmp.gif")
    } else if ends_with(path, ".jpg") || ends_with(path, ".jpeg") {
        Ok("tmp.jpeg")
    } else if ends_with(path, ".png") {
        Ok("tmp.png")
    } else if ends_with(path, ".webp") {
        Ok("tmp.webp")
    } else {
        Err(Error::Image("unsupported image type".to_string()))
    }
}

/// Gets the name of the temporary file for the image at the address `url`. Fails
/// where the address is malformed or its path has none of the supported extensions.
pub fn image_name(url: &str) -> (name: Result<&'static str, Error>)
    ensures
        is_image_name_for(uri_path(url@), name),
{
    match read_uri_path(url) {
        Ok(path) => image_name_for_path(path.as_str()),
        Err(text) => Err(Error::Http(text)),
    }
}

} // verus!
