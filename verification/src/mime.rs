//! Media types of the image formats that can be inlined.
use vstd::prelude::*;
use crate::text::str_eq;

verus! {

/// The media type for a file extension of a common image format.
pub open spec fn mime_of(extension: Seq<char>) -> Option<Seq<char>> {
    if extension == "bmp"@ {
        Some("image/bmp"@)
    } else if extension == "gif"@ {
        Some("image/gif"@)
    } else if extension == "jpg"@ || extension == "jpeg"@ {
        Some("image/jpeg"@)
    } else if extension == "png"@ {
        Some("image/png"@)
    } else if extension == "svg"@ {
        Some("image/svg+xml"@)
    } else if extension == "webp"@ {
        Some("image/webp"@)
    } else {
        None
    }
}

/// The media type for `extension`, written without its dot, or nothing for
/// an extension that is not one of the supported image formats.
pub fn image_mime(extension: &str) -> (mime: Option<&'static str>)
    ensures
        match mime_of(extension@) {
            Some(m) => mime matches Some(text) && text@ == m,
            None => mime is None,
        },
{
    if str_eq(extension, "bmp") {
        Some("image/bmp")
    } else if str_eq(extension, "gif") {
        Some("image/gif")
    } else if str_eq(extension, "jpg") || str_eq(extension, "jpeg") {
        Some("image/jpeg")
    } else if str_eq(extension, "png") {
        Some("image/png")
    } else if str_eq(extension, "svg") {
        Some("image/svg+xml")
    } else if str_eq(extension, "webp") {
        Some("image/webp")
    } else {
        None
    }
}

} // verus!
