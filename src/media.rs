use crate::text::{eq_ignoring_ascii_case, same_ignoring_ascii_case};
use vstd::prelude::*;

verus! {

/// An extension of a still-image format (letter case ignored).
pub open spec fn is_image_extension_spec(e: Seq<char>) -> bool {
    ||| same_ignoring_ascii_case(e, "jpg"@)
    ||| same_ignoring_ascii_case(e, "jpeg"@)
    ||| same_ignoring_ascii_case(e, "png"@)
    ||| same_ignoring_ascii_case(e, "bmp"@)
    ||| same_ignoring_ascii_case(e, "webp"@)
}

/// An extension of a video container (letter case ignored).
pub open spec fn is_video_extension_spec(e: Seq<char>) -> bool {
    ||| same_ignoring_ascii_case(e, "mp4"@)
    ||| same_ignoring_ascii_case(e, "mkv"@)
    ||| same_ignoring_ascii_case(e, "avi"@)
    ||| same_ignoring_ascii_case(e, "mov"@)
    ||| same_ignoring_ascii_case(e, "webm"@)
}

/// An extension of a file that the folder listing shows.
pub open spec fn is_listed_extension_spec(e: Seq<char>) -> bool {
    is_video_extension_spec(e) || is_image_extension_spec(e)
}

/// The lower-case form of a still-image extension.
pub open spec fn image_extension_spec(e: Seq<char>) -> Option<Seq<char>> {
    if same_ignoring_ascii_case(e, "jpg"@) {
        Some("jpg"@)
    } else if same_ignoring_ascii_case(e, "jpeg"@) {
        Some("jpeg"@)
    } else if same_ignoring_ascii_case(e, "png"@) {
        Some("png"@)
    } else if same_ignoring_ascii_case(e, "bmp"@) {
        Some("bmp"@)
    } else if same_ignoring_ascii_case(e, "webp"@) {
        Some("webp"@)
    } else {
        None
    }
}

/// The lower-case form of `ext` when it names a still-image format, else `None`.
pub fn image_extension(ext: &str) -> (r: Option<&'static str>)
    ensures
        r matches Some(s) ==> image_extension_spec(ext@) == Some(s@),
        r is None ==> image_extension_spec(ext@) is None,
        r is Some <==> is_image_extension_spec(ext@),
{
    if eq_ignoring_ascii_case(ext, "jpg") {
        Some("jpg")
    } else if eq_ignoring_ascii_case(ext, "jpeg") {
        Some("jpeg")
    } else if eq_ignoring_ascii_case(ext, "png") {
        Some("png")
    } else if eq_ignoring_ascii_case(ext, "bmp") {
        Some("bmp")
    } else if eq_ignoring_ascii_case(ext, "webp") {
        Some("webp")
    } else {
        None
    }
}

/// Whether a file with extension `ext` is a still image.
pub fn is_image_extension(ext: &str) -> (r: bool)
    ensures
        r == is_image_extension_spec(ext@),
{
    image_extension(ext).is_some()
}

/// Whether a file with extension `ext` is a video.
pub fn is_video_extension(ext: &str) -> (r: bool)
    ensures
        r == is_video_extension_spec(ext@),
{
    eq_ignoring_ascii_case(ext, "mp4") || eq_ignoring_ascii_case(ext, "mkv")
        || eq_ignoring_ascii_case(ext, "avi") || eq_ignoring_ascii_case(ext, "mov")
        || eq_ignoring_ascii_case(ext, "webm")
}

/// Whether the folder listing shows a file with extension `ext`.
pub fn is_listed_extension(ext: &str) -> (r: bool)
    ensures
        r == is_listed_extension_spec(ext@),
{
    is_video_extension(ext) || is_image_extension(ext)
}

} // verus!
