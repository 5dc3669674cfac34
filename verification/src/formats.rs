use vstd::prelude::*;

verus! {

/// Declares `image::ImageFormat`, the tag of an encoded image container
/// (PNG, JPEG, ...). The tag is opaque here: the pipeline only compares two
/// tags for equality and hands one to the codec.
#[verifier::external_type_specification]
#[verifier::external_body]
pub struct ExImageFormat(image::ImageFormat);

/// The format tag that `image::ImageFormat::from_path` detects for a path,
/// or `None` where the path's extension names no known format. The detection
/// reads nothing but the path string, so the result is a function of it.
pub uninterp spec fn path_format(path: Seq<char>) -> Option<image::ImageFormat>;

/// Relies on `image::ImageFormat::from_path`: the detected format depends
/// only on the path's file extension, and detection fails exactly when the
/// extension matches no format the crate knows.
#[verifier::external_body]
pub(crate) fn format_from_path(path: &String) -> (r: Option<image::ImageFormat>)
    ensures
        r == path_format(path@),
{
    image::ImageFormat::from_path(path.as_str()).ok()
}

/// Relies on `image::ImageFormat`'s derived `PartialEq`: two tags of this
/// field-less enum compare equal exactly when they are the same variant.
#[verifier::external_body]
pub(crate) fn format_eq(a: &image::ImageFormat, b: &image::ImageFormat) -> (r: bool)
    ensures
        r == (*a == *b),
{
    a == b
}

} // verus!
