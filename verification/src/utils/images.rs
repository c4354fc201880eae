//! Telling local image files from remote ones by their names.

use crate::text::{lowercase, opt_view, starts_with, str_eq, to_lowercase};
use vstd::prelude::*;

verus! {

/// The lowercase extensions of the image formats that can be embedded.
pub open spec fn is_image_extension(lowered: Seq<char>) -> bool {
    lowered == "png"@ || lowered == "jpg"@ || lowered == "jpeg"@ || lowered == "gif"@ || lowered
        == "svg"@ || lowered == "webp"@
}

/// `ext` holds no dot and stands in `path` right behind one.
pub open spec fn is_extension_in(ext: Seq<char>, path: Seq<char>) -> bool {
    &&& !ext.contains('.')
    &&& exists|i: int|
        0 < i && i + ext.len() <= path.len() && path[i - 1] == '.' && #[trigger] path.subrange(
            i,
            i + ext.len(),
        ) == ext
}

/// `Path::extension` of std on the path that `path` spells.  Which part of
/// a path is its file name depends on the platform, so the contract says
/// only what holds on each: an extension is the part of the file name
/// behind its last dot.
#[verifier::external_body]
fn path_extension(path: &str) -> (ext: Option<String>)
    ensures
        ext matches Some(e) ==> is_extension_in(e@, path@),
{
    match std::path::Path::new(path).extension() {
        Some(ext) => Some(ext.to_string_lossy().into_owned()),
        None => None,
    }
}

/// Whether `ext`, in any case, is the extension of an image format:
/// `png`, `jpg`, `jpeg`, `gif`, `svg` or `webp`.
pub fn has_image_extension(ext: &str) -> (r: bool)
    ensures
        r == is_image_extension(lowercase(ext@)),
{
    let lowered = to_lowercase(ext);
    let l = lowered.as_str();
    str_eq(l, "png") || str_eq(l, "jpg") || str_eq(l, "jpeg") || str_eq(l, "gif") || str_eq(
        l,
        "svg",
    ) || str_eq(l, "webp")
}

/// Whether `path` names an image file: whether its extension is that of an
/// image format.  A path without an extension names none.
pub fn is_local_image(path: &str) -> (r: bool)
    ensures
        r ==> exists|ext: Seq<char>|
            #[trigger] is_extension_in(ext, path@) && is_image_extension(lowercase(ext)),
        !path@.contains('.') ==> !r,
{
    let ext = path_extension(path);
    let r = names_image(&ext);
    proof {
        if r && !path@.contains('.') {
            let found = ext->0@;
            let i = choose|i: int|
                0 < i && i + found.len() <= path@.len() && path@[i - 1] == '.'
                    && #[trigger] path@.subrange(i, i + found.len()) == found;
            assert(path@.contains(path@[i - 1]));
        }
    }
    r
}

/// Whether an extension, if there is one, is that of an image format.
pub open spec fn is_image_outcome(ext: Option<Seq<char>>) -> bool {
    ext matches Some(e) && is_image_extension(lowercase(e))
}

/// Whether what was found as the extension of a path makes the path that of
/// an image: an extension of an image format does, any other extension and
/// none at all do not.
pub fn names_image(ext: &Option<String>) -> (r: bool)
    ensures
        r == is_image_outcome(opt_view(*ext)),
{
    match ext {
        Some(found) => has_image_extension(found.as_str()),
        None => false,
    }
}

/// Whether `url` is a remote address: whether it starts with `http://` or
/// `https://`.
pub open spec fn is_remote(url: Seq<char>) -> bool {
    "http://"@.is_prefix_of(url) || "https://"@.is_prefix_of(url)
}

/// Whether `url` starts with `http://` or `https://`.
pub fn is_remote_url(url: &str) -> (r: bool)
    ensures
        r == is_remote(url@),
{
    starts_with(url, "http://") || starts_with(url, "https://")
}

} // verus!
