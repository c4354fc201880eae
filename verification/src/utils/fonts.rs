//! Telling font files by their names.

use crate::text::{lowercase, str_eq, to_lowercase};
use vstd::prelude::*;

verus! {

/// The lowercase extensions of the font files that can be loaded.
pub open spec fn is_font_extension(lowered: Seq<char>) -> bool {
    lowered == "ttf"@ || lowered == "otf"@ || lowered == "ttc"@ || lowered == "otc"@
}

/// Whether `ext`, in any case, is the extension of a font file: `ttf`,
/// `otf`, `ttc` or `otc`.
pub fn has_font_extension(ext: &str) -> (r: bool)
    ensures
        r == is_font_extension(lowercase(ext@)),
{
    let lowered = to_lowercase(ext);
    let l = lowered.as_str();
    str_eq(l, "ttf") || str_eq(l, "otf") || str_eq(l, "ttc") || str_eq(l, "otc")
}

} // verus!
