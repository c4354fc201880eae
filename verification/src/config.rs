//! What the user chooses: paper size and theme.

pub mod themes;

use crate::text::{lowercase, str_eq, to_lowercase};
use vstd::prelude::*;
use vstd::string::StringExecFns;

verus! {

/// The settings of one conversion.
#[derive(Debug, Clone)]
pub struct Config {
    /// `a4`, `letter` or `legal`, in any case; anything else means `a4`.
    pub paper_size: String,
    /// The name of a theme; an unknown name means the default theme.
    pub theme: String,
    pub verbose: bool,
}

/// The name under which Typst knows the paper size whose lowercase name is
/// `lowered`.
pub open spec fn paper_token(lowered: Seq<char>) -> Seq<char> {
    if lowered == "letter"@ {
        "us-letter"@
    } else if lowered == "legal"@ {
        "us-legal"@
    } else {
        "a4"@
    }
}

/// The Typst name of the paper size whose lowercase name is `lowered`.
pub fn paper_token_of(lowered: &str) -> (r: &'static str)
    ensures
        r@ == paper_token(lowered@),
{
    if str_eq(lowered, "letter") {
        "us-letter"
    } else if str_eq(lowered, "legal") {
        "us-legal"
    } else {
        "a4"
    }
}

impl Default for Config {
    fn default() -> (c: Config)
        ensures
            c.paper_size@ == "a4"@,
            c.theme@ == "default"@,
            !c.verbose,
    {
        Config {
            paper_size: String::from_str("a4"),
            theme: String::from_str("default"),
            verbose: false,
        }
    }
}

impl Config {
    /// The Typst name of the configured paper size.
    pub open spec fn paper(&self) -> Seq<char> {
        paper_token(lowercase(self.paper_size@))
    }

    /// The Typst name of the configured paper size: the size is read without
    /// regard to case, and an unknown size is `a4`.
    pub fn paper_typst(&self) -> (r: &str)
        ensures
            r@ == self.paper(),
    {
        let lowered = to_lowercase(self.paper_size.as_str());
        paper_token_of(lowered.as_str())
    }
}

} // verus!
