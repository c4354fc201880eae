//! Markdown to Typst markup.
//!
//! The crate turns a Markdown document with an optional metadata header into
//! Typst markup: [`parser`] splits the header off and produces the event
//! sequence, [`config`] supplies the theme preamble, and [`transpiler`] folds
//! the events into markup text.  Every function states its result as an
//! `ensures` clause over the models in [`transpiler::model`] and [`text`].

pub mod config;
pub mod error;
pub mod parser;
pub mod renderer;
pub mod text;
pub mod transpiler;
pub mod utils;

pub use config::Config;
pub use error::Md2PdfError;

use config::themes::theme_preamble;
use parser::frontmatter::Frontmatter;
use parser::markdown::{markdown_events, parse_markdown};
use transpiler::model::document;
use transpiler::typst::to_typst;
use vstd::prelude::*;

verus! {

/// The Typst markup of a document, given its metadata and its Markdown
/// body: the preamble of the configured theme, the header that the metadata
/// gives, and the markup of the events of the body.
pub fn convert(content: &str, frontmatter: &Frontmatter, config: &Config) -> (typst: String)
    ensures
        typst@ == document(
            theme_preamble(config.theme@, config.paper()),
            frontmatter.header(),
            markdown_events(content@),
        ),
{
    let events = parse_markdown(content);
    to_typst(events, frontmatter, config)
}

} // verus!
