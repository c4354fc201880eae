//! The two readers in front of the transpiler: the metadata header and the
//! Markdown body.

pub mod frontmatter;
pub mod markdown;
