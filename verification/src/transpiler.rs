//! From document events to Typst markup.

pub mod escape;
pub mod laws;
pub mod markup;
pub mod model;
pub mod typst;
