//! Helpers around the conversion.

pub mod fonts;
pub mod images;
