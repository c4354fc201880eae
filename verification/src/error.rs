//! How a conversion can fail.

use vstd::prelude::*;
use vstd::string::StringExecFns;

verus! {

/// A failed conversion, with what the failing part said.
#[derive(Debug, Clone, PartialEq, Eq)]
pub enum Md2PdfError {
    /// A file could not be read or written.
    Io(String),
    /// The header block is not well-formed metadata.
    Yaml(String),
    /// The markup did not compile.
    Typst(String),
    /// An option has a value that is not accepted.
    InvalidInput(String),
}

impl Md2PdfError {
    /// The message of the error: what kind it is, then what the failing part
    /// said.
    pub open spec fn message_text(&self) -> Seq<char> {
        match self {
            Md2PdfError::Io(detail) => "IO error: "@ + detail@,
            Md2PdfError::Yaml(detail) => "YAML parsing error: "@ + detail@,
            Md2PdfError::Typst(detail) => "Typst compilation error: "@ + detail@,
            Md2PdfError::InvalidInput(detail) => "Invalid input: "@ + detail@,
        }
    }

    /// The message of the error.
    pub fn message(&self) -> (r: String)
        ensures
            r@ == self.message_text(),
    {
        match self {
            Md2PdfError::Io(detail) => String::from_str("IO error: ").concat(detail.as_str()),
            Md2PdfError::Yaml(detail) => String::from_str("YAML parsing error: ").concat(
                detail.as_str(),
            ),
            Md2PdfError::Typst(detail) => String::from_str("Typst compilation error: ").concat(
                detail.as_str(),
            ),
            Md2PdfError::InvalidInput(detail) => String::from_str("Invalid input: ").concat(
                detail.as_str(),
            ),
        }
    }
}

} // verus!
