//! Errors of the documentation parser.

use vstd::prelude::*;

verus! {

/// `std::io::Error`, carried through unchanged.
#[verifier::external_type_specification]
#[verifier::external_body]
pub struct ExIoError(std::io::Error);

/// Errors that can occur when parsing rustdoc HTML.
#[derive(Debug)]
pub enum ParseError {
    /// The HTML structure is invalid or unexpected.
    InvalidHtml(String),
    /// A required element was not found in the HTML.
    MissingElement {
        /// The CSS selector or element description that was not found.
        selector: String,
    },
    /// I/O error when reading HTML files.
    Io(std::io::Error),
}

} // verus!
