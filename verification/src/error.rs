//! The errors the library reports.

use vstd::prelude::*;
use vstd::string::StringExecFns;

verus! {

/// What went wrong, with the message of whoever noticed.
#[derive(Debug, Clone)]
pub enum TrekError {
    /// The HTML could not be processed.
    HtmlParse(String),
    /// A change to the document could not be made.
    DomError(String),
    /// A selector was not understood.
    SelectorError(String),
    /// A site-specific extractor failed.
    ExtractionError(String),
    /// Anything else.
    Other(String),
}

impl TrekError {
    /// The text that comes with the error.
    pub open spec fn detail(self) -> Seq<char> {
        match self {
            TrekError::HtmlParse(m) => m@,
            TrekError::DomError(m) => m@,
            TrekError::SelectorError(m) => m@,
            TrekError::ExtractionError(m) => m@,
            TrekError::Other(m) => m@,
        }
    }

    /// The words that introduce each kind of error.
    pub open spec fn prefix(self) -> Seq<char> {
        match self {
            TrekError::HtmlParse(_) => "Failed to parse HTML: "@,
            TrekError::DomError(_) => "DOM manipulation error: "@,
            TrekError::SelectorError(_) => "Invalid CSS selector: "@,
            TrekError::ExtractionError(_) => "Failed to extract content: "@,
            TrekError::Other(_) => "Trek error: "@,
        }
    }

    /// The error as one line of text: the kind's introduction, then the detail.
    pub fn message(&self) -> (r: String)
        ensures
            r@ == self.prefix() + self.detail(),
    {
        match self {
            TrekError::HtmlParse(m) => String::from_str("Failed to parse HTML: ").concat(
                m.as_str(),
            ),
            TrekError::DomError(m) => String::from_str("DOM manipulation error: ").concat(
                m.as_str(),
            ),
            TrekError::SelectorError(m) => String::from_str("Invalid CSS selector: ").concat(
                m.as_str(),
            ),
            TrekError::ExtractionError(m) => String::from_str(
                "Failed to extract content: ",
            ).concat(m.as_str()),
            TrekError::Other(m) => String::from_str("Trek error: ").concat(m.as_str()),
        }
    }
}

} // verus!
