//! The ways in which fetching and extracting can fail in an orderly manner.

use vstd::prelude::*;

verus! {

/// A failure that is reported to the caller, together with the message that
/// [`ScraperError::message`] gives for it.
///
/// A page without a matching element, or a matching element without the
/// attribute, is no such failure: see [`crate::extract::Lookup`].
#[derive(Debug, Clone, Copy, PartialEq, Eq, Structural)]
pub enum ScraperError {
    /// A header value holds a byte that no header value may hold.
    InvalidHeaderMapValue,
    /// The request could not be carried out, or its answer could not be read
    /// as text.
    RequestError,
    /// The selector is not a selector.
    SelectorError,
}

impl ScraperError {
    /// The message that belongs to each kind of failure.
    pub open spec fn message_text(self) -> Seq<char> {
        match self {
            ScraperError::InvalidHeaderMapValue => "Invalid header map value provided"@,
            ScraperError::RequestError => "Error occurred while requesting data from the webpage"@,
            ScraperError::SelectorError => "An error occured while initializing new Selector"@,
        }
    }

    /// The human-readable message for this failure.
    pub fn message(&self) -> (text: String)
        ensures
            text@ == self.message_text(),
    {
        match self {
            ScraperError::InvalidHeaderMapValue => "Invalid header map value provided".to_owned(),
            ScraperError::RequestError => {
                "Error occurred while requesting data from the webpage".to_owned()
            },
            ScraperError::SelectorError => {
                "An error occured while initializing new Selector".to_owned()
            },
        }
    }
}

} // verus!
