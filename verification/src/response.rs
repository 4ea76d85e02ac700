//! What came of sending the request, and what follows from it.

use vstd::prelude::*;
use crate::error::ScraperError;
use crate::extract::{
    attribute_of, compiled_selector, first_selected, outcome_view, page_fits, parsed_document,
    scrape, scrape_result, Lookup, ATTRIBUTE, LABEL, SELECTOR,
};

verus! {

/// What the caller has to tell of the request that it sent.
#[derive(Debug, PartialEq, Eq)]
pub enum Fetched {
    /// The request could not be carried out: no connection, no answer in
    /// time, or a fault on the way.
    SendFailed,
    /// An answer came, and its body could not be read as text.
    BodyUnreadable,
    /// The text of the body of the answer.
    Body(String),
}

/// What follows from a request that was sent: a request that failed is a
/// failure of that kind, and a body is searched for the link.
pub open spec fn fetched_result(fetched: Fetched) -> Result<Lookup<Seq<char>>, ScraperError> {
    match fetched {
        Fetched::SendFailed => Err(ScraperError::RequestError),
        Fetched::BodyUnreadable => Err(ScraperError::RequestError),
        Fetched::Body(body) => scrape_result(body@, SELECTOR@, ATTRIBUTE@),
    }
}

/// Says what follows from a request that was sent: the failure to report, or
/// what the search of the body came to. A body that is too long to be parsed
/// is no input: [`crate::extract::fits_as_page`] tells.
pub fn scrape_fetched(fetched: &Fetched) -> (r: Result<Lookup<String>, ScraperError>)
    requires
        fetched matches Fetched::Body(body) ==> page_fits(body@),
    ensures
        outcome_view(r) == fetched_result(*fetched),
{
    match fetched {
        Fetched::SendFailed => Err(ScraperError::RequestError),
        Fetched::BodyUnreadable => Err(ScraperError::RequestError),
        Fetched::Body(body) => scrape(body.as_str()),
    }
}

/// How a run ends, once the request was sent. `T` is the type of the line
/// that is printed: a `String` in running code, a `Seq<char>` in
/// specifications.
#[derive(Debug, PartialEq, Eq)]
pub enum Ending<T> {
    /// The line is written to standard output, and the run has succeeded.
    Printed(T),
    /// The failure is reported with its message, and the run has failed.
    Reported(ScraperError),
    /// The run stops at once: nothing is printed, and no failure is
    /// reported.
    Aborted,
}

impl View for Ending<String> {
    type V = Ending<Seq<char>>;

    open spec fn view(&self) -> Ending<Seq<char>> {
        match self {
            Ending::Printed(line) => Ending::Printed(line@),
            Ending::Reported(e) => Ending::Reported(*e),
            Ending::Aborted => Ending::Aborted,
        }
    }
}

/// How the run ends after a request that was sent: a failure is reported, a
/// link that was found is printed behind its label, and a page without the
/// link stops the run.
pub open spec fn ending_of(fetched: Fetched) -> Ending<Seq<char>> {
    match fetched_result(fetched) {
        Err(e) => Ending::Reported(e),
        Ok(Lookup::Found(link)) => Ending::Printed(LABEL@ + link),
        Ok(_) => Ending::Aborted,
    }
}

/// Says how the run is to end after a request that was sent. A body that is
/// too long to be parsed is no input: [`crate::extract::fits_as_page`] tells.
pub fn conclude(fetched: &Fetched) -> (ending: Ending<String>)
    requires
        fetched matches Fetched::Body(body) ==> page_fits(body@),
    ensures
        ending@ == ending_of(*fetched),
{
    match scrape_fetched(fetched) {
        Err(e) => Ending::Reported(e),
        Ok(lookup) => match lookup {
            Lookup::Found(_) => Ending::Printed(lookup.link_line()),
            _ => Ending::Aborted,
        },
    }
}

/// Where the selector compiles and the first element that it matches in the
/// page has the attribute, the run prints the attribute's value behind the
/// label, and nothing else comes of it.
pub proof fn lemma_found_link_is_printed(fetched: Fetched)
    requires
        fetched matches Fetched::Body(body) && compiled_selector(SELECTOR@) matches Some(selector)
            && first_selected(parsed_document(body@), selector) matches Some(element)
            && attribute_of(element, ATTRIBUTE@) is Some,
    ensures
        ending_of(fetched) == Ending::Printed(
            LABEL@ + attribute_of(
                first_selected(
                    parsed_document(fetched->Body_0@),
                    compiled_selector(SELECTOR@)->Some_0,
                )->Some_0,
                ATTRIBUTE@,
            )->Some_0,
        ),
{
}

/// A request that failed, or whose answer could not be read, ends the run
/// with a failure of the request that is reported.
pub proof fn lemma_failed_request_is_reported(fetched: Fetched)
    requires
        !(fetched is Body),
    ensures
        ending_of(fetched) == Ending::<Seq<char>>::Reported(ScraperError::RequestError),
{
}

/// Where the selector compiles and matches no element of the page, the run
/// stops at once: the search is no failure, so none is reported and no
/// message is shown, and it has found no link, so no line is printed.
pub proof fn lemma_no_match_aborts(fetched: Fetched)
    requires
        fetched matches Fetched::Body(body) && compiled_selector(SELECTOR@) matches Some(selector)
            && first_selected(parsed_document(body@), selector) is None,
    ensures
        fetched_result(fetched) == Ok::<Lookup<Seq<char>>, ScraperError>(Lookup::NoMatch),
        ending_of(fetched) == Ending::<Seq<char>>::Aborted,
{
}

/// Where the selector compiles and the first element that it matches in the
/// page lacks the attribute, the run stops at once, whatever the elements
/// that come later hold: no failure is reported, and no line is printed.
pub proof fn lemma_missing_attribute_aborts(fetched: Fetched)
    requires
        fetched matches Fetched::Body(body) && compiled_selector(SELECTOR@) matches Some(selector)
            && first_selected(parsed_document(body@), selector) matches Some(element)
            && attribute_of(element, ATTRIBUTE@) is None,
    ensures
        fetched_result(fetched) == Ok::<Lookup<Seq<char>>, ScraperError>(Lookup::MissingAttribute),
        ending_of(fetched) == Ending::<Seq<char>>::Aborted,
{
}

} // verus!
