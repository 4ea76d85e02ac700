//! Fetch-and-extract, minus the fetching: the request that is to be sent,
//! described as plain values and a header map, and the search of the page
//! that came back for the link that is to be shown.
//!
//! Nothing here performs I/O. A caller sends the request that
//! [`request::fixed_request`] describes, makes sure with
//! [`extract::fits_as_page`] that the body is short enough to be parsed,
//! tells [`response::conclude`] what came of the request, and ends as it
//! is told: with the line printed, with the failure reported, or at once.

pub mod error;
pub mod extract;
pub mod headers;
pub mod request;
pub mod response;
