//! The one request that is sent: a GET of a fixed address, with a fixed
//! timeout and fixed headers. Sending it is left to the caller.

use vstd::prelude::*;
use reqwest::header::HeaderMap;
use crate::error::ScraperError;
use crate::headers::{fixed_headers, header_entries, request_headers};

verus! {

/// The address that is fetched.
pub const TARGET_URL: &'static str = "https://example.com/";

/// The seconds after which a request is given up.
pub const TIMEOUT_SECS: u64 = 30;

/// A GET request, as far as the caller has to know it to send it.
pub struct GetRequest {
    /// The address to fetch.
    pub url: String,
    /// The seconds after which the request is to be given up.
    pub timeout_secs: u64,
    /// The headers to send.
    pub headers: HeaderMap,
}

/// Describes the request. Whatever the page will hold, the request goes to
/// [`TARGET_URL`], is given up after 30 seconds, and carries the three
/// headers of [`fixed_headers`] with exactly their values.
pub fn fixed_request() -> (r: Result<GetRequest, ScraperError>)
    ensures
        r is Ok,
        r->Ok_0.url@ == TARGET_URL@,
        r->Ok_0.timeout_secs == 30,
        header_entries(r->Ok_0.headers) == fixed_headers(),
{
    let headers = request_headers()?;
    Ok(GetRequest { url: TARGET_URL.to_owned(), timeout_secs: TIMEOUT_SECS, headers })
}

} // verus!
