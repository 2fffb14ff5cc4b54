use vstd::prelude::*;

use crate::error::{Error, FetchFailure};

verus! {

/// The HTTP status of a successful answer.
pub const STATUS_OK: u16 = 200;

/// The HTTP status of an answer that says the resource does not exist.
pub const STATUS_NOT_FOUND: u16 = 404;

/// What to do when an upstream API does not know a resource.
#[derive(Clone, Copy, Debug, PartialEq, Eq, Structural)]
pub enum NotFoundPolicy {
    /// The resource fails with an enrichment failure.
    Fail,
    /// The resource is skipped: no event is published for it.
    Skip,
}

/// An answer of an upstream API.
#[derive(Clone, Debug)]
pub struct HttpResponse {
    pub status: u16,
    pub body: String,
}

/// The content carried by an answer of an upstream API, as `http_get` gives it:
/// the body of a success, nothing for a missing resource under `Skip`, and an
/// enrichment failure holding the status and body for any other answer.
pub open spec fn spec_content(status: u16, body: String, policy: NotFoundPolicy) -> Result<Option<String>, Error> {
    if status == STATUS_OK {
        Ok(Some(body))
    } else if status == STATUS_NOT_FOUND && policy == NotFoundPolicy::Skip {
        Ok(None)
    } else {
        Err(Error::EnrichmentFailure(FetchFailure::Status { status, body }))
    }
}

/// The content that a GET on an upstream API yields: that of its answer, or
/// an enrichment failure when no answer came.
pub open spec fn spec_http_get(response: Result<HttpResponse, String>, policy: NotFoundPolicy) -> Result<Option<String>, Error> {
    match response {
        Ok(resp) => spec_content(resp.status, resp.body, policy),
        Err(msg) => Err(Error::EnrichmentFailure(FetchFailure::Transport(msg))),
    }
}

/// Interprets the result of a GET on an upstream API.
pub fn http_get(response: Result<HttpResponse, String>, policy: NotFoundPolicy) -> (r: Result<Option<String>, Error>)
    ensures
        r == spec_http_get(response, policy),
{
    match response {
        Ok(resp) => {
            if resp.status == STATUS_OK {
                Ok(Some(resp.body))
            } else if resp.status == STATUS_NOT_FOUND && policy == NotFoundPolicy::Skip {
                Ok(None)
            } else {
                Err(Error::EnrichmentFailure(FetchFailure::Status { status: resp.status, body: resp.body }))
            }
        },
        Err(msg) => Err(Error::EnrichmentFailure(FetchFailure::Transport(msg))),
    }
}

/// Whether two strings hold the same characters.
pub fn str_eq(a: &str, b: &str) -> (r: bool)
    ensures
        r == (a@ == b@),
{
    a.to_owned() == b.to_owned()
}

} // verus!
