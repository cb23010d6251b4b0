//! The request-logging middleware.

use vstd::prelude::*;

verus! {

/// The layer that wraps a service with request logging.
#[derive(Debug, Clone, Copy)]
pub struct LoggingLayer;

/// A service wrapped with request logging.
#[derive(Debug, Clone)]
pub struct LoggingMiddleware<Svc> {
    pub inner: Svc,
}

impl LoggingLayer {
    /// Wraps `inner` with request logging.
    pub fn layer<Svc>(&self, inner: Svc) -> (r: LoggingMiddleware<Svc>)
        ensures
            r.inner == inner,
    {
        LoggingMiddleware { inner }
    }
}

/// The log line written when a request finishes: whether the inner service
/// produced a response or failed.
pub fn completion_message(succeeded: bool) -> (r: &'static str)
    ensures
        succeeded ==> r@ == "Request completed"@,
        !succeeded ==> r@ == "Request failed"@,
{
    if succeeded {
        "Request completed"
    } else {
        "Request failed"
    }
}

} // verus!
