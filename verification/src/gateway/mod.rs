//! The HTTP gateway: handlers' logic, shared state and middleware decisions.

use vstd::prelude::*;

use crate::gateway::base::ApiResponse;
use crate::text::{contains_str, has_infix, owned};

pub mod api;
pub mod base;
pub mod sse;
pub mod state;
pub mod user;
pub mod ws;

verus! {

/// Maximum request body size (64 KiB).
pub const MAX_BODY_SIZE: usize = 65_536;

/// Request timeout in seconds.
pub const REQUEST_TIMEOUT_SECS: u64 = 30;

/// The reason phrase that the `http` crate gives a status code, if it knows one.
pub uninterp spec fn canonical_reason_of(status: u16) -> Option<Seq<char>>;

/// A client error (4xx) or a server error (5xx).
pub open spec fn is_error_status(status: u16) -> bool {
    400 <= status < 600
}

/// The statuses whose responses are rewritten are exactly the client errors
/// and the server errors: those whose hundreds digit is 4 or 5.
pub proof fn lemma_error_statuses_are_4xx_and_5xx(status: u16)
    ensures
        is_error_status(status) <==> (status / 100 == 4 || status / 100 == 5),
{
}

/// The view of an optional string slice.
pub open spec fn opt_view(s: Option<&str>) -> Option<Seq<char>> {
    match s {
        Some(t) => Some(t@),
        None => None,
    }
}

/// A `Content-Type` value (when present and readable) that names JSON.
pub open spec fn is_json_content(content_type: Option<Seq<char>>) -> bool {
    content_type matches Some(v) && has_infix(v, "application/json"@)
}

/// The error text put in a rewritten error body: fixed texts for 404, 413 and
/// 408, otherwise the status's reason phrase, or "Unknown error" without one.
pub open spec fn unified_message(status: u16, reason: Option<Seq<char>>) -> Seq<char> {
    if status == 404 {
        "Resource not found"@
    } else if status == 413 {
        "Request body too large"@
    } else if status == 408 {
        "Request timeout"@
    } else {
        match reason {
            Some(r) => r,
            None => "Unknown error"@,
        }
    }
}

/// Calls `StatusCode::from_u16(status)` and then `canonical_reason` of the
/// `http` crate (re-exported by axum); the result is the crate's reason phrase
/// for the code, named `canonical_reason_of`.
#[verifier::external_body]
fn canonical_reason(status: u16) -> (r: Option<&'static str>)
    requires
        100 <= status <= 999,
    ensures
        opt_view(r) == canonical_reason_of(status),
{
    match axum::http::StatusCode::from_u16(status) {
        Ok(code) => code.canonical_reason(),
        Err(_) => None,
    }
}

/// The error text for a status, given the status's reason phrase.
pub fn unified_error_message(status: u16, reason: Option<&str>) -> (r: String)
    ensures
        r@ == unified_message(status, opt_view(reason)),
{
    if status == 404 {
        owned("Resource not found")
    } else if status == 413 {
        owned("Request body too large")
    } else if status == 408 {
        owned("Request timeout")
    } else {
        match reason {
            Some(text) => owned(text),
            None => owned("Unknown error"),
        }
    }
}

/// Whether a `Content-Type` value names JSON.
pub fn is_json_content_type(content_type: Option<&str>) -> (r: bool)
    ensures
        r == is_json_content(opt_view(content_type)),
{
    match content_type {
        Some(v) => contains_str(v, "application/json"),
        None => false,
    }
}

/// The rule of the error-unifying middleware: an error response (4xx or 5xx)
/// whose body is not JSON gets the uniform envelope as its body, with the
/// status as its code, this error text as its message and no data; any other
/// response passes unchanged (`None`).
pub fn unify_error(status: u16, content_type: Option<&str>) -> (r: Option<ApiResponse<()>>)
    requires
        100 <= status <= 999,
    ensures
        r is Some <==> (is_error_status(status) && !is_json_content(opt_view(content_type))),
        r matches Some(b) ==> b.code == status as i32 && b.msg@ == unified_message(
            status,
            canonical_reason_of(status),
        ) && b.data is None,
{
    if !(400 <= status && status < 600) {
        return None;
    }
    if is_json_content_type(content_type) {
        return None;
    }
    let msg = unified_error_message(status, canonical_reason(status));
    Some(ApiResponse::error(status as i32, msg))
}

} // verus!
