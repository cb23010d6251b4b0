//! The decisions of the authorization middleware.

use vstd::prelude::*;

use crate::gateway::base::ApiResponse;
use crate::text::{has_prefix, owned, strip_prefix};

verus! {

/// The token that an `Authorization` header value carries: the text after a
/// leading "Bearer ", or the whole value when it has no such prefix.
pub open spec fn bearer_token(header: Seq<char>) -> Seq<char> {
    if has_prefix(header, "Bearer "@) {
        header.skip("Bearer "@.len() as int)
    } else {
        header
    }
}

/// The token carried by an `Authorization` header value.
pub fn token_from_header(header: &str) -> (r: &str)
    ensures
        r@ == bearer_token(header@),
{
    match strip_prefix(header, "Bearer ") {
        Some(rest) => rest,
        None => header,
    }
}

/// A header written as "Bearer " and a token carries exactly that token; a
/// header without that prefix is taken whole as the token.
pub proof fn lemma_bearer_token_roundtrip(token: Seq<char>, header: Seq<char>)
    ensures
        bearer_token("Bearer "@ + token) == token,
        !has_prefix(header, "Bearer "@) ==> bearer_token(header) == header,
{
    let h = "Bearer "@ + token;
    assert(h.subrange(0, "Bearer "@.len() as int) =~= "Bearer "@);
    assert(h.skip("Bearer "@.len() as int) =~= token);
}

/// What the middleware learns while it handles one request.
pub enum AuthEvent {
    /// A request arrived; its `Authorization` header, when present and readable as text.
    Arrived(Option<String>),
    /// The token validator answered.
    Validated(bool),
}

/// What the middleware does next.
#[derive(Debug)]
pub enum AuthAction {
    /// Ask the token validator about this token.
    Validate(String),
    /// Pass the request on to the protected service.
    Forward,
    /// Answer at once with this status and envelope.
    Reject(u16, ApiResponse<()>),
}

/// The response to a request without valid credentials: 401 and an
/// "Unauthorized" envelope.
pub open spec fn is_unauthorized_reply(a: AuthAction) -> bool {
    a matches AuthAction::Reject(status, body) && status == 401 && body.code == 401
        && body.msg@ == "Unauthorized"@ && body.data is None
}

/// One step of the authorization middleware: a request with a header is
/// sent to the validator with its bearer token, one without is refused; a
/// validated request is forwarded, a refused one answered with 401.
pub fn auth_step(event: AuthEvent) -> (r: AuthAction)
    ensures
        event matches AuthEvent::Arrived(Some(h)) ==> (r matches AuthAction::Validate(t) && t@
            == bearer_token(h@)),
        event matches AuthEvent::Arrived(None) ==> is_unauthorized_reply(r),
        event matches AuthEvent::Validated(true) ==> r is Forward,
        event matches AuthEvent::Validated(false) ==> is_unauthorized_reply(r),
{
    match event {
        AuthEvent::Arrived(Some(h)) => AuthAction::Validate(owned(token_from_header(h.as_str()))),
        AuthEvent::Arrived(None) => unauthorized(),
        AuthEvent::Validated(valid) => {
            if valid {
                AuthAction::Forward
            } else {
                unauthorized()
            }
        },
    }
}

fn unauthorized() -> (r: AuthAction)
    ensures
        is_unauthorized_reply(r),
{
    AuthAction::Reject(401, ApiResponse::error(401, owned("Unauthorized")))
}

} // verus!
