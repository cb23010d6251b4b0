//! Login, the user behind a request, and the token check of the middleware.

use vstd::prelude::*;

use crate::gateway::base::middleware::auth::{bearer_token, token_from_header};
use crate::gateway::base::{ApiResult, AppError, ToApiResult};
use crate::text::{has_prefix, owned, str_eq};

verus! {

/// The authenticated user of a request.
#[derive(Debug)]
pub struct User {
    pub id: String,
    pub name: String,
}

/// A login request: the user name.
#[derive(Debug)]
pub struct LoginRequest {
    pub username: String,
}

/// A successful login: the token to present afterwards.
#[derive(Debug)]
pub struct LoginResponse {
    pub token: String,
}

/// The token handed out to a user name, if the name may log in.
pub open spec fn token_for_user(username: Seq<char>) -> Option<Seq<char>> {
    if username == "admin1"@ {
        Some("gic-secret1"@)
    } else if username == "admin2"@ {
        Some("gic-secret2"@)
    } else {
        None
    }
}

/// The user (id and display name) that a token stands for, if any.
pub open spec fn user_for_token(token: Seq<char>) -> Option<(Seq<char>, Seq<char>)> {
    if token == "gic-secret1"@ {
        Some(("1"@, "Admin1"@))
    } else if token == "gic-secret2"@ {
        Some(("2"@, "Admin2"@))
    } else {
        None
    }
}

/// The tokens that the middleware's validator accepts.
pub open spec fn is_known_token(token: Seq<char>) -> bool {
    token == "gic-secret1"@ || token == "gic-secret2"@
}

/// Logs a user in: "admin1" and "admin2" receive their tokens (code 0), any
/// other name is refused as unauthorized with "Invalid username".
pub fn handle_login(req: LoginRequest) -> (r: ApiResult<LoginResponse>)
    ensures
        token_for_user(req.username@) matches Some(t) ==> (r matches Ok(reply) && reply.0.token@
            == t && reply.1 == 0),
        token_for_user(req.username@) is None ==> (r matches Err(AppError::Unauthorized(m))
            && m@ == "Invalid username"@),
{
    if str_eq(req.username.as_str(), "admin1") {
        LoginResponse { token: owned("gic-secret1") }.ok()
    } else if str_eq(req.username.as_str(), "admin2") {
        LoginResponse { token: owned("gic-secret2") }.ok()
    } else {
        Err(AppError::Unauthorized(owned("Invalid username")))
    }
}

/// The user of a request, from its `Authorization` header (present and
/// readable as text, or not): the header's bearer token must stand for a
/// user; a missing header and an unknown token are refused as unauthorized.
pub fn user_from_authorization(authorization: Option<&str>) -> (r: Result<User, AppError>)
    ensures
        authorization is None ==> (r matches Err(AppError::Unauthorized(m)) && m@
            == "Missing Authorization header"@),
        authorization matches Some(h) ==> match user_for_token(bearer_token(h@)) {
            Some(u) => r matches Ok(user) && user.id@ == u.0 && user.name@ == u.1,
            None => r matches Err(AppError::Unauthorized(m)) && m@ == "Invalid token for user"@,
        },
{
    match authorization {
        None => Err(AppError::Unauthorized(owned("Missing Authorization header"))),
        Some(h) => {
            let token = token_from_header(h);
            if str_eq(token, "gic-secret1") {
                Ok(User { id: owned("1"), name: owned("Admin1") })
            } else if str_eq(token, "gic-secret2") {
                Ok(User { id: owned("2"), name: owned("Admin2") })
            } else {
                Err(AppError::Unauthorized(owned("Invalid token for user")))
            }
        },
    }
}

/// The token validator of the protected routes.
#[derive(Debug, Clone, Copy)]
pub struct MyValidator;

impl MyValidator {
    /// Whether the validator accepts a token.
    pub fn accepts(&self, token: &str) -> (r: bool)
        ensures
            r == is_known_token(token@),
    {
        str_eq(token, "gic-secret1") || str_eq(token, "gic-secret2")
    }
}

/// Exactly the two names "admin1" and "admin2" may log in, with their own
/// tokens; every other name, one that merely starts with one of them
/// included, is refused. Exactly the two issued tokens stand for a user.
pub proof fn lemma_only_two_names_log_in(username: Seq<char>, token: Seq<char>)
    ensures
        token_for_user(username) is Some <==> (username == "admin1"@ || username == "admin2"@),
        username == "admin1"@ ==> token_for_user(username) == Some("gic-secret1"@),
        username == "admin2"@ ==> token_for_user(username) == Some("gic-secret2"@),
        user_for_token(token) is Some <==> (token == "gic-secret1"@ || token == "gic-secret2"@),
{
    reveal_strlit("admin1");
    reveal_strlit("admin2");
    assert("admin1"@ != "admin2"@) by {
        assert("admin1"@[5] != "admin2"@[5]);
    }
}

/// The validator accepts exactly the tokens that stand for a user, so a
/// request that the middleware lets through always has a user.
pub proof fn lemma_validator_matches_users(token: Seq<char>)
    ensures
        is_known_token(token) <==> user_for_token(token) is Some,
{
}

/// A token handed out at login, presented as "Bearer <token>", is accepted
/// by the validator and stands for the user who logged in.
pub proof fn lemma_login_token_authorizes(username: Seq<char>)
    requires
        token_for_user(username) is Some,
    ensures
        ({
            let t = token_for_user(username)->Some_0;
            let header = "Bearer "@ + t;
            &&& bearer_token(header) == t
            &&& is_known_token(t)
            &&& username == "admin1"@ ==> user_for_token(t) == Some(("1"@, "Admin1"@))
            &&& username == "admin2"@ ==> user_for_token(t) == Some(("2"@, "Admin2"@))
        }),
{
    let t = token_for_user(username)->Some_0;
    let header = "Bearer "@ + t;
    reveal_strlit("gic-secret1");
    reveal_strlit("gic-secret2");
    reveal_strlit("admin1");
    reveal_strlit("admin2");
    assert(header.subrange(0, "Bearer "@.len() as int) =~= "Bearer "@);
    assert(has_prefix(header, "Bearer "@));
    assert(header.skip("Bearer "@.len() as int) =~= t);
    assert(bearer_token(header) == t);
    assert(is_known_token(t));
    assert("admin1"@ != "admin2"@) by {
        assert("admin1"@[5] != "admin2"@[5]);
    }
    assert("gic-secret1"@ != "gic-secret2"@) by {
        assert("gic-secret1"@[10] != "gic-secret2"@[10]);
    }
}

} // verus!
