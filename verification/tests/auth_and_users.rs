use rsweb::gateway::base::middleware::auth::{auth_step, token_from_header, AuthAction, AuthEvent};
use rsweb::gateway::base::AppError;
use rsweb::gateway::user::{handle_login, user_from_authorization, LoginRequest, MyValidator};

fn login(name: &str) -> Result<String, AppError> {
    handle_login(LoginRequest { username: name.to_string() }).map(|r| {
        assert_eq!(r.1, 0);
        r.0.token
    })
}

#[test]
fn login_gives_tokens_to_known_users() {
    assert_eq!(login("admin1").unwrap(), "gic-secret1");
    assert_eq!(login("admin2").unwrap(), "gic-secret2");
}

#[test]
fn login_refuses_other_names() {
    for name in ["admin", "Admin1", "", "admin3", " admin1"] {
        match login(name) {
            Err(AppError::Unauthorized(m)) => assert_eq!(m, "Invalid username"),
            other => panic!("unexpected {:?}", other),
        }
    }
}

#[test]
fn user_from_bearer_header() {
    let u = user_from_authorization(Some("Bearer gic-secret1")).unwrap();
    assert_eq!(u.id, "1");
    assert_eq!(u.name, "Admin1");
    let u = user_from_authorization(Some("gic-secret2")).unwrap();
    assert_eq!(u.id, "2");
    assert_eq!(u.name, "Admin2");
}

#[test]
fn user_refused_without_or_with_bad_header() {
    match user_from_authorization(None) {
        Err(AppError::Unauthorized(m)) => assert_eq!(m, "Missing Authorization header"),
        other => panic!("unexpected {:?}", other),
    }
    for h in ["Bearer nope", "bearer gic-secret1", "Bearer  gic-secret1", ""] {
        match user_from_authorization(Some(h)) {
            Err(AppError::Unauthorized(m)) => assert_eq!(m, "Invalid token for user"),
            other => panic!("unexpected {:?}", other),
        }
    }
}

#[test]
fn validator_accepts_only_issued_tokens() {
    let v = MyValidator;
    assert!(v.accepts("gic-secret1"));
    assert!(v.accepts("gic-secret2"));
    assert!(!v.accepts("gic-secret3"));
    assert!(!v.accepts("Bearer gic-secret1"));
    assert!(!v.accepts(""));
}

#[test]
fn login_token_then_request_finds_the_user() {
    for (name, id) in [("admin1", "1"), ("admin2", "2")] {
        let token = login(name).unwrap();
        let header = format!("Bearer {}", token);
        assert!(MyValidator.accepts(token_from_header(&header)));
        let user = user_from_authorization(Some(&header)).unwrap();
        assert_eq!(user.id, id);
    }
}

#[test]
fn validator_and_user_lookup_agree() {
    for t in ["gic-secret1", "gic-secret2", "x", "gic-secret", "gic-secret12"] {
        let header = format!("Bearer {}", t);
        assert_eq!(MyValidator.accepts(t), user_from_authorization(Some(&header)).is_ok());
    }
}

#[test]
fn bearer_prefix_is_stripped_once() {
    assert_eq!(token_from_header("Bearer abc"), "abc");
    assert_eq!(token_from_header("Bearer Bearer abc"), "Bearer abc");
    assert_eq!(token_from_header("abc"), "abc");
    assert_eq!(token_from_header("Bearer"), "Bearer");
    assert_eq!(token_from_header("Bearer "), "");
    assert_eq!(token_from_header("Bearér x"), "Bearér x");
}

fn is_401(a: &AuthAction) -> bool {
    match a {
        AuthAction::Reject(status, body) => {
            *status == 401 && body.code == 401 && body.msg == "Unauthorized" && body.data.is_none()
        }
        _ => false,
    }
}

#[test]
fn auth_step_sends_token_to_validator() {
    match auth_step(AuthEvent::Arrived(Some("Bearer gic-secret1".to_string()))) {
        AuthAction::Validate(t) => assert_eq!(t, "gic-secret1"),
        other => panic!("unexpected {:?}", other),
    }
    match auth_step(AuthEvent::Arrived(Some("raw".to_string()))) {
        AuthAction::Validate(t) => assert_eq!(t, "raw"),
        other => panic!("unexpected {:?}", other),
    }
}

#[test]
fn auth_step_refuses_missing_header_and_bad_token() {
    assert!(is_401(&auth_step(AuthEvent::Arrived(None))));
    assert!(is_401(&auth_step(AuthEvent::Validated(false))));
    assert!(matches!(auth_step(AuthEvent::Validated(true)), AuthAction::Forward));
}
