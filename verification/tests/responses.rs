use rsweb::error::{ApiResponse as PlainResponse, AppError as PlainError};
use rsweb::gateway::base::{ApiResponse, AppError, AppJson, Reply, ToApiResult};

#[test]
fn success_envelope_has_code_zero_and_data() {
    let r = PlainResponse::success(7u32);
    assert_eq!(r.code, 0);
    assert_eq!(r.msg, "success");
    assert_eq!(r.data, Some(7));
}

#[test]
fn error_envelope_has_no_data() {
    let r: PlainResponse<u32> = PlainResponse::error(404, "gone".to_string());
    assert_eq!(r.code, 404);
    assert_eq!(r.msg, "gone");
    assert!(r.data.is_none());
    let b: ApiResponse<()> = ApiResponse::error(409, "dup".to_string());
    assert_eq!(b.code, 409);
    assert_eq!(b.msg, "dup");
    assert!(b.data.is_none());
}

#[test]
fn plain_error_codes_statuses_and_messages() {
    let nf = PlainError::NotFound("user".to_string());
    assert_eq!(nf.code(), 404);
    assert_eq!(nf.status(), 404);
    assert_eq!(nf.message(), "Not Found: user");
    let br = PlainError::BadRequest("bad".to_string());
    assert_eq!(br.code(), 400);
    assert_eq!(br.status(), 400);
    assert_eq!(br.message(), "Bad Request: bad");
    let int = PlainError::Internal(anyhow::Error::msg("boom"));
    assert_eq!(int.code(), 500);
    assert_eq!(int.status(), 500);
    assert_eq!(int.message(), "Internal Server Error");
}

#[test]
fn plain_error_response_carries_code_and_text() {
    let nf = PlainError::NotFound("page".to_string());
    let (status, body): (u16, PlainResponse<()>) = nf.to_response();
    assert_eq!(status, 404);
    assert_eq!(body.code, 404);
    assert_eq!(body.msg, "Not Found: page");
    assert!(body.data.is_none());
}

#[test]
fn io_error_becomes_internal() {
    let e = std::io::Error::new(std::io::ErrorKind::Other, "disk");
    let app = PlainError::from_io_error(e);
    assert!(matches!(app, PlainError::Internal(_)));
    assert_eq!(app.code(), 500);
}

#[test]
fn reply_becomes_success_envelope_with_its_code() {
    let r = Reply("payload".to_string(), 3).into_api_response();
    assert_eq!(r.code, 3);
    assert_eq!(r.msg, "success");
    assert_eq!(r.data, Some("payload".to_string()));
}

#[test]
fn gateway_error_statuses_and_codes() {
    let cases = vec![
        (AppError::BadRequest("a".to_string()), 400u16, 400i32, "Bad Request: a"),
        (AppError::NotFound("b".to_string()), 404, 404, "Not Found: b"),
        (AppError::Internal("c".to_string()), 500, 500, "Internal Error: c"),
        (AppError::Cancelled("d".to_string()), 200, 1, "Request Cancelled: d"),
        (AppError::Conflict("e".to_string()), 409, 409, "Conflict: e"),
        (AppError::Unauthorized("f".to_string()), 401, 401, "Unauthorized: f"),
    ];
    for (err, status, code, text) in cases {
        assert_eq!(err.status(), status);
        assert_eq!(err.code(), code);
        assert_eq!(err.message(), text);
    }
}

#[test]
fn gateway_error_response_uses_detail_text() {
    let (status, body) = AppError::Cancelled("stopped".to_string()).to_response();
    assert_eq!(status, 200);
    assert_eq!(body.code, 1);
    assert_eq!(body.msg, "stopped");
    assert!(body.data.is_none());
    let (status, body) = AppError::Conflict("taken".to_string()).to_response();
    assert_eq!(status, 409);
    assert_eq!(body.code, 409);
    assert_eq!(body.msg, "taken");
}

#[test]
fn rejection_text_is_a_bad_request() {
    let e = AppError::from_rejection_text("Failed to parse".to_string());
    assert!(matches!(&e, AppError::BadRequest(m) if m == "Failed to parse"));
    let (status, body) = e.to_response();
    assert_eq!(status, 400);
    assert_eq!(body.code, 400);
    assert_eq!(body.msg, "Failed to parse");
}

#[test]
fn to_api_result_wraps_values() {
    let r = 5u8.ok().unwrap();
    assert_eq!(r.0, 5);
    assert_eq!(r.1, 0);
    let r = "x".to_string().with_code(42).unwrap();
    assert_eq!(r.0, "x");
    assert_eq!(r.1, 42);
}

#[test]
fn app_json_holds_its_value() {
    let j = AppJson(vec![1, 2]);
    assert_eq!(j.0, vec![1, 2]);
}
