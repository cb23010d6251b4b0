use rsweb::gateway::api::{test_json_reply, TestJsonRequest};
use rsweb::gateway::base::middleware::log::{completion_message, LoggingLayer};
use rsweb::gateway::state::IndexState;
use rsweb::gateway::ws::{echo_step, EchoAction, EchoEvent};
use rsweb::gateway::{
    is_json_content_type, unified_error_message, unify_error, MAX_BODY_SIZE, REQUEST_TIMEOUT_SECS,
};
use rsweb::text::{contains_str, str_eq, strip_prefix, trim};

#[test]
fn limits() {
    assert_eq!(MAX_BODY_SIZE, 65536);
    assert_eq!(REQUEST_TIMEOUT_SECS, 30);
}

fn unified(status: u16, content_type: Option<&str>) -> Option<(i32, String)> {
    unify_error(status, content_type).map(|b| {
        assert!(b.data.is_none());
        (b.code, b.msg)
    })
}

#[test]
fn error_bodies_get_fixed_texts() {
    assert_eq!(unified(404, None), Some((404, "Resource not found".to_string())));
    assert_eq!(unified(413, Some("text/plain")), Some((413, "Request body too large".to_string())));
    assert_eq!(unified(408, Some("text/html")), Some((408, "Request timeout".to_string())));
}

#[test]
fn other_error_bodies_get_reason_phrase() {
    assert_eq!(unified(500, None), Some((500, "Internal Server Error".to_string())));
    assert_eq!(unified(418, Some("text/plain")), Some((418, "I'm a teapot".to_string())));
    assert_eq!(unified(401, None), Some((401, "Unauthorized".to_string())));
    assert_eq!(unified(405, None), Some((405, "Method Not Allowed".to_string())));
    assert_eq!(unified(499, None), Some((499, "Unknown error".to_string())));
    assert_eq!(unified(599, None), Some((599, "Unknown error".to_string())));
}

#[test]
fn json_and_non_error_responses_pass() {
    assert!(unified(404, Some("application/json")).is_none());
    assert!(unified(500, Some("application/json; charset=utf-8")).is_none());
    assert!(unified(200, None).is_none());
    assert!(unified(302, Some("text/html")).is_none());
    assert!(unified(399, None).is_none());
    assert!(unified(600, None).is_none());
}

#[test]
fn message_from_given_reason() {
    assert_eq!(unified_error_message(503, Some("Busy")), "Busy");
    assert_eq!(unified_error_message(503, None), "Unknown error");
    assert_eq!(unified_error_message(404, Some("Busy")), "Resource not found");
}

#[test]
fn json_content_type_detection() {
    assert!(is_json_content_type(Some("application/json")));
    assert!(is_json_content_type(Some("x; application/json")));
    assert!(!is_json_content_type(Some("application/jso")));
    assert!(!is_json_content_type(Some("Application/JSON")));
    assert!(!is_json_content_type(None));
}

#[test]
fn text_helpers() {
    assert!(str_eq("abc", "abc"));
    assert!(!str_eq("abc", "abd"));
    assert!(!str_eq("abc", "ab"));
    assert_eq!(strip_prefix("héllo", "hé"), Some("llo"));
    assert_eq!(strip_prefix("hello", "x"), None);
    assert_eq!(strip_prefix("he", "hello"), None);
    assert!(contains_str("abcabd", "abd"));
    assert!(contains_str("abc", ""));
    assert!(!contains_str("", "a"));
}

#[test]
fn trimming_matches_std() {
    for t in ["", "  ", " a b ", "\n42\r\n", "\u{a0}x\u{3000}", "\u{2003}y\u{85}", "z", "\u{200b}q"] {
        assert_eq!(trim(t), t.trim());
    }
}

#[test]
fn counter_kth_add_returns_k() {
    let mut s = IndexState::new();
    for k in 1..=1000 {
        assert_eq!(s.id_add(), k);
    }
    assert_eq!(s.get_id(), 1000);
}

#[test]
fn counter_starts_at_zero_and_counts() {
    let mut s = IndexState::new();
    assert_eq!(s.get_id(), 0);
    assert_eq!(s.id_add(), 1);
    assert_eq!(s.id_add(), 2);
    assert_eq!(s.get_id(), 2);
}

#[test]
fn test_json_echoes_fields() {
    let r = test_json_reply(TestJsonRequest { name: "Ann".to_string(), age: Some(31) });
    assert_eq!(r.received_name, "Ann");
    assert_eq!(r.received_age, Some(31));
    assert_eq!(r.message, "AppJson extractor works!");
    let r = test_json_reply(TestJsonRequest { name: String::new(), age: None });
    assert_eq!(r.received_age, None);
}

#[test]
fn echo_loop_decisions() {
    assert_eq!(echo_step(EchoEvent::Received), EchoAction::SendBack);
    assert_eq!(echo_step(EchoEvent::ReceiveFailed), EchoAction::Close);
    assert_eq!(echo_step(EchoEvent::SendFailed), EchoAction::Close);
    assert_eq!(echo_step(EchoEvent::StreamEnded), EchoAction::Close);
}

#[test]
fn logging_layer_wraps_service() {
    let m = LoggingLayer.layer(17u8);
    assert_eq!(m.inner, 17);
    assert_eq!(completion_message(true), "Request completed");
    assert_eq!(completion_message(false), "Request failed");
}
