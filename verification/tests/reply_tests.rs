use gateway_client::reply::{
    body_read_failure, interpret_reply, status_failure, status_label_text, transport_failure,
    Reply,
};
use gateway_client::target::quota_request;

#[test]
fn success_returns_the_body_verbatim() {
    let q = quota_request("https://x.test/", "session=a", "7").unwrap();
    assert_eq!(q.url, "https://x.test/api/user/self");
    let body = "{\"data\":{\"quota\":1000}}".to_string();
    let r = interpret_reply(Reply::Response { status: 200, body });
    assert_eq!(r, Ok("{\"data\":{\"quota\":1000}}".to_string()));
}

#[test]
fn unauthorized_gives_status_and_body() {
    let body = "{\"error\":\"unauthorized\"}".to_string();
    let r = interpret_reply(Reply::Response { status: 401, body });
    assert_eq!(r, Err("HTTP 401 Unauthorized: {\"error\":\"unauthorized\"}".to_string()));
}

#[test]
fn success_range_is_two_hundred_to_two_ninety_nine() {
    assert_eq!(interpret_reply(Reply::Response { status: 299, body: "x".to_string() }), Ok("x".to_string()));
    assert_eq!(interpret_reply(Reply::Response { status: 204, body: String::new() }), Ok(String::new()));
    assert_eq!(
        interpret_reply(Reply::Response { status: 300, body: "x".to_string() }),
        Err("HTTP 300 Multiple Choices: x".to_string())
    );
    assert_eq!(
        interpret_reply(Reply::Response { status: 199, body: "x".to_string() }),
        Err("HTTP 199 <unknown status code>: x".to_string())
    );
    assert_eq!(
        interpret_reply(Reply::Response { status: 500, body: String::new() }),
        Err("HTTP 500 Internal Server Error: ".to_string())
    );
}

#[test]
fn status_outside_the_protocol_is_shown_as_a_number() {
    assert_eq!(status_label_text(99), "99");
    assert_eq!(status_label_text(1000), "1000");
    assert_eq!(status_label_text(0), "0");
    assert_eq!(status_label_text(404), "404 Not Found");
    assert_eq!(
        interpret_reply(Reply::Response { status: 1000, body: "b".to_string() }),
        Err("HTTP 1000: b".to_string())
    );
}

#[test]
fn transport_failure_wraps_the_error_text() {
    let r = interpret_reply(Reply::Unreachable { error: "connection refused".to_string() });
    assert_eq!(r, Err("Request failed: connection refused".to_string()));
    assert_eq!(transport_failure(""), "Request failed: ");
}

#[test]
fn body_read_failure_wraps_the_error_text() {
    let r = interpret_reply(Reply::Unreadable { error: "unexpected end of file".to_string() });
    assert_eq!(r, Err("Read body failed: unexpected end of file".to_string()));
    assert_eq!(body_read_failure("x"), "Read body failed: x");
}

#[test]
fn transport_failure_differs_from_any_status_failure() {
    let refused = interpret_reply(Reply::Unreachable { error: "connection refused".to_string() })
        .unwrap_err();
    for status in [100u16, 301, 401, 404, 500, 503] {
        for body in ["", "connection refused", "Request failed: connection refused"] {
            let rejected =
                interpret_reply(Reply::Response { status, body: body.to_string() }).unwrap_err();
            assert_ne!(refused, rejected);
            assert!(rejected.starts_with("HTTP "));
        }
    }
    assert!(refused.starts_with("Request failed: "));
    assert_ne!(transport_failure("HTTP 401 Unauthorized: x"), status_failure("401 Unauthorized", "x"));
}

#[test]
fn status_failure_keeps_the_body_whole() {
    assert_eq!(status_failure("418 I'm a teapot", "line1\nline2: x"), "HTTP 418 I'm a teapot: line1\nline2: x");
    assert_eq!(status_failure("", ""), "HTTP : ");
}
