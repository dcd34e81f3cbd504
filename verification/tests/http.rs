use gh_activity::http::{
    check_response, format_http_error, json_error_message, plain_error_message, AppError,
    StatusCode,
};

fn status(code: u16) -> StatusCode {
    StatusCode::from_u16(code).unwrap()
}

#[test]
fn status_codes_between_100_and_999() {
    assert!(StatusCode::from_u16(99).is_none());
    assert!(StatusCode::from_u16(1000).is_none());
    assert_eq!(StatusCode::from_u16(100).unwrap().as_u16(), 100);
    assert_eq!(StatusCode::from_u16(999).unwrap().as_u16(), 999);
}

#[test]
fn success_is_the_200s() {
    assert!(status(200).is_success());
    assert!(status(299).is_success());
    assert!(!status(199).is_success());
    assert!(!status(300).is_success());
    assert!(!status(404).is_success());
}

#[test]
fn status_is_written_with_reason_phrase() {
    assert_eq!(status(404).display_text(), "404 Not Found");
    assert_eq!(status(200).display_text(), "200 OK");
    assert_eq!(status(403).display_text(), "403 Forbidden");
    assert_eq!(status(599).display_text(), "599 <unknown status code>");
}

#[test]
fn rate_limit_with_reset_time() {
    let msg = format_http_error(
        status(403),
        Some("0".to_string()),
        Some("1700000000".to_string()),
        "{\"message\":\"API rate limit exceeded\"}",
    );
    assert_eq!(msg, "Rate limit exceeded. Try again after unix time 1700000000.");
}

#[test]
fn rate_limit_without_reset_time() {
    let msg = format_http_error(status(403), Some("0".to_string()), None, "whatever");
    assert_eq!(msg, "Rate limit exceeded. Try again later.");
}

#[test]
fn rate_limit_message_ignores_body() {
    let a = format_http_error(status(403), Some("0".to_string()), None, "one");
    let b = format_http_error(status(403), Some("0".to_string()), None, "{\"message\":\"two\"}");
    assert_eq!(a, b);
}

#[test]
fn forbidden_with_requests_left_reads_body() {
    let msg = format_http_error(status(403), Some("5".to_string()), None, "{\"message\":\"Forbidden\"}");
    assert_eq!(msg, "Forbidden");
}

#[test]
fn unknown_user_gets_a_hint_and_the_link() {
    let body = "{\"message\":\"Not Found\",\"documentation_url\":\"https://docs.github.com/rest\"}";
    let msg = format_http_error(status(404), None, None, body);
    assert_eq!(msg, "User not found. Check the username. (see: https://docs.github.com/rest)");
}

#[test]
fn not_found_message_on_other_status_is_kept() {
    let msg = format_http_error(status(410), None, None, "{\"message\":\"Not Found\"}");
    assert_eq!(msg, "Not Found");
}

#[test]
fn json_without_message_member() {
    assert_eq!(format_http_error(status(500), None, None, "{\"error\":1}"), "Request failed");
    assert_eq!(format_http_error(status(500), None, None, "{\"message\":3}"), "Request failed");
    assert_eq!(format_http_error(status(500), None, None, "[1, 2]"), "Request failed");
    assert_eq!(format_http_error(status(500), None, None, "\"text\""), "Request failed");
}

#[test]
fn json_body_is_trimmed_before_parsing() {
    let msg = format_http_error(status(401), None, None, "  \n{\"message\":\"Bad credentials\"}\n ");
    assert_eq!(msg, "Bad credentials");
}

#[test]
fn plain_body_is_trimmed() {
    assert_eq!(format_http_error(status(502), None, None, "  bad gateway \n"), "bad gateway");
}

#[test]
fn empty_body_names_the_status() {
    assert_eq!(
        format_http_error(status(500), None, None, " \t\n"),
        "Request failed with status 500 Internal Server Error"
    );
}

#[test]
fn json_error_message_parts() {
    assert_eq!(json_error_message(status(404), Some("Not Found".to_string()), None), "User not found. Check the username.");
    assert_eq!(json_error_message(status(404), None, None), "Request failed");
    assert_eq!(
        json_error_message(status(422), Some("Validation Failed".to_string()), Some("u".to_string())),
        "Validation Failed (see: u)"
    );
}

#[test]
fn plain_error_message_parts() {
    assert_eq!(plain_error_message(status(404), ""), "Request failed with status 404 Not Found");
    assert_eq!(plain_error_message(status(404), "nope"), "nope");
}

#[test]
fn describes_request_error() {
    let e = AppError::Request("connection refused".to_string());
    assert_eq!(e.describe(), "Request failed: connection refused");
}

#[test]
fn describes_http_status_error() {
    let e = AppError::HttpStatus { status: status(404), message: "User not found. Check the username.".to_string() };
    assert_eq!(e.describe(), "GitHub API error (404 Not Found): User not found. Check the username.");
}

#[test]
fn describes_json_error() {
    let e = AppError::Json("expected value at line 1 column 1".to_string());
    assert_eq!(e.describe(), "Failed to parse response: expected value at line 1 column 1");
}

#[test]
fn success_hands_body_on() {
    match check_response(status(200), None, None, "[]".to_string()) {
        Ok(body) => assert_eq!(body, "[]"),
        Err(e) => panic!("unexpected error {:?}", e),
    }
}

#[test]
fn failure_becomes_http_status_error() {
    match check_response(status(404), None, None, "{\"message\":\"Not Found\"}".to_string()) {
        Err(AppError::HttpStatus { status, message }) => {
            assert_eq!(status.as_u16(), 404);
            assert_eq!(message, "User not found. Check the username.");
        }
        other => panic!("unexpected outcome {:?}", other),
    }
}

#[test]
fn unicode_white_space_is_trimmed() {
    assert_eq!(
        format_http_error(status(502), None, None, "\u{a0}\u{3000}oops\u{2028}\t"),
        "oops"
    );
    assert_eq!(
        format_http_error(status(503), None, None, " \u{85}\u{2009} "),
        "Request failed with status 503 Service Unavailable"
    );
}

#[test]
fn trim_keeps_inner_white_space() {
    assert_eq!(gh_activity::text::trim("  a b \n"), "a b");
    assert_eq!(gh_activity::text::trim(""), "");
    assert_eq!(gh_activity::text::trim("\u{200b}x"), "\u{200b}x");
}
