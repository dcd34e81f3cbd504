//! HTTP status codes, the messages shown when the events request fails, and
//! the errors of the tool.

use vstd::prelude::*;
use crate::event::{opt_view, or_else};
use crate::text::{decimal, decimal_string, str_eq, trim, trimmed};

verus! {

/// An HTTP status code, between 100 and 999.
#[derive(Clone, Copy, Debug)]
pub struct StatusCode {
    code: u16,
}

/// The reason phrase that the `http` crate's `StatusCode::canonical_reason`
/// gives for `code`, where it knows one.
pub uninterp spec fn status_reason(code: u16) -> Option<Seq<char>>;

/// Calls `reqwest::StatusCode::from_u16` and then `canonical_reason`. The
/// contract names the result `status_reason(code)`; the table of reason
/// phrases is not restated.
#[verifier::external_body]
fn canonical_reason(code: u16) -> (res: Option<&'static str>)
    requires
        100 <= code <= 999,
    ensures
        match res {
            Some(r) => status_reason(code) == Some(r@),
            None => status_reason(code) is None,
        },
{
    match reqwest::StatusCode::from_u16(code) {
        Ok(status) => status.canonical_reason(),
        Err(_) => None,
    }
}

/// How a status code is written: the number, a space, and the reason phrase
/// or `<unknown status code>`.
pub open spec fn status_text(code: u16) -> Seq<char> {
    decimal(code as nat) + " "@ + or_else(status_reason(code), "<unknown status code>"@)
}

impl StatusCode {
    #[verifier::type_invariant]
    spec fn in_range(self) -> bool {
        100 <= self.code <= 999
    }

    /// The number of this status code.
    pub closed spec fn code(self) -> u16 {
        self.code
    }

    /// The status code `code`, or `None` where it is below 100 or above 999.
    pub fn from_u16(code: u16) -> (res: Option<StatusCode>)
        ensures
            res is Some <==> 100 <= code <= 999,
            res matches Some(s) ==> s.code() == code,
    {
        if 100 <= code && code <= 999 {
            Some(StatusCode { code })
        } else {
            None
        }
    }

    /// The number of this status code.
    pub fn as_u16(&self) -> (res: u16)
        ensures
            res == self.code(),
            100 <= res <= 999,
    {
        proof {
            use_type_invariant(self);
        }
        self.code
    }

    /// Whether the code is in the 200s.
    pub fn is_success(&self) -> (res: bool)
        ensures
            res == (200 <= self.code() < 300),
    {
        200 <= self.code && self.code < 300
    }

    /// The status code as it is written in messages, e.g. `404 Not Found`.
    pub fn display_text(&self) -> (res: String)
        ensures
            res@ == status_text(self.code()),
    {
        let code = self.as_u16();
        let number = decimal_string(code as u64);
        let reason = match canonical_reason(code) {
            Some(r) => r,
            None => "<unknown status code>",
        };
        number.concat(" ").concat(reason)
    }
}

/// That `text` is a JSON document: what `serde_json::from_str::<Value>`
/// accepts.
pub uninterp spec fn json_valid(text: Seq<char>) -> bool;

/// The string that the JSON document `text` holds under `key` at its top
/// level, if it is an object with such a member and that member is a string.
pub uninterp spec fn json_str_member(text: Seq<char>, key: Seq<char>) -> Option<Seq<char>>;

/// Calls `serde_json::from_str::<serde_json::Value>` on `text`, then
/// `Value::get(key)` and reads the member where it is a string. `None`
/// where the text does not parse; `Some(None)` where it parses but has no
/// string member `key`. The contract names both outcomes
/// (`json_valid`, `json_str_member`); the JSON grammar is not restated.
#[verifier::external_body]
fn json_string_member(text: &str, key: &str) -> (res: Option<Option<String>>)
    ensures
        res is Some <==> json_valid(text@),
        res matches Some(m) ==> opt_view(m) == json_str_member(text@, key@),
{
    match serde_json::from_str::<serde_json::Value>(text) {
        Ok(value) => match value.get(key) {
            Some(serde_json::Value::String(s)) => Some(Some(s.clone())),
            _ => Some(None),
        },
        Err(_) => None,
    }
}

/// The message for a failed request whose body is a JSON document with the
/// given `message` and `documentation_url` members.
pub open spec fn json_error_text(
    status: u16,
    message: Option<Seq<char>>,
    docs: Option<Seq<char>>,
) -> Seq<char> {
    let m = or_else(message, "Request failed"@);
    let friendly = if status == 404 && m == "Not Found"@ {
        "User not found. Check the username."@
    } else {
        m
    };
    match docs {
        Some(d) => friendly + " (see: "@ + d + ")"@,
        None => friendly,
    }
}

/// The message for a failed request whose trimmed body `t` is not JSON.
pub open spec fn plain_error_text(status: u16, t: Seq<char>) -> Seq<char> {
    if t.len() == 0 {
        "Request failed with status "@ + status_text(status)
    } else {
        t
    }
}

/// The message for a failed request with status `status`, rate-limit
/// headers `remaining` and `reset`, and response body `body`.
pub open spec fn http_error_text(
    status: u16,
    remaining: Option<Seq<char>>,
    reset: Option<Seq<char>>,
    body: Seq<char>,
) -> Seq<char> {
    if status == 403 && remaining == Some("0"@) {
        match reset {
            Some(r) => "Rate limit exceeded. Try again after unix time "@ + r + "."@,
            None => "Rate limit exceeded. Try again later."@,
        }
    } else {
        let t = trimmed(body);
        if json_valid(t) {
            json_error_text(status, json_str_member(t, "message"@), json_str_member(t, "documentation_url"@))
        } else {
            plain_error_text(status, t)
        }
    }
}

/// The message for a failed request whose body is JSON with the string
/// members `message` and `documentation_url` (each `None` where absent):
/// the API's message, or a hint about the username where the user was not
/// found, followed by the documentation link.
pub fn json_error_message(
    status: StatusCode,
    message: Option<String>,
    docs: Option<String>,
) -> (res: String)
    ensures
        res@ == json_error_text(status.code(), opt_view(message), opt_view(docs)),
{
    let m = match message {
        Some(m) => m,
        None => String::from_str("Request failed"),
    };
    let friendly = if status.as_u16() == 404 && str_eq(m.as_str(), "Not Found") {
        String::from_str("User not found. Check the username.")
    } else {
        m
    };
    match docs {
        Some(d) => friendly.concat(" (see: ").concat(d.as_str()).concat(")"),
        None => friendly,
    }
}

/// The message for a failed request whose trimmed body `trimmed_body` is not
/// JSON: the body itself, or the status where the body is empty.
pub fn plain_error_message(status: StatusCode, trimmed_body: &str) -> (res: String)
    ensures
        res@ == plain_error_text(status.code(), trimmed_body@),
{
    if trimmed_body.is_empty() {
        let text = status.display_text();
        String::from_str("Request failed with status ").concat(text.as_str())
    } else {
        String::from_str(trimmed_body)
    }
}

/// The message shown for a failed request: a rate-limit notice where the
/// status is 403 and no requests remain, else what the body says.
pub fn format_http_error(
    status: StatusCode,
    remaining: Option<String>,
    reset: Option<String>,
    body: &str,
) -> (res: String)
    ensures
        res@ == http_error_text(status.code(), opt_view(remaining), opt_view(reset), body@),
{
    let limited = match &remaining {
        Some(r) => str_eq(r.as_str(), "0"),
        None => false,
    };
    if status.as_u16() == 403 && limited {
        return match reset {
            Some(r) => String::from_str("Rate limit exceeded. Try again after unix time ").concat(
                r.as_str(),
            ).concat("."),
            None => String::from_str("Rate limit exceeded. Try again later."),
        };
    }
    let t = trim(body);
    match json_string_member(t, "message") {
        Some(message) => {
            let docs = match json_string_member(t, "documentation_url") {
                Some(d) => d,
                None => None,
            };
            json_error_message(status, message, docs)
        },
        None => plain_error_message(status, t),
    }
}

/// The errors of the tool: the request could not be made, the API answered
/// with a failure status, or its answer could not be read. `Request` and
/// `Json` hold the message of the underlying error.
#[derive(Debug)]
pub enum AppError {
    Request(String),
    HttpStatus { status: StatusCode, message: String },
    Json(String),
}

/// How an error is shown to the user.
pub open spec fn error_text(e: AppError) -> Seq<char> {
    match e {
        AppError::Request(m) => "Request failed: "@ + m@,
        AppError::HttpStatus { status, message } => "GitHub API error ("@ + status_text(
            status.code(),
        ) + "): "@ + message@,
        AppError::Json(m) => "Failed to parse response: "@ + m@,
    }
}

impl AppError {
    /// The message shown to the user for this error.
    pub fn describe(&self) -> (res: String)
        ensures
            res@ == error_text(*self),
    {
        match self {
            AppError::Request(m) => String::from_str("Request failed: ").concat(m.as_str()),
            AppError::HttpStatus { status, message } => {
                let text = status.display_text();
                String::from_str("GitHub API error (").concat(text.as_str()).concat("): ").concat(
                    message.as_str(),
                )
            },
            AppError::Json(m) => String::from_str("Failed to parse response: ").concat(m.as_str()),
        }
    }
}

/// Checks the answer to the events request: its body where the status is a
/// success, else an `HttpStatus` error with the message for the failure.
pub fn check_response(
    status: StatusCode,
    remaining: Option<String>,
    reset: Option<String>,
    body: String,
) -> (res: Result<String, AppError>)
    ensures
        200 <= status.code() < 300 ==> (res matches Ok(b) && b@ == body@),
        !(200 <= status.code() < 300) ==> (res matches Err(
            AppError::HttpStatus { status: s, message },
        ) && s == status && message@ == http_error_text(
            status.code(),
            opt_view(remaining),
            opt_view(reset),
            body@,
        )),
{
    if status.is_success() {
        Ok(body)
    } else {
        let message = format_http_error(status, remaining, reset, body.as_str());
        Err(AppError::HttpStatus { status, message })
    }
}


/// Where the rate limit is exhausted (status 403 and no request remaining),
/// the message depends on the reset time alone, never on the body.
pub proof fn lemma_rate_limit_ignores_body(
    reset: Option<Seq<char>>,
    body1: Seq<char>,
    body2: Seq<char>,
)
    ensures
        http_error_text(403, Some("0"@), reset, body1) == http_error_text(
            403,
            Some("0"@),
            reset,
            body2,
        ),
{
}

/// What a failed request is answered with, in terms of its parts. Where the
/// rate limit is exhausted (403 with no request remaining) the message names
/// the reset time. Otherwise, where the trimmed body is JSON, the message is
/// the body's `message` (or "Request failed"; a 404 whose message is
/// "Not Found" gets the username hint instead), followed by
/// " (see: <documentation_url>)" whenever the body has that string member,
/// whatever the status; where the trimmed body is not JSON it is the body
/// itself, or the status where the body is blank.
pub proof fn lemma_http_error_parts(
    status: u16,
    remaining: Option<Seq<char>>,
    reset: Option<Seq<char>>,
    body: Seq<char>,
)
    ensures
        status == 403 && remaining == Some("0"@) && reset is Some ==> http_error_text(
            status,
            remaining,
            reset,
            body,
        ) == "Rate limit exceeded. Try again after unix time "@ + reset->0 + "."@,
        status == 403 && remaining == Some("0"@) && reset is None ==> http_error_text(
            status,
            remaining,
            reset,
            body,
        ) == "Rate limit exceeded. Try again later."@,
        !(status == 403 && remaining == Some("0"@)) && json_valid(trimmed(body)) && json_str_member(
            trimmed(body),
            "documentation_url"@,
        ) is Some ==> (" (see: "@ + json_str_member(trimmed(body), "documentation_url"@)->0
            + ")"@).is_suffix_of(http_error_text(status, remaining, reset, body)),
        !(status == 403 && remaining == Some("0"@)) && json_valid(trimmed(body)) && json_str_member(
            trimmed(body),
            "message"@,
        ) is Some && !(status == 404 && json_str_member(trimmed(body), "message"@) == Some(
            "Not Found"@,
        )) ==> json_str_member(trimmed(body), "message"@)->0.is_prefix_of(
            http_error_text(status, remaining, reset, body),
        ),
        !(status == 403 && remaining == Some("0"@)) && json_valid(trimmed(body)) && json_str_member(
            trimmed(body),
            "message"@,
        ) is Some && !(status == 404 && json_str_member(trimmed(body), "message"@) == Some(
            "Not Found"@,
        )) && json_str_member(trimmed(body), "documentation_url"@) is None ==> http_error_text(
            status,
            remaining,
            reset,
            body,
        ) == json_str_member(trimmed(body), "message"@)->0,
        !(status == 403 && remaining == Some("0"@)) && json_valid(trimmed(body)) && json_str_member(
            trimmed(body),
            "message"@,
        ) is None && json_str_member(trimmed(body), "documentation_url"@) is None
            ==> http_error_text(status, remaining, reset, body) == "Request failed"@,
        !(status == 403 && remaining == Some("0"@)) && status == 404 && json_valid(trimmed(body))
            && json_str_member(trimmed(body), "message"@) == Some("Not Found"@) ==> "User not found. Check the username."@.is_prefix_of(
            http_error_text(status, remaining, reset, body),
        ),
        !(status == 403 && remaining == Some("0"@)) && !json_valid(trimmed(body)) && trimmed(body).len()
            > 0 ==> http_error_text(status, remaining, reset, body) == trimmed(body),
        !(status == 403 && remaining == Some("0"@)) && !json_valid(trimmed(body)) && trimmed(body).len()
            == 0 ==> http_error_text(status, remaining, reset, body) == "Request failed with status "@
            + status_text(status),
{
    reveal_strlit("Request failed");
    reveal_strlit("Not Found");
    assert("Request failed"@ != "Not Found"@) by {
        assert("Request failed"@.len() != "Not Found"@.len());
    }
    let t = trimmed(body);
    let text = http_error_text(status, remaining, reset, body);
    if !(status == 403 && remaining == Some("0"@)) && json_valid(t) {
        let m = match json_str_member(t, "message"@) {
            Some(m) => m,
            None => "Request failed"@,
        };
        let friendly = if status == 404 && m == "Not Found"@ {
            "User not found. Check the username."@
        } else {
            m
        };
        if let Some(d) = json_str_member(t, "documentation_url"@) {
            let tail = " (see: "@ + d + ")"@;
            assert(text =~= friendly + tail);
            assert(tail =~= text.subrange(text.len() - tail.len(), text.len() as int));
            assert(friendly =~= text.subrange(0, friendly.len() as int));
        } else {
            assert(friendly =~= text.subrange(0, friendly.len() as int));
        }
    }
}

} // verus!
