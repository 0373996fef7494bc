//! How the client addresses the server and reads its JSON answers.  The
//! requests themselves are sent by the caller.
use vstd::prelude::*;

use crate::discord::feed::{trim_end_char, trim_trailing_slashes};
use crate::json::{
    bool_of, error_message, error_message_of, field, opt_data, response_document, response_value,
    JsonData, JsonMap, JsonValue,
};
use crate::models::ApiResult;
use crate::text::{is_blank, is_blank_str, opt_seq, trim, trim_str};

verus! {

/// The site address without trailing slashes and surrounding whitespace.
pub open spec fn normalized_base_url(base_url: Seq<char>) -> Seq<char> {
    trim(trim_end_char(base_url, '/'))
}

/// The site address without trailing slashes and surrounding whitespace.
pub fn normalize_base_url(base_url: &str) -> (r: String)
    ensures
        r@ == normalized_base_url(base_url@),
{
    let s = trim_trailing_slashes(base_url);
    trim_str(s.as_str())
}

/// The address of `path` on the site at `base_url`.
pub fn request_url(base_url: &str, path: &str) -> (r: String)
    ensures
        r@ == normalized_base_url(base_url@) + path@,
{
    let mut r = normalize_base_url(base_url);
    r.append(path);
    r
}

/// The `Authorization` header for a token: `Bearer` and the trimmed
/// token, when the token is not blank.
pub open spec fn bearer_header(token: Option<Seq<char>>) -> Option<Seq<char>> {
    match token {
        Some(t) => if is_blank(t) {
            None
        } else {
            Some("Bearer "@ + trim(t))
        },
        None => None,
    }
}

/// The `Authorization` header for a token, if one is sent.
pub fn authorization_header(token: Option<&str>) -> (r: Option<String>)
    ensures
        opt_seq(r) == bearer_header(
            match token {
                Some(t) => Some(t@),
                None => None,
            },
        ),
{
    match token {
        Some(t) => if is_blank_str(t) {
            None
        } else {
            let mut h = "Bearer ".to_owned();
            let tt = trim_str(t);
            h.append(tt.as_str());
            proof {
                reveal_strlit("Bearer ");
            }
            Some(h)
        },
        None => None,
    }
}

/// The `error` field of an answer as a string, else its `message` field.
pub fn extract_message(payload: &JsonValue) -> (r: Option<String>)
    ensures
        opt_seq(r) == error_message_of(payload@),
{
    error_message(payload)
}

/// The JSON document of an answer: `{}` for a blank body, else the parsed
/// body, or `{"raw": text}` when it is not JSON.
pub open spec fn answer_document(text: Seq<char>, parsed: Option<JsonData>) -> JsonData {
    if is_blank(text) {
        JsonData::Object(Seq::empty())
    } else {
        response_document(text, parsed)
    }
}

/// Whether an answer succeeded: its `success` field when it is a boolean,
/// else whether the status is below 400; an error status always fails.
pub open spec fn answer_succeeded(status: u16, d: JsonData) -> bool {
    status < 400 && match field(d, "success"@) {
        Some(v) => match bool_of(v) {
            Some(b) => b,
            None => true,
        },
        None => true,
    }
}

/// The message of a failed answer: its `error` or `message` field, else
/// `请求失败`.
pub open spec fn answer_failure_message(d: JsonData) -> Seq<char> {
    match error_message_of(d) {
        Some(m) => m,
        None => "请求失败"@,
    }
}

/// What `data` an answer carries: its `data` field, else the whole
/// document.
pub open spec fn answer_data(d: JsonData) -> JsonData {
    match field(d, "data"@) {
        Some(x) => x,
        None => d,
    }
}

fn answer_value(text: &str, parsed: Option<JsonValue>) -> (r: JsonValue)
    ensures
        r@ == answer_document(text@, opt_data(parsed)),
{
    if is_blank_str(text) {
        JsonValue::Object(JsonMap::new())
    } else {
        response_value(text, parsed)
    }
}

fn answer_ok(status: u16, payload: &JsonValue) -> (b: bool)
    ensures
        b == answer_succeeded(status, payload@),
{
    proof {
        reveal_strlit("success");
    }
    let flag = match payload.get("success") {
        Some(v) => match v.as_bool() {
            Some(b) => b,
            None => status < 400,
        },
        None => status < 400,
    };
    status < 400 && flag
}

/// Reads the server's answer to a request: its HTTP `status`, its body
/// `text`, and `parsed`, the body parsed as JSON when it is JSON.  A
/// success carries the answer's `data`; a failure carries the message
/// and the whole document as details.
pub fn interpret_json_response(status: u16, text: &str, parsed: Option<JsonValue>) -> (r: ApiResult<
    JsonValue,
>)
    ensures
        ({
            let d = answer_document(text@, opt_data(parsed));
            &&& r.status == status
            &&& r.success == answer_succeeded(status, d)
            &&& r.success ==> r.error is None && r.data is Some && r.data->Some_0@ == answer_data(d)
            &&& !r.success ==> r.data is None && r.error is Some && r.error->Some_0.status == status
                && r.error->Some_0.message@ == answer_failure_message(d)
                && r.error->Some_0.code is None && r.error->Some_0.params is None && opt_data(
                r.error->Some_0.details,
            ) == Some(d)
        }),
{
    let payload = answer_value(text, parsed);
    if !answer_ok(status, &payload) {
        let message = match extract_message(&payload) {
            Some(m) => m,
            None => "请求失败".to_owned(),
        };
        return ApiResult::failure(status, message, Some(payload));
    }
    proof {
        reveal_strlit("data");
    }
    match payload.get("data") {
        Some(d) => ApiResult::success(status, d.duplicate()),
        None => ApiResult::success(status, payload),
    }
}

/// Reads the server's answer like `interpret_json_response`, but a
/// success carries the whole document.
pub fn interpret_json_payload_response(status: u16, text: &str, parsed: Option<JsonValue>) -> (r:
    ApiResult<JsonValue>)
    ensures
        ({
            let d = answer_document(text@, opt_data(parsed));
            &&& r.status == status
            &&& r.success == answer_succeeded(status, d)
            &&& r.success ==> r.error is None && r.data is Some && r.data->Some_0@ == d
            &&& !r.success ==> r.data is None && r.error is Some && r.error->Some_0.status == status
                && r.error->Some_0.message@ == answer_failure_message(d)
                && r.error->Some_0.code is None && r.error->Some_0.params is None && opt_data(
                r.error->Some_0.details,
            ) == Some(d)
        }),
{
    let payload = answer_value(text, parsed);
    if !answer_ok(status, &payload) {
        let message = match extract_message(&payload) {
            Some(m) => m,
            None => "请求失败".to_owned(),
        };
        return ApiResult::failure(status, message, Some(payload));
    }
    ApiResult::success(status, payload)
}

/// The answer when a request could not be sent: status 0 and the
/// transport's message.
pub fn send_failure(error: &str) -> (r: ApiResult<JsonValue>)
    ensures
        !r.success,
        r.status == 0,
        r.data is None,
        r.error == Some(
            crate::models::ApiError {
                status: 0,
                message: r.error->Some_0.message,
                code: None,
                params: None,
                details: None,
            },
        ),
        r.error->Some_0.message@ == "请求失败："@ + error@,
{
    let mut message = "请求失败：".to_owned();
    message.append(error);
    proof {
        reveal_strlit("请求失败：");
    }
    ApiResult::failure(0, message, None)
}

/// The answer when the body of a response could not be read.
pub fn read_failure(status: u16, error: &str) -> (r: ApiResult<JsonValue>)
    ensures
        !r.success,
        r.status == status,
        r.data is None,
        r.error is Some,
        r.error->Some_0.status == status,
        r.error->Some_0.code is None,
        r.error->Some_0.details is None,
        r.error->Some_0.message@ == "读取响应失败："@ + error@,
{
    let mut message = "读取响应失败：".to_owned();
    message.append(error);
    proof {
        reveal_strlit("读取响应失败：");
    }
    ApiResult::failure(status, message, None)
}

/// The message when no HTTP client could be built.
pub fn client_build_error(error: &str) -> (r: String)
    ensures
        r@ == "创建 HTTP 客户端失败："@ + error@,
{
    let mut message = "创建 HTTP 客户端失败：".to_owned();
    message.append(error);
    proof {
        reveal_strlit("创建 HTTP 客户端失败：");
    }
    message
}

} // verus!
