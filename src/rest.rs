use vstd::prelude::*;
use crate::headers::{select_headers, sendable_header};
use crate::models::{Api, ApiMethod};

verus! {

/// The method of a REST call: the task's own, GET when it has none.
pub open spec fn method_of(method: Option<ApiMethod>) -> ApiMethod {
    match method {
        Some(m) => m,
        None => ApiMethod::Get,
    }
}

/// The body of an outgoing call: the payload, when there is one and it is not empty.
pub open spec fn body_of(payload: Option<String>) -> Option<String> {
    match payload {
        Some(p) => if p@.len() > 0 {
            Some(p)
        } else {
            None
        },
        None => None,
    }
}

/// Everything needed to send a task's REST call.
#[derive(Clone, Debug)]
pub struct RestRequest {
    pub method: ApiMethod,
    pub url: String,
    pub headers: Vec<(String, String)>,
    pub body: Option<String>,
}

/// The method to send with: `method`, or GET by default.
pub fn request_method(method: Option<ApiMethod>) -> (r: ApiMethod)
    ensures
        r == method_of(method),
{
    match method {
        Some(m) => m,
        None => ApiMethod::Get,
    }
}

/// The body to attach: the payload when present and non-empty, else none.
pub fn request_body(payload: &Option<String>) -> (r: Option<String>)
    ensures
        r == body_of(*payload),
{
    match payload {
        Some(p) => if p.as_str().is_empty() {
            None
        } else {
            Some(p.clone())
        },
        None => None,
    }
}

/// The REST call of `task`, carrying the transmittable headers of `headers`.
pub fn rest_request(task: &Api, headers: &Vec<(String, String)>) -> (r: RestRequest)
    ensures
        r.method == method_of(task.method),
        r.url == task.endpoint,
        r.headers@ == headers@.filter(sendable_header()),
        r.body == body_of(task.payload),
{
    RestRequest {
        method: request_method(task.method),
        url: task.endpoint.clone(),
        headers: select_headers(headers),
        body: request_body(&task.payload),
    }
}

/// The status code of a response as stored. HTTP status codes have three digits, so every
/// one of them fits.
pub fn status_code_of(code: u16) -> (r: i16)
    requires
        code <= i16::MAX,
    ensures
        r == code,
{
    code as i16
}

} // verus!
