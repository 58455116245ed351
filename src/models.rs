use vstd::prelude::*;

verus! {

/// Protocol of a task.
#[derive(Clone, Copy, Debug, PartialEq, Eq, Structural)]
pub enum ApiType {
    Rest,
    Websocket,
}

/// HTTP method of a REST task.
#[derive(Clone, Copy, Debug, PartialEq, Eq, Structural)]
pub enum ApiMethod {
    Get,
    Post,
    Put,
    Patch,
    Delete,
}

/// Role of a member of a task.
#[derive(Clone, Copy, Debug, PartialEq, Eq, Structural)]
pub enum Role {
    Owner,
    Editor,
    Viewer,
}

/// Unit of the interval of an execution rule.
#[derive(Clone, Copy, Debug, PartialEq, Eq, Structural)]
pub enum ExecuteType {
    Seconds,
    Minutes,
    Hours,
    Days,
}

/// A task: an HTTP or WebSocket call to run on schedule. `job_id` is the id of its
/// currently scheduled queue entry; `updated_at` is a Unix timestamp in seconds.
#[derive(Clone, Debug)]
pub struct Api {
    pub id: i32,
    pub name: String,
    pub kind: ApiType,
    pub endpoint: String,
    pub method: Option<ApiMethod>,
    pub topic: Option<String>,
    pub job_id: Option<u64>,
    pub description: String,
    pub payload: Option<String>,
    pub execute_id: i32,
    pub header_id: Option<i32>,
    pub is_active: bool,
    pub updated_at: i64,
}

/// An execution rule: run after `value` units, once or repeatedly.
#[derive(Clone, Debug)]
pub struct ApiExecute {
    pub id: i32,
    pub user_id: i32,
    pub name: String,
    pub is_repeat: bool,
    pub kind: Option<ExecuteType>,
    pub value: i64,
    pub updated_at: i64,
}

/// A new execution rule, as stored.
#[derive(Clone, Debug)]
pub struct CreateApiExecute {
    pub user_id: i32,
    pub name: String,
    pub is_repeat: bool,
    pub kind: Option<ExecuteType>,
    pub value: i64,
}

/// A new execution rule, as requested by its owner.
#[derive(Clone, Debug)]
pub struct ReqCreateApiExecute {
    pub name: String,
    pub is_repeat: bool,
    pub kind: Option<ExecuteType>,
    pub value: i64,
}

impl ReqCreateApiExecute {
    /// The stored form of this request, owned by `user_id`.
    pub fn into_model(self, user_id: i32) -> (r: CreateApiExecute)
        ensures
            r.user_id == user_id,
            r.name == self.name,
            r.is_repeat == self.is_repeat,
            r.kind == self.kind,
            r.value == self.value,
    {
        CreateApiExecute {
            user_id,
            name: self.name,
            is_repeat: self.is_repeat,
            kind: self.kind,
            value: self.value,
        }
    }
}

/// A partial update of an execution rule.
#[derive(Clone, Debug)]
pub struct UpdateApiExecute {
    pub name: Option<String>,
    pub is_repeat: Option<bool>,
    pub kind: Option<ExecuteType>,
    pub value: Option<i64>,
}

/// A new member of a task.
#[derive(Clone, Copy, Debug)]
pub struct CreateApiMembers {
    pub user_id: i32,
    pub role: Role,
}

/// A change of a member's role.
#[derive(Clone, Copy, Debug)]
pub struct UpdateApiMembers {
    pub role: Role,
}

/// A named header set: name/value pairs sent verbatim with a task's requests.
#[derive(Clone, Debug)]
pub struct ApiHeader {
    pub id: i32,
    pub user_id: i32,
    pub name: String,
    pub headers: Vec<(String, String)>,
    pub updated_at: i64,
}

/// What a dispatch captured: status code, response headers and body text.
#[derive(Clone, Debug)]
pub struct FetchResult {
    pub status_code: i16,
    pub headers: Vec<(String, String)>,
    pub response: String,
}

/// An execution record to store after a successful dispatch.
#[derive(Clone, Debug)]
pub struct CreateApiData {
    pub fetch_id: i32,
    pub name: String,
    pub status_code: Option<i16>,
    pub response: Option<String>,
    pub response_headers: Option<Vec<(String, String)>>,
}

/// Errors of the application.
#[derive(Debug)]
pub enum AppError {
    AuthError(String),
    InternalError(String),
    NotFound(String),
    BadRequest(String),
    Forbidden(String),
}

/// An error together with the request path it answers.
#[derive(Debug)]
pub struct ApiError {
    pub error: AppError,
    pub path: String,
}

impl AppError {
    /// This error, attached to the request path `path`.
    pub fn with_path(self, path: String) -> (r: ApiError)
        ensures
            r.error == self,
            r.path == path,
    {
        ApiError { error: self, path }
    }
}

} // verus!
