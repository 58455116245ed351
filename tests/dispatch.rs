use scheduler::config::{access_ttl_seconds, at_least_one_u32, at_least_one_u64, refresh_ttl_seconds, Config};
use scheduler::headers::select_headers;
use scheduler::models::{ApiMethod, ApiType, AppError, ExecuteType, ReqCreateApiExecute};
use scheduler::rest::{request_body, request_method, rest_request, status_code_of};
use scheduler::websocket::{outbound_frame, ws_result, WsCollector, WsEvent, WsJobs, WsStep};
use scheduler::models::Api;

fn pair(k: &str, v: &str) -> (String, String) {
    (k.to_string(), v.to_string())
}

#[test]
fn malformed_headers_are_skipped() {
    let pairs = vec![
        pair("X-Token", "abc"),
        pair("bad name", "v"),
        pair("", "v"),
        pair("x-line", "a\nb"),
        pair("x-del", "a\u{7f}"),
        pair("x-tab", "a\tb"),
        pair("x-utf", "caf\u{e9}"),
    ];
    let out = select_headers(&pairs);
    assert_eq!(out, vec![pair("X-Token", "abc"), pair("x-tab", "a\tb"), pair("x-utf", "caf\u{e9}")]);
    assert!(select_headers(&Vec::new()).is_empty());
}

#[test]
fn rest_method_defaults_to_get() {
    assert_eq!(request_method(None), ApiMethod::Get);
    assert_eq!(request_method(Some(ApiMethod::Patch)), ApiMethod::Patch);
}

#[test]
fn rest_body_only_when_non_empty() {
    assert_eq!(request_body(&None), None);
    assert_eq!(request_body(&Some(String::new())), None);
    assert_eq!(request_body(&Some("{\"a\":1}".to_string())), Some("{\"a\":1}".to_string()));
}

#[test]
fn rest_request_from_task() {
    let task = Api {
        id: 1,
        name: "n".to_string(),
        kind: ApiType::Rest,
        endpoint: "http://example.test/x".to_string(),
        method: Some(ApiMethod::Post),
        topic: None,
        job_id: None,
        description: String::new(),
        payload: Some("hello".to_string()),
        execute_id: 1,
        header_id: None,
        is_active: true,
        updated_at: 0,
    };
    let req = rest_request(&task, &vec![pair("a", "1"), pair("b c", "2")]);
    assert_eq!(req.method, ApiMethod::Post);
    assert_eq!(req.url, "http://example.test/x");
    assert_eq!(req.headers, vec![pair("a", "1")]);
    assert_eq!(req.body, Some("hello".to_string()));
    assert_eq!(status_code_of(404), 404);
}

#[test]
fn websocket_frame_only_for_non_empty_payload() {
    assert_eq!(outbound_frame(&None), None);
    assert_eq!(outbound_frame(&Some(String::new())), None);
    assert_eq!(outbound_frame(&Some("sub".to_string())), Some("sub".to_string()));
}

#[test]
fn websocket_silence_gives_empty_body() {
    let mut c = WsCollector::new();
    assert_eq!(c.on_event(WsEvent::TimedOut), WsStep::Finished);
    assert_eq!(c.body(), "");
    let r = ws_result(101, vec![pair("upgrade", "websocket")], &c);
    assert_eq!(r.status_code, 101);
    assert_eq!(r.response, "");
    assert_eq!(r.headers.len(), 1);
}

#[test]
fn websocket_collects_and_joins() {
    let mut c = WsCollector::new();
    assert_eq!(c.on_event(WsEvent::Text("one".to_string())), WsStep::Continue);
    assert_eq!(c.on_event(WsEvent::Binary), WsStep::Continue);
    assert_eq!(c.on_event(WsEvent::Other), WsStep::Continue);
    assert_eq!(c.on_event(WsEvent::Text("".to_string())), WsStep::Continue);
    assert_eq!(c.on_event(WsEvent::Closed), WsStep::Finished);
    assert_eq!(c.body(), "one\n---\n[Binary Data]\n---\n");
}

#[test]
fn websocket_error_fails() {
    let mut c = WsCollector::new();
    c.on_event(WsEvent::Text("x".to_string()));
    assert_eq!(c.on_event(WsEvent::Error("reset".to_string())), WsStep::Failed("reset".to_string()));
    assert_eq!(c.body(), "x");
}

#[test]
fn ws_jobs_keeps_timeout() {
    assert_eq!(WsJobs::new(10).timeout_secs(), 10);
}

#[test]
fn config_helpers() {
    assert_eq!(at_least_one_u32(None, 10), 10);
    assert_eq!(at_least_one_u32(Some(0), 10), 1);
    assert_eq!(at_least_one_u32(Some(4), 10), 4);
    assert_eq!(at_least_one_u64(Some(0), 10), 1);
    assert_eq!(at_least_one_u64(None, 10), 10);
    assert_eq!(access_ttl_seconds(None), Some(900));
    assert_eq!(access_ttl_seconds(Some(0)), Some(60));
    assert_eq!(refresh_ttl_seconds(None), Some(604800));
    assert_eq!(refresh_ttl_seconds(Some(u32::MAX)), None);
    let c = Config {
        port: 8000,
        jwt_secret: "s".to_string(),
        access_ttl: 900,
        refresh_ttl: 604800,
        db_url: String::new(),
        concurrency: 10,
        migrate: false,
        min_job_interval: 10,
        ws_timeout: 10,
        root_username: String::new(),
        root_email: String::new(),
        root_password: String::new(),
    };
    let a = c.app_config();
    assert_eq!(a.secret, "s");
    assert_eq!(a.access_ttl, 900);
    assert_eq!(a.refresh_ttl, 604800);
    assert_eq!(a.concurrency, 10);
}

#[test]
fn execute_request_into_model() {
    let req = ReqCreateApiExecute {
        name: "every 5".to_string(),
        is_repeat: true,
        kind: Some(ExecuteType::Minutes),
        value: 5,
    };
    let m = req.into_model(3);
    assert_eq!(m.user_id, 3);
    assert_eq!(m.name, "every 5");
    assert!(m.is_repeat);
    assert_eq!(m.kind, Some(ExecuteType::Minutes));
    assert_eq!(m.value, 5);
}

#[test]
fn error_with_path() {
    let e = AppError::NotFound("gone".to_string()).with_path("/api/x".to_string());
    assert_eq!(e.path, "/api/x");
    assert!(matches!(e.error, AppError::NotFound(ref m) if m == "gone"));
}
