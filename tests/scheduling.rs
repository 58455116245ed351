use scheduler::models::{Api, ApiExecute, ApiType, AppError, ExecuteType, FetchResult};
use scheduler::queue::{EntryStatus, JobQueue};
use scheduler::lifecycle::drive_run;
use scheduler::recurrence::{interval_seconds, next_run_at, schedule_task};
use scheduler::models::ApiHeader;
use scheduler::worker::{
    finish_run, plan_recurrence, record_label, record_stored, request_headers, resolve_task,
    settle_dispatch,
};

fn task(id: i32, job_id: Option<u64>) -> Api {
    Api {
        id,
        name: "ping".to_string(),
        kind: ApiType::Rest,
        endpoint: "http://127.0.0.1:1/".to_string(),
        method: None,
        topic: None,
        job_id,
        description: String::new(),
        payload: None,
        execute_id: 1,
        header_id: None,
        is_active: true,
        updated_at: 0,
    }
}

fn rule(kind: Option<ExecuteType>, value: i64, is_repeat: bool) -> ApiExecute {
    ApiExecute {
        id: 1,
        user_id: 1,
        name: "every".to_string(),
        is_repeat,
        kind,
        value,
        updated_at: 0,
    }
}

fn ok_result() -> FetchResult {
    FetchResult {
        status_code: 200,
        headers: vec![("content-type".to_string(), "text/plain".to_string())],
        response: "pong".to_string(),
    }
}

#[test]
fn interval_units() {
    assert_eq!(interval_seconds(Some(ExecuteType::Seconds), 7), Some(7));
    assert_eq!(interval_seconds(Some(ExecuteType::Minutes), 5), Some(300));
    assert_eq!(interval_seconds(Some(ExecuteType::Hours), 2), Some(7200));
    assert_eq!(interval_seconds(Some(ExecuteType::Days), 1), Some(86400));
    assert_eq!(interval_seconds(None, 5), Some(300));
    assert_eq!(interval_seconds(Some(ExecuteType::Minutes), 0), Some(0));
    assert_eq!(interval_seconds(Some(ExecuteType::Days), i64::MAX), None);
}

#[test]
fn next_run_overflow_is_refused() {
    let r = rule(Some(ExecuteType::Seconds), 10, false);
    assert_eq!(next_run_at(1000, &r), Some(1010));
    assert_eq!(next_run_at(i64::MAX - 5, &r), None);
}

#[test]
fn record_label_format() {
    assert_eq!(record_label(&"ping".to_string(), 7, 42), "ping [7-42]");
    assert_eq!(record_label(&String::new(), -3, 0), " [-3-0]");
}

#[test]
fn repeating_task_scenario() {
    let t0: i64 = 1_700_000_000;
    let mut q = JobQueue::new();
    let every5 = rule(Some(ExecuteType::Minutes), 5, true);
    let mut t = task(9, None);

    let first = schedule_task(&mut q, &t, &every5, t0).unwrap();
    assert_eq!(q.get(first).unwrap().run_at, t0 + 300);
    t.job_id = Some(first);

    assert!(q.claim_ready(t0 + 299, 1, 60).is_none());
    let e = q.claim_ready(t0 + 300, 1, 60).unwrap();
    assert_eq!(e.id, first);

    let rec = settle_dispatch(&mut q, e.id, &t, Ok(ok_result())).unwrap();
    assert_eq!(rec.fetch_id, 9);
    assert_eq!(rec.name, format!("ping [9-{}]", first));
    assert_eq!(rec.status_code, Some(200));
    assert_eq!(rec.response, Some("pong".to_string()));
    assert_eq!(rec.response_headers.unwrap().len(), 1);

    assert!(record_stored(&mut q, e.id, Ok(())));
    assert_eq!(q.get(first).unwrap().status, EntryStatus::Leased);

    let next = plan_recurrence(&mut q, e.id, &t, Ok(every5.clone()), t0 + 300).unwrap().unwrap();
    assert_ne!(next, first);
    let n = q.get(next).unwrap();
    assert_eq!(n.run_at, t0 + 600);
    assert_eq!(n.status, EntryStatus::Pending);
    assert_eq!(n.task_id, 9);

    assert!(finish_run(&mut q, e.id, &t, Some(next), Ok(()), t0 + 300));
    t.job_id = Some(next);
    assert!(q.get(first).is_none());
    assert_eq!(q.len(), 1);
    assert_eq!(q.get(next).unwrap().status, EntryStatus::Pending);
}

#[test]
fn one_off_task_gets_no_second_entry() {
    let mut q = JobQueue::new();
    let once = rule(Some(ExecuteType::Seconds), 30, false);
    let mut t = task(1, None);
    let id = schedule_task(&mut q, &t, &once, 0).unwrap();
    t.job_id = Some(id);
    q.claim_ready(30, 1, 60).unwrap();
    settle_dispatch(&mut q, id, &t, Ok(ok_result())).unwrap();
    assert!(record_stored(&mut q, id, Ok(())));
    assert_eq!(plan_recurrence(&mut q, id, &t, Ok(once), 31).unwrap(), None);
    assert!(finish_run(&mut q, id, &t, None, Ok(()), 31));
    assert_eq!(q.len(), 1);
    assert_eq!(q.get(id).unwrap().status, EntryStatus::Done);
    assert_eq!(q.enqueue(2, 0), Some(1));
}

#[test]
fn failed_dispatch_writes_no_record_and_retries() {
    let mut q = JobQueue::new();
    let t = task(4, None);
    let id = q.enqueue(4, 0).unwrap();
    q.claim_ready(0, 1, 60).unwrap();
    let out = settle_dispatch(&mut q, id, &t, Err("Failed send message: refused".to_string()));
    assert!(out.is_none());
    let e = q.get(id).unwrap();
    assert_eq!(e.attempts, 1);
    assert_eq!(e.status, EntryStatus::Pending);
}

#[test]
fn rest_dispatch_to_unreachable_host() {
    let rt = tokio::runtime::Builder::new_current_thread().enable_all().build().unwrap();
    let sent: Result<reqwest::Response, reqwest::Error> = rt.block_on(async {
        reqwest::Client::new().get("http://127.0.0.1:1/").send().await
    });
    let result: Result<FetchResult, String> = match sent {
        Ok(_) => Err("unexpected answer".to_string()),
        Err(e) => Err(format!("Failed send message: {}", e)),
    };
    assert!(result.is_err());

    let mut q = JobQueue::new();
    let t = task(5, None);
    let id = q.enqueue(5, 0).unwrap();
    q.claim_ready(0, 1, 60).unwrap();
    assert!(settle_dispatch(&mut q, id, &t, result).is_none());
    let e = q.get(id).unwrap();
    assert_eq!(e.attempts, 1);
    assert_eq!(e.status, EntryStatus::Pending);
}

#[test]
fn failed_record_store_fails_the_job() {
    let mut q = JobQueue::new();
    let id = q.enqueue(1, 0).unwrap();
    q.claim_ready(0, 1, 60).unwrap();
    assert!(!record_stored(&mut q, id, Err("db down".to_string())));
    let e = q.get(id).unwrap();
    assert_eq!(e.status, EntryStatus::Pending);
    assert_eq!(e.attempts, 1);
}

#[test]
fn missing_rule_is_not_found() {
    let mut q = JobQueue::new();
    let t = task(1, None);
    let id = q.enqueue(1, 0).unwrap();
    q.claim_ready(0, 1, 60).unwrap();
    let r = plan_recurrence(&mut q, id, &t, Err("no rule 1".to_string()), 0);
    assert!(matches!(r, Err(AppError::NotFound(ref m)) if m == "no rule 1"));
    assert_eq!(q.len(), 1);
    let e = q.get(id).unwrap();
    assert_eq!(e.status, EntryStatus::Pending);
    assert_eq!(e.attempts, 1);
}

#[test]
fn unrepresentable_run_time_is_bad_request() {
    let mut q = JobQueue::new();
    let t = task(1, None);
    let huge = rule(Some(ExecuteType::Days), i64::MAX / 2, true);
    let r = schedule_task(&mut q, &t, &huge, 0);
    assert!(matches!(r, Err(AppError::BadRequest(_))));
    assert_eq!(q.len(), 0);
}

#[test]
fn reschedule_replaces_previous_entry() {
    let mut q = JobQueue::new();
    let r = rule(None, 1, true);
    let old = q.enqueue(3, 0).unwrap();
    let t = task(3, Some(old));
    let new = schedule_task(&mut q, &t, &r, 1000).unwrap();
    assert!(q.get(old).is_none());
    assert_eq!(q.get(new).unwrap().run_at, 1060);
    let t2 = task(3, Some(777));
    let newer = schedule_task(&mut q, &t2, &r, 1000).unwrap();
    assert!(q.get(new).is_some());
    assert!(q.get(newer).is_some());
}

#[test]
fn three_repeating_runs_leave_three_records() {
    let mut q = JobQueue::new();
    let every = rule(Some(ExecuteType::Seconds), 10, true);
    let mut t = task(2, None);
    let mut now: i64 = 0;
    t.job_id = Some(schedule_task(&mut q, &t, &every, now).unwrap());
    let mut records = Vec::new();
    for _ in 0..3 {
        now += 10;
        let e = q.claim_ready(now, 1, 60).unwrap();
        assert_eq!(Some(e.id), t.job_id);
        let rec = settle_dispatch(&mut q, e.id, &t, Ok(ok_result())).unwrap();
        records.push(rec);
        assert!(record_stored(&mut q, e.id, Ok(())));
        let next = plan_recurrence(&mut q, e.id, &t, Ok(every.clone()), now).unwrap().unwrap();
        assert!(finish_run(&mut q, e.id, &t, Some(next), Ok(()), now));
        t.job_id = Some(next);
        let handle = q.get(next).unwrap();
        assert_eq!(handle.status, EntryStatus::Pending);
        assert_eq!(handle.run_at, now + 10);
    }
    assert_eq!(records.len(), 3);
    assert_eq!(q.len(), 1);
}

#[test]
fn unschedulable_next_run_fails_the_job() {
    let mut q = JobQueue::new();
    let t = task(1, None);
    let id = q.enqueue(1, 0).unwrap();
    q.claim_ready(0, 1, 60).unwrap();
    let huge = rule(Some(ExecuteType::Days), i64::MAX / 2, true);
    let r = plan_recurrence(&mut q, id, &t, Ok(huge), 0);
    assert!(matches!(r, Err(AppError::BadRequest(_))));
    assert_eq!(q.len(), 1);
    let e = q.get(id).unwrap();
    assert_eq!(e.status, EntryStatus::Pending);
    assert_eq!(e.attempts, 1);
}

#[test]
fn failed_handle_store_withdraws_next_and_fails_the_job() {
    let mut q = JobQueue::new();
    let every = rule(Some(ExecuteType::Seconds), 10, true);
    let mut t = task(1, None);
    let id = q.enqueue(1, 0).unwrap();
    t.job_id = Some(id);
    q.claim_ready(0, 1, 60).unwrap();
    let next = plan_recurrence(&mut q, id, &t, Ok(every), 0).unwrap().unwrap();
    assert!(!finish_run(&mut q, id, &t, Some(next), Err("db down".to_string()), 0));
    assert!(q.get(next).is_none());
    let e = q.get(id).unwrap();
    assert_eq!(e.status, EntryStatus::Pending);
    assert_eq!(e.attempts, 1);
}

#[test]
fn one_off_run_keeps_its_done_entry() {
    let mut q = JobQueue::new();
    let id = q.enqueue(1, 0).unwrap();
    let t = task(1, Some(id));
    q.claim_ready(0, 1, 60).unwrap();
    assert!(finish_run(&mut q, id, &t, None, Ok(()), 5));
    assert_eq!(q.get(id).unwrap().status, EntryStatus::Done);
}

#[test]
fn drive_run_follows_worker_steps() {
    let mut q = JobQueue::new();
    let every = rule(Some(ExecuteType::Minutes), 5, true);
    let id = q.enqueue(6, 0).unwrap();
    let t = task(6, Some(id));
    q.claim_ready(0, 1, 60).unwrap();
    let (rec, handle) =
        drive_run(&mut q, id, &t, Ok(ok_result()), Ok(()), Ok(every.clone()), Ok(()), 100);
    assert_eq!(rec.unwrap().fetch_id, 6);
    let next = handle.unwrap();
    assert_ne!(next, id);
    assert!(q.get(id).is_none());
    assert_eq!(q.get(next).unwrap().run_at, 400);

    let t2 = task(6, Some(next));
    q.claim_ready(400, 1, 60).unwrap();
    let (rec, handle) = drive_run(
        &mut q,
        next,
        &t2,
        Err("refused".to_string()),
        Ok(()),
        Ok(every),
        Ok(()),
        400,
    );
    assert!(rec.is_none());
    assert_eq!(handle, Some(next));
    assert_eq!(q.get(next).unwrap().attempts, 1);
}

#[test]
fn missing_task_fails_the_job() {
    let mut q = JobQueue::new();
    let id = q.enqueue(1, 0).unwrap();
    q.claim_ready(0, 1, 60).unwrap();
    assert!(resolve_task(&mut q, id, Err("Task 1 not found".to_string())).is_none());
    assert_eq!(q.get(id).unwrap().attempts, 1);
    let found = resolve_task(&mut q, id, Ok(task(1, None))).unwrap();
    assert_eq!(found.id, 1);
}

#[test]
fn header_lookup_failure_means_no_headers() {
    let set = ApiHeader {
        id: 1,
        user_id: 1,
        name: "h".to_string(),
        headers: vec![("a".to_string(), "1".to_string())],
        updated_at: 0,
    };
    assert_eq!(request_headers(Some(Ok(set))).len(), 1);
    assert!(request_headers(Some(Err("gone".to_string()))).is_empty());
    assert!(request_headers(None).is_empty());
}

