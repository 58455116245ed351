use vstd::prelude::*;
use crate::models::{Api, ApiExecute, ApiHeader, AppError, CreateApiData, FetchResult};
use crate::queue::{complete_in, delete_in, fail_in, has_leased, pending_entry, JobQueue, QueueEntry};
use crate::recurrence::{enqueue_failure, enqueue_next, next_run_of, schedulable};

verus! {

/// The decimal digits of `n`.
pub open spec fn digits(n: nat) -> Seq<char>
    decreases n,
{
    let d = (('0' as u32) + (n % 10) as u32) as char;
    if n < 10 {
        seq![d]
    } else {
        digits(n / 10).push(d)
    }
}

/// `n` written in decimal, with a leading `-` when negative.
pub open spec fn decimal(n: int) -> Seq<char> {
    if n < 0 {
        seq!['-'] + digits((-n) as nat)
    } else {
        digits(n as nat)
    }
}

/// The one-digit string of `d`.
fn digit_str(d: u64) -> (r: &'static str)
    requires
        d < 10,
    ensures
        r@ == seq![(('0' as u32) + d as u32) as char],
{
    match d {
        0 => {
            proof {
                reveal_strlit("0");
            }
            "0"
        },
        1 => {
            proof {
                reveal_strlit("1");
            }
            "1"
        },
        2 => {
            proof {
                reveal_strlit("2");
            }
            "2"
        },
        3 => {
            proof {
                reveal_strlit("3");
            }
            "3"
        },
        4 => {
            proof {
                reveal_strlit("4");
            }
            "4"
        },
        5 => {
            proof {
                reveal_strlit("5");
            }
            "5"
        },
        6 => {
            proof {
                reveal_strlit("6");
            }
            "6"
        },
        7 => {
            proof {
                reveal_strlit("7");
            }
            "7"
        },
        8 => {
            proof {
                reveal_strlit("8");
            }
            "8"
        },
        _ => {
            proof {
                reveal_strlit("9");
            }
            "9"
        },
    }
}

/// Appends the decimal digits of `n` to `s`.
fn append_digits(s: &mut String, n: u64)
    ensures
        final(s)@ == old(s)@ + digits(n as nat),
    decreases n,
{
    if n >= 10 {
        append_digits(s, n / 10);
    }
    s.append(digit_str(n % 10));
}

/// Appends `n` in decimal to `s`, with a leading `-` when negative.
fn append_decimal(s: &mut String, n: i64)
    ensures
        final(s)@ == old(s)@ + decimal(n as int),
{
    if n < 0 {
        let minus = "-";
        proof {
            reveal_strlit("-");
        }
        s.append(minus);
        let magnitude: u64 = if n == i64::MIN {
            9223372036854775808u64
        } else {
            (-n) as u64
        };
        append_digits(s, magnitude);
        assert(s@ =~= old(s)@ + decimal(n as int));
    } else {
        append_digits(s, n as u64);
    }
}

/// Appends `n` in decimal to `s`.
fn append_unsigned(s: &mut String, n: u64)
    ensures
        final(s)@ == old(s)@ + decimal(n as int),
{
    append_digits(s, n);
}

/// The label of an execution record: `<name> [<task id>-<queue entry id>]`.
pub open spec fn label_of(name: Seq<char>, task_id: i32, job_id: u64) -> Seq<char> {
    name + seq![' ', '['] + decimal(task_id as int) + seq!['-'] + decimal(job_id as int) + seq![']']
}

/// Builds the label of the record of `task`'s run from queue entry `job_id`.
pub fn record_label(name: &String, task_id: i32, job_id: u64) -> (r: String)
    ensures
        r@ == label_of(name@, task_id, job_id),
{
    let mut s = name.clone();
    let open = " [";
    let dash = "-";
    let close = "]";
    proof {
        reveal_strlit(" [");
        reveal_strlit("-");
        reveal_strlit("]");
    }
    s.append(open);
    append_decimal(&mut s, task_id as i64);
    s.append(dash);
    append_unsigned(&mut s, job_id);
    s.append(close);
    s
}

/// Whether `rec` records `result` of `task`'s run from queue entry `job_id`.
pub open spec fn records(rec: CreateApiData, task: Api, job_id: u64, result: FetchResult) -> bool {
    &&& rec.fetch_id == task.id
    &&& rec.name@ == label_of(task.name@, task.id, job_id)
    &&& rec.status_code == Some(result.status_code)
    &&& rec.response == Some(result.response)
    &&& rec.response_headers == Some(result.headers)
}

/// The execution record of a successful dispatch of `task` from queue entry `job_id`.
pub fn execution_record(task: &Api, job_id: u64, result: FetchResult) -> (r: CreateApiData)
    ensures
        records(r, *task, job_id, result),
{
    CreateApiData {
        fetch_id: task.id,
        name: record_label(&task.name, task.id, job_id),
        status_code: Some(result.status_code),
        response: Some(result.response),
        response_headers: Some(result.headers),
    }
}

/// Takes in the outcome of dispatching `task` from the leased entry `entry_id`. A failed
/// dispatch is reported to the queue and yields no record; a successful one yields the
/// record to store and leaves the queue as it is until that record is stored.
pub fn settle_dispatch(
    queue: &mut JobQueue,
    entry_id: u64,
    task: &Api,
    result: Result<FetchResult, String>,
) -> (r: Option<CreateApiData>)
    requires
        old(queue).wf(),
    ensures
        final(queue).wf(),
        final(queue).created() == old(queue).created(),
        result is Err ==> r is None && final(queue).entries() == fail_in(
            old(queue).entries(),
            entry_id,
        ),
        result matches Ok(res) ==> final(queue).entries() == old(queue).entries() && (
        r matches Some(rec) && records(rec, *task, entry_id, res)),
{
    match result {
        Ok(res) => Some(execution_record(task, entry_id, res)),
        Err(_) => {
            queue.fail(entry_id);
            None
        },
    }
}

/// Takes in whether the record of a successful dispatch was stored. If storing failed, the
/// job fails like a failed dispatch and `false` is returned; otherwise the queue is left as
/// it is, since the entry completes only once its follow-up is planned (see
/// [`finish_run`]).
pub fn record_stored(queue: &mut JobQueue, entry_id: u64, stored: Result<(), String>) -> (r: bool)
    requires
        old(queue).wf(),
    ensures
        final(queue).wf(),
        final(queue).created() == old(queue).created(),
        r == stored is Ok,
        stored is Ok ==> final(queue).entries() == old(queue).entries(),
        stored is Err ==> final(queue).entries() == fail_in(old(queue).entries(), entry_id),
{
    match stored {
        Ok(()) => true,
        Err(_) => {
            queue.fail(entry_id);
            false
        },
    }
}

/// After the record of `task`'s run from the leased entry `entry_id` is stored, looks at
/// its execution rule. A repeating rule enqueues the next run at `now` plus the interval
/// and returns its id, the task's new queue handle; a one-off rule enqueues nothing.
/// A rule that could not be found (`NotFound`) or a next run that cannot be enqueued
/// fails the job: the entry gets `fail_in`, and nothing is enqueued.
pub fn plan_recurrence(
    queue: &mut JobQueue,
    entry_id: u64,
    task: &Api,
    rule: Result<ApiExecute, String>,
    now: i64,
) -> (r: Result<Option<u64>, AppError>)
    requires
        old(queue).wf(),
    ensures
        final(queue).wf(),
        rule matches Err(msg) ==> r == Err::<Option<u64>, AppError>(AppError::NotFound(msg)),
        rule matches Ok(ru) ==> (!ru.is_repeat ==> r matches Ok(None)),
        rule matches Ok(ru) ==> (ru.is_repeat ==> (r is Ok <==> schedulable(now, ru)
            && old(queue).created() < u64::MAX)),
        rule matches Ok(ru) ==> (ru.is_repeat ==> (r is Ok ==> r matches Ok(Some(_)))),
        rule matches Ok(ru) ==> (ru.is_repeat && !schedulable(now, ru) ==> r matches Err(
            AppError::BadRequest(_),
        )),
        rule matches Ok(ru) ==> (ru.is_repeat && schedulable(now, ru) && old(queue).created()
            == u64::MAX ==> (r matches Err(AppError::InternalError(m)) && m@ == enqueue_failure())),
        r is Err ==> final(queue).entries() == fail_in(old(queue).entries(), entry_id)
            && final(queue).created() == old(queue).created(),
        r matches Ok(None) ==> final(queue).entries() == old(queue).entries()
            && final(queue).created() == old(queue).created(),
        r matches Ok(Some(id)) ==> (rule matches Ok(ru) && {
            &&& ru.is_repeat
            &&& id == old(queue).created()
            &&& final(queue).created() == old(queue).created() + 1
            &&& final(queue).entries() == old(queue).entries().push(
                pending_entry(id, task.id, next_run_of(now, ru) as i64),
            )
        }),
{
    match rule {
        Err(msg) => {
            queue.fail(entry_id);
            Err(AppError::NotFound(msg))
        },
        Ok(ru) => {
            if ru.is_repeat {
                match enqueue_next(queue, task.id, &ru, now) {
                    Ok(id) => Ok(Some(id)),
                    Err(e) => {
                        queue.fail(entry_id);
                        Err(e)
                    },
                }
            } else {
                Ok(None)
            }
        },
    }
}

/// `s` once a run ended with its follow-up `next` planned: when there is one, the task's
/// previous entry `handle` (often the entry that just ran) is dropped.
pub open spec fn without_previous(s: Seq<QueueEntry>, next: Option<u64>, handle: Option<u64>) -> Seq<
    QueueEntry,
> {
    match (next, handle) {
        (Some(_), Some(h)) => delete_in(s, h),
        _ => s,
    }
}

/// `s` without the entry `next`, if any.
pub open spec fn without_next(s: Seq<QueueEntry>, next: Option<u64>) -> Seq<QueueEntry> {
    match next {
        Some(n) => delete_in(s, n),
        None => s,
    }
}

/// Ends the run of `task` from the leased entry `entry_id`, once its follow-up `next` (the
/// entry planned by [`plan_recurrence`], if any) is known and the task's new handle was
/// stored, or not. When stored, the entry is done at `now`; if a next entry was planned,
/// the task's previous entry is then deleted, even when it is the one that just ran.
/// Returns whether the entry completed. When the handle could not be stored, the job fails:
/// `next` is withdrawn and the entry gets `fail_in`.
pub fn finish_run(
    queue: &mut JobQueue,
    entry_id: u64,
    task: &Api,
    next: Option<u64>,
    handle_stored: Result<(), String>,
    now: i64,
) -> (r: bool)
    requires
        old(queue).wf(),
    ensures
        final(queue).wf(),
        final(queue).created() == old(queue).created(),
        handle_stored is Ok ==> r == has_leased(old(queue).entries(), entry_id)
            && final(queue).entries() == without_previous(
            complete_in(old(queue).entries(), entry_id, now),
            next,
            task.job_id,
        ),
        handle_stored is Err ==> !r && final(queue).entries() == fail_in(
            without_next(old(queue).entries(), next),
            entry_id,
        ),
{
    match handle_stored {
        Ok(()) => {
            let done = queue.complete(entry_id, now);
            match (next, task.job_id) {
                (Some(_), Some(h)) => {
                    queue.delete(h);
                },
                _ => {},
            }
            done
        },
        Err(_) => {
            match next {
                Some(n) => {
                    queue.delete(n);
                },
                None => {},
            }
            queue.fail(entry_id);
            false
        },
    }
}

/// Looks up the task of the claimed entry `entry_id`. A task that cannot be found fails
/// the job and gives `None`; otherwise the queue is left as it is.
pub fn resolve_task(queue: &mut JobQueue, entry_id: u64, found: Result<Api, String>) -> (r: Option<
    Api,
>)
    requires
        old(queue).wf(),
    ensures
        final(queue).wf(),
        final(queue).created() == old(queue).created(),
        found matches Ok(t) ==> r == Some(t) && final(queue).entries() == old(queue).entries(),
        found is Err ==> r is None && final(queue).entries() == fail_in(
            old(queue).entries(),
            entry_id,
        ),
{
    match found {
        Ok(t) => Some(t),
        Err(_) => {
            queue.fail(entry_id);
            None
        },
    }
}

/// The headers to send: those of the task's header set when it has one and it was found;
/// none when it has none, or when the lookup failed.
pub fn request_headers(header_set: Option<Result<ApiHeader, String>>) -> (r: Vec<(String, String)>)
    ensures
        header_set matches Some(Ok(h)) ==> r@ == h.headers@,
        !(header_set matches Some(Ok(_))) ==> r@.len() == 0,
{
    match header_set {
        Some(Ok(h)) => h.headers,
        _ => Vec::new(),
    }
}

} // verus!
