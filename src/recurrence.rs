use vstd::prelude::*;
use crate::models::{Api, ApiExecute, AppError, ExecuteType};
use crate::queue::{delete_in, pending_entry, JobQueue, QueueEntry};

verus! {

/// Seconds in one unit of an execution rule; a rule without a unit counts in minutes.
pub open spec fn unit_seconds(unit: Option<ExecuteType>) -> int {
    match unit {
        Some(ExecuteType::Seconds) => 1,
        Some(ExecuteType::Minutes) => 60,
        Some(ExecuteType::Hours) => 3600,
        Some(ExecuteType::Days) => 86400,
        None => 60,
    }
}

/// The interval of `value` units, in seconds.
pub open spec fn interval_of(unit: Option<ExecuteType>, value: i64) -> int {
    value * unit_seconds(unit)
}

pub open spec fn fits_i64(x: int) -> bool {
    i64::MIN <= x <= i64::MAX
}

/// When a task under `rule`, scheduled at `now`, runs next.
pub open spec fn next_run_of(now: i64, rule: ApiExecute) -> int {
    now + interval_of(rule.kind, rule.value)
}

/// Whether the next run time under `rule` from `now` can be represented.
pub open spec fn schedulable(now: i64, rule: ApiExecute) -> bool {
    fits_i64(interval_of(rule.kind, rule.value)) && fits_i64(next_run_of(now, rule))
}

/// The queue entries after scheduling `e` for a task whose previous entry is `handle`:
/// the previous entry is gone and `e` is last.
pub open spec fn rescheduled(s: Seq<QueueEntry>, handle: Option<u64>, e: QueueEntry) -> Seq<
    QueueEntry,
> {
    match handle {
        Some(h) => delete_in(s, h).push(e),
        None => s.push(e),
    }
}

/// The interval of `value` units of `unit` in seconds, or `None` when it does not fit in
/// an `i64`.
pub fn interval_seconds(unit: Option<ExecuteType>, value: i64) -> (r: Option<i64>)
    ensures
        r is Some <==> fits_i64(interval_of(unit, value)),
        r matches Some(d) ==> d == interval_of(unit, value),
{
    let factor: i64 = match unit {
        Some(ExecuteType::Seconds) => 1,
        Some(ExecuteType::Minutes) => 60,
        Some(ExecuteType::Hours) => 3600,
        Some(ExecuteType::Days) => 86400,
        None => 60,
    };
    value.checked_mul(factor)
}

/// The next run time under `rule` when scheduled at `now`, or `None` when it cannot be
/// represented.
pub fn next_run_at(now: i64, rule: &ApiExecute) -> (r: Option<i64>)
    ensures
        r is Some <==> schedulable(now, *rule),
        r matches Some(t) ==> t == next_run_of(now, *rule),
{
    match interval_seconds(rule.kind, rule.value) {
        Some(d) => now.checked_add(d),
        None => None,
    }
}

/// What a failed enqueue reports.
pub open spec fn enqueue_failure() -> Seq<char> {
    "Failed to create scheduler!"@
}

/// Enqueues the next run of task `task_id` under `rule`, due at `now` plus the rule's
/// interval, and returns the new entry's id. Nothing changes when it fails: `BadRequest`
/// when the run time cannot be represented, `InternalError` when the queue has no id left.
pub fn enqueue_next(queue: &mut JobQueue, task_id: i32, rule: &ApiExecute, now: i64) -> (r: Result<
    u64,
    AppError,
>)
    requires
        old(queue).wf(),
    ensures
        final(queue).wf(),
        r is Ok <==> schedulable(now, *rule) && old(queue).created() < u64::MAX,
        !schedulable(now, *rule) ==> r matches Err(AppError::BadRequest(_)),
        schedulable(now, *rule) && old(queue).created() == u64::MAX ==> (r matches Err(
            AppError::InternalError(m),
        ) && m@ == enqueue_failure()),
        r is Err ==> final(queue).entries() == old(queue).entries() && final(queue).created()
            == old(queue).created(),
        r matches Ok(id) ==> {
            &&& id == old(queue).created()
            &&& final(queue).created() == old(queue).created() + 1
            &&& final(queue).entries() == old(queue).entries().push(
                pending_entry(id, task_id, next_run_of(now, *rule) as i64),
            )
        },
{
    let run_at = match next_run_at(now, rule) {
        Some(t) => t,
        None => {
            return Err(AppError::BadRequest("Execution interval out of range".to_string()));
        },
    };
    match queue.enqueue(task_id, run_at) {
        Some(id) => Ok(id),
        None => {
            let msg = "Failed to create scheduler!".to_string();
            proof {
                broadcast use vstd::string::to_string_from_display_ensures_for_str;

            }
            Err(AppError::InternalError(msg))
        },
    }
}

/// Schedules the next run of `task` under `rule` at `now`: enqueues a pending entry due
/// after the rule's interval and drops the task's previous entry, if any. Returns the new
/// entry's id, the task's new queue handle. Nothing changes when it fails, with the errors
/// of [`enqueue_next`].
pub fn schedule_task(queue: &mut JobQueue, task: &Api, rule: &ApiExecute, now: i64) -> (r: Result<
    u64,
    AppError,
>)
    requires
        old(queue).wf(),
    ensures
        final(queue).wf(),
        r is Ok <==> schedulable(now, *rule) && old(queue).created() < u64::MAX,
        !schedulable(now, *rule) ==> r matches Err(AppError::BadRequest(_)),
        schedulable(now, *rule) && old(queue).created() == u64::MAX ==> (r matches Err(
            AppError::InternalError(m),
        ) && m@ == enqueue_failure()),
        r is Err ==> final(queue).entries() == old(queue).entries() && final(queue).created()
            == old(queue).created(),
        r matches Ok(id) ==> {
            &&& id == old(queue).created()
            &&& final(queue).created() == old(queue).created() + 1
            &&& final(queue).entries() == rescheduled(
                old(queue).entries(),
                task.job_id,
                pending_entry(id, task.id, next_run_of(now, *rule) as i64),
            )
        },
{
    let fits = match next_run_at(now, rule) {
        Some(_) => true,
        None => false,
    };
    if !fits || queue.is_full() {
        return enqueue_next(queue, task.id, rule, now);
    }
    match task.job_id {
        Some(h) => {
            queue.delete(h);
        },
        None => {},
    }
    enqueue_next(queue, task.id, rule, now)
}

} // verus!
