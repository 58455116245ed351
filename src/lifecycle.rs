use vstd::prelude::*;
use crate::models::{Api, ApiExecute, CreateApiData, FetchResult};
use crate::queue::{
    claim_in, complete_in, delete_in, fail_in, pending_entry, EntryStatus, JobQueue, QueueEntry,
};
use crate::recurrence::{next_run_of, schedulable};
use crate::worker::{finish_run, plan_recurrence, record_stored, settle_dispatch};

verus! {

// The life of one task in the queue, as the worker drives it: the handle's entry is
// claimed and dispatched, its record stored, the task's rule looked up, under a repeating
// rule the next run enqueued and the new handle stored, and the entry finished.
// `after_run` is one such run; `drive_run` makes the worker's calls in that order and is
// proved to have exactly that effect on the queue.

/// What the queue and the record store hold of one task.
pub struct TaskLife {
    pub entries: Seq<QueueEntry>,
    pub created: nat,
    pub handle: Option<u64>,
    pub records: nat,
}

/// How the outside steps of one run went: the dispatch, storing the record, looking up
/// the rule, and storing the new handle.
pub struct RunOutcome {
    pub dispatched: bool,
    pub stored: bool,
    pub rule_found: bool,
    pub handle_stored: bool,
}

/// A run in which every outside step succeeded.
pub open spec fn all_ok(o: RunOutcome) -> bool {
    o.dispatched && o.stored && o.rule_found && o.handle_stored
}

/// The handle's entry, if claimable at `now`, leased to `worker`.
pub open spec fn claimed(st: TaskLife, worker: u64, now: i64, secs: u32) -> TaskLife {
    match st.handle {
        Some(h) => TaskLife { entries: claim_in(st.entries, h, worker, now, secs), ..st },
        None => st,
    }
}

/// The state after the run of the handle's (leased) entry ended with `o` at `now`, where
/// `rule` is the task's rule, or `None` when `o.rule_found` does not hold.
pub open spec fn after_run(
    st: TaskLife,
    task_id: i32,
    rule: Option<ApiExecute>,
    o: RunOutcome,
    now: i64,
) -> TaskLife {
    let h = st.handle->0;
    let failed = TaskLife { entries: fail_in(st.entries, h), ..st };
    if !o.dispatched || !o.stored {
        failed
    } else if !o.rule_found || rule is None {
        TaskLife { records: st.records + 1, ..failed }
    } else if !rule->0.is_repeat {
        TaskLife { entries: complete_in(st.entries, h, now), records: st.records + 1, ..st }
    } else if !(schedulable(now, rule->0) && st.created < u64::MAX) {
        TaskLife { records: st.records + 1, ..failed }
    } else {
        let id = st.created as u64;
        let pushed = st.entries.push(
            pending_entry(id, task_id, next_run_of(now, rule->0) as i64),
        );
        if o.handle_stored {
            TaskLife {
                entries: delete_in(complete_in(pushed, h, now), h),
                created: st.created + 1,
                handle: Some(id),
                records: st.records + 1,
            }
        } else {
            TaskLife {
                entries: fail_in(delete_in(pushed, id), h),
                created: st.created + 1,
                handle: st.handle,
                records: st.records + 1,
            }
        }
    }
}

/// The rule as a run sees it: `None` when the lookup failed.
pub open spec fn rule_of(rule: Result<ApiExecute, String>) -> Option<ApiExecute> {
    match rule {
        Ok(ru) => Some(ru),
        Err(_) => None,
    }
}

/// One run of `task`'s current entry `entry_id` (its handle), given how each outside step
/// went: `settle_dispatch`, `record_stored`, `plan_recurrence` and `finish_run` in the order
/// the worker makes them. Returns the record produced, if any, and the task's handle after
/// the run. Its effect on the queue, the handle and the count of stored records is
/// [`after_run`].
pub fn drive_run(
    queue: &mut JobQueue,
    entry_id: u64,
    task: &Api,
    dispatched: Result<FetchResult, String>,
    stored: Result<(), String>,
    rule: Result<ApiExecute, String>,
    handle_stored: Result<(), String>,
    now: i64,
) -> (r: (Option<CreateApiData>, Option<u64>))
    requires
        old(queue).wf(),
        task.job_id == Some(entry_id),
    ensures
        final(queue).wf(),
        ({
            let before = TaskLife {
                entries: old(queue).entries(),
                created: old(queue).created(),
                handle: task.job_id,
                records: 0,
            };
            let o = RunOutcome {
                dispatched: dispatched is Ok,
                stored: stored is Ok,
                rule_found: rule is Ok,
                handle_stored: handle_stored is Ok,
            };
            let after = after_run(before, task.id, rule_of(rule), o, now);
            &&& final(queue).entries() == after.entries
            &&& final(queue).created() == after.created
            &&& r.1 == after.handle
            &&& after.records == (if r.0 is Some && stored is Ok {
                1nat
            } else {
                0nat
            })
            &&& r.0 is Some == dispatched is Ok
        }),
{
    let record = match settle_dispatch(queue, entry_id, task, dispatched) {
        Some(rec) => rec,
        None => {
            return (None, task.job_id);
        },
    };
    if !record_stored(queue, entry_id, stored) {
        return (Some(record), task.job_id);
    }
    let next = match plan_recurrence(queue, entry_id, task, rule, now) {
        Ok(next) => next,
        Err(_) => {
            return (Some(record), task.job_id);
        },
    };
    let ok = handle_stored.is_ok();
    let outcome = match next {
        Some(_) => handle_stored,
        None => Ok(()),
    };
    finish_run(queue, entry_id, task, next, outcome, now);
    let handle = match next {
        Some(id) => if ok {
            Some(id)
        } else {
            task.job_id
        },
        None => task.job_id,
    };
    (Some(record), handle)
}

/// The state after `n` runs: the `k`-th is claimed by `workers[k]` at `times[k]` and
/// ends with `outcomes[k]`, under the task's rule `rule`.
pub open spec fn runs(
    st: TaskLife,
    task_id: i32,
    rule: ApiExecute,
    outcomes: Seq<RunOutcome>,
    workers: Seq<u64>,
    times: Seq<i64>,
    secs: u32,
    n: nat,
) -> TaskLife
    decreases n,
{
    if n == 0 {
        st
    } else {
        let prev = runs(st, task_id, rule, outcomes, workers, times, secs, (n - 1) as nat);
        let o = outcomes[n - 1];
        after_run(
            claimed(prev, workers[n - 1], times[n - 1], secs),
            task_id,
            if o.rule_found {
                Some(rule)
            } else {
                None
            },
            o,
            times[n - 1],
        )
    }
}

/// Whether `s` holds a pending entry with the id `id`.
pub open spec fn has_pending(s: Seq<QueueEntry>, id: u64) -> bool {
    exists|i: int|
        0 <= i < s.len() && #[trigger] s[i].id == id && s[i].status == EntryStatus::Pending
}

/// The entries of `s` that belong to task `task_id`.
pub open spec fn entries_of(s: Seq<QueueEntry>, task_id: i32) -> Seq<QueueEntry> {
    s.filter(|e: QueueEntry| e.task_id == task_id)
}

/// Scheduling a task that has no entry yet leaves exactly one entry for it: the new one.
pub proof fn lemma_first_schedule_single_entry(s: Seq<QueueEntry>, e: QueueEntry)
    requires
        forall|i: int| 0 <= i < s.len() ==> #[trigger] s[i].task_id != e.task_id,
    ensures
        entries_of(s.push(e), e.task_id) == seq![e],
{
    let p = |x: QueueEntry| x.task_id == e.task_id;
    reveal(Seq::filter);
    assert(s.push(e).drop_last() =~= s);
    if s.filter(p).len() > 0 {
        s.lemma_filter_pred(p, 0);
        s.lemma_filter_contains_rev(p, s.filter(p)[0]);
    }
    assert(s.filter(p) =~= Seq::<QueueEntry>::empty());
    assert(s.push(e).filter(p) =~= seq![e]);
}

/// Under a rule that does not repeat, no run creates a queue entry, whatever its outcome:
/// the task's first entry stays the only one ever created for it.
pub proof fn lemma_one_off_rule_creates_no_entry(
    st: TaskLife,
    task_id: i32,
    rule: ApiExecute,
    outcomes: Seq<RunOutcome>,
    workers: Seq<u64>,
    times: Seq<i64>,
    secs: u32,
    n: nat,
)
    requires
        !rule.is_repeat,
    ensures
        runs(st, task_id, rule, outcomes, workers, times, secs, n).created == st.created,
    decreases n,
{
    if n > 0 {
        lemma_one_off_rule_creates_no_entry(
            st,
            task_id,
            rule,
            outcomes,
            workers,
            times,
            secs,
            (n - 1) as nat,
        );
    }
}

/// Under a repeating rule, after `n` consecutive successful runs exactly `n` more records
/// exist, and the task's handle points to a pending entry that has not run yet. This needs
/// each next run time to be representable in an `i64` and the queue to have ids left:
/// otherwise no next entry can exist.
pub proof fn lemma_repeating_runs(
    st: TaskLife,
    task_id: i32,
    rule: ApiExecute,
    outcomes: Seq<RunOutcome>,
    workers: Seq<u64>,
    times: Seq<i64>,
    secs: u32,
    n: nat,
)
    requires
        rule.is_repeat,
        st.handle matches Some(h) && has_pending(st.entries, h) && h < st.created,
        n <= outcomes.len(),
        n <= times.len(),
        forall|k: int| 0 <= k < n ==> all_ok(#[trigger] outcomes[k]),
        forall|k: int| 0 <= k < n ==> schedulable(#[trigger] times[k], rule),
        st.created + n < u64::MAX,
    ensures
        runs(st, task_id, rule, outcomes, workers, times, secs, n).records == st.records + n,
        runs(st, task_id, rule, outcomes, workers, times, secs, n).created == st.created + n,
        runs(st, task_id, rule, outcomes, workers, times, secs, n).handle matches Some(h)
            && has_pending(runs(st, task_id, rule, outcomes, workers, times, secs, n).entries, h)
            && h < runs(st, task_id, rule, outcomes, workers, times, secs, n).created,
    decreases n,
{
    if n > 0 {
        lemma_repeating_runs(st, task_id, rule, outcomes, workers, times, secs, (n - 1) as nat);
        let prev = runs(st, task_id, rule, outcomes, workers, times, secs, (n - 1) as nat);
        let c = claimed(prev, workers[n - 1], times[n - 1], secs);
        let now = times[n - 1];
        assert(all_ok(outcomes[n - 1]));
        assert(schedulable(now, rule));
        let h = c.handle->0;
        let id = c.created as u64;
        let pushed = c.entries.push(pending_entry(id, task_id, next_run_of(now, rule) as i64));
        let done = complete_in(pushed, h, now);
        let last = done.len() - 1;
        assert(done[last] == pushed[last]);
        let keep = |x: QueueEntry| x.id != h;
        assert(keep(done[last]));
        done.lemma_filter_contains(keep, last);
        let next = runs(st, task_id, rule, outcomes, workers, times, secs, n);
        assert(next.entries == done.filter(keep));
        let k = choose|k: int| 0 <= k < next.entries.len() && next.entries[k] == done[last];
        assert(next.entries[k].id == id && next.entries[k].status == EntryStatus::Pending);
    }
}

} // verus!
