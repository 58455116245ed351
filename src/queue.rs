use vstd::prelude::*;
use crate::seqs::lemma_filter_take_step;

verus! {

/// Attempt ceiling of every queue entry; reasserted each time an entry is claimed.
pub const MAX_ATTEMPTS: u32 = 10;

/// Lifecycle state of a queue entry.
#[derive(Clone, Copy, Debug, PartialEq, Eq, Structural)]
pub enum EntryStatus {
    Pending,
    Leased,
    Done,
    Failed,
}

/// One scheduled occurrence of a task. Times are Unix timestamps in seconds.
#[derive(Clone, Copy, Debug, PartialEq, Eq, Structural)]
pub struct QueueEntry {
    pub id: u64,
    pub task_id: i32,
    pub status: EntryStatus,
    pub attempts: u32,
    pub max_attempts: u32,
    pub run_at: i64,
    pub lease_owner: Option<u64>,
    pub lease_expires_at: Option<i64>,
    pub done_at: Option<i64>,
}

/// A fresh entry for `task_id`, due at `run_at`.
pub open spec fn pending_entry(id: u64, task_id: i32, run_at: i64) -> QueueEntry {
    QueueEntry {
        id,
        task_id,
        status: EntryStatus::Pending,
        attempts: 0,
        max_attempts: MAX_ATTEMPTS,
        run_at,
        lease_owner: None,
        lease_expires_at: None,
        done_at: None,
    }
}

/// An entry may be claimed when it is pending and due, or when its lease ran out.
pub open spec fn claimable(e: QueueEntry, now: i64) -> bool {
    ||| e.status == EntryStatus::Pending && e.run_at <= now
    ||| e.status == EntryStatus::Leased && (e.lease_expires_at matches Some(t) && t <= now)
}

/// The instant a lease of `secs` seconds taken at `now` runs out (clamped to the i64 range).
pub open spec fn lease_deadline(now: i64, secs: u32) -> i64 {
    if now + secs > i64::MAX {
        i64::MAX
    } else {
        (now + secs) as i64
    }
}

/// `e` once `worker` holds it.
pub open spec fn leased(e: QueueEntry, worker: u64, now: i64, secs: u32) -> QueueEntry {
    QueueEntry {
        status: EntryStatus::Leased,
        max_attempts: MAX_ATTEMPTS,
        lease_owner: Some(worker),
        lease_expires_at: Some(lease_deadline(now, secs)),
        ..e
    }
}

/// `s` after the entry `id` was leased to `worker` at `now`, if it was claimable.
pub open spec fn claim_in(s: Seq<QueueEntry>, id: u64, worker: u64, now: i64, secs: u32) -> Seq<
    QueueEntry,
> {
    s.map_values(
        |e: QueueEntry|
            if e.id == id && claimable(e, now) {
                leased(e, worker, now, secs)
            } else {
                e
            },
    )
}

/// `e` once its dispatch succeeded at `now`.
pub open spec fn completed(e: QueueEntry, now: i64) -> QueueEntry {
    QueueEntry {
        status: EntryStatus::Done,
        lease_owner: None,
        lease_expires_at: None,
        done_at: Some(now),
        ..e
    }
}

/// `e` once a dispatch failed: one more attempt, then back to pending or, at the ceiling, failed.
pub open spec fn after_failure(e: QueueEntry) -> QueueEntry {
    QueueEntry {
        status: if e.attempts + 1 >= e.max_attempts {
            EntryStatus::Failed
        } else {
            EntryStatus::Pending
        },
        attempts: (e.attempts + 1) as u32,
        lease_owner: None,
        lease_expires_at: None,
        ..e
    }
}

/// An entry that the retention sweep removes at `now`: done, and completed more than
/// `retention` seconds ago.
pub open spec fn expired(e: QueueEntry, now: i64, retention: i64) -> bool {
    e.status == EntryStatus::Done && (e.done_at matches Some(t) && t + retention < now)
}

/// The entries that a sweep at `now` keeps.
pub open spec fn retained(now: i64) -> spec_fn(QueueEntry) -> bool {
    |e: QueueEntry| !expired(e, now, RETENTION_SECS)
}

/// The entries other than `id`.
pub open spec fn other_than(id: u64) -> spec_fn(QueueEntry) -> bool {
    |e: QueueEntry| e.id != id
}

/// `s` after the leased entry `id` completed at `now`.
pub open spec fn complete_in(s: Seq<QueueEntry>, id: u64, now: i64) -> Seq<QueueEntry> {
    s.map_values(
        |e: QueueEntry|
            if e.id == id && e.status == EntryStatus::Leased {
                completed(e, now)
            } else {
                e
            },
    )
}

/// `s` after a failed dispatch of the leased entry `id`.
pub open spec fn fail_in(s: Seq<QueueEntry>, id: u64) -> Seq<QueueEntry> {
    s.map_values(
        |e: QueueEntry|
            if e.id == id && e.status == EntryStatus::Leased {
                after_failure(e)
            } else {
                e
            },
    )
}

/// `s` without the entry `id`.
pub open spec fn delete_in(s: Seq<QueueEntry>, id: u64) -> Seq<QueueEntry> {
    s.filter(other_than(id))
}

/// Whether `s` holds a leased entry with the id `id`.
pub open spec fn has_leased(s: Seq<QueueEntry>, id: u64) -> bool {
    exists|i: int|
        0 <= i < s.len() && #[trigger] s[i].id == id && s[i].status == EntryStatus::Leased
}

/// Whether some entry of `s` has the id `id`.
pub open spec fn has_id(s: Seq<QueueEntry>, id: u64) -> bool {
    exists|i: int| 0 <= i < s.len() && #[trigger] s[i].id == id
}

/// The well-formedness of a single entry.
pub open spec fn entry_wf(e: QueueEntry) -> bool {
    &&& e.max_attempts == MAX_ATTEMPTS
    &&& e.attempts <= e.max_attempts
    &&& (e.status == EntryStatus::Pending || e.status == EntryStatus::Leased) ==> e.attempts
        < e.max_attempts
    &&& e.status == EntryStatus::Failed ==> e.attempts == e.max_attempts
    &&& e.status == EntryStatus::Leased <==> e.lease_owner is Some
    &&& e.status == EntryStatus::Leased <==> e.lease_expires_at is Some
    &&& e.status == EntryStatus::Done <==> e.done_at is Some
}

/// Whether `entries` and `next_id` make a well-formed queue: ids increasing strictly and
/// below `next_id`, each entry well formed.
pub open spec fn restorable(entries: Seq<QueueEntry>, next_id: u64) -> bool {
    &&& forall|i: int, j: int|
        0 <= i < j < entries.len() ==> #[trigger] entries[i].id < #[trigger] entries[j].id
    &&& forall|i: int| 0 <= i < entries.len() ==> #[trigger] entries[i].id < next_id
    &&& forall|i: int| 0 <= i < entries.len() ==> entry_wf(#[trigger] entries[i])
}

/// Exec form of [`entry_wf`].
fn entry_ok(e: &QueueEntry) -> (r: bool)
    ensures
        r == entry_wf(*e),
{
    let active = e.status == EntryStatus::Pending || e.status == EntryStatus::Leased;
    let leased = e.status == EntryStatus::Leased;
    let done = e.status == EntryStatus::Done;
    e.max_attempts == MAX_ATTEMPTS && e.attempts <= e.max_attempts && (!active || e.attempts
        < e.max_attempts) && (e.status != EntryStatus::Failed || e.attempts == e.max_attempts)
        && leased == e.lease_owner.is_some() && leased == e.lease_expires_at.is_some() && done
        == e.done_at.is_some()
}

/// A durable-queue model: entries in order of creation, each with a distinct id below
/// `next_id`. Ids are handed out in sequence, so `next_id` counts every entry ever created.
pub struct JobQueue {
    entries: Vec<QueueEntry>,
    next_id: u64,
}

impl JobQueue {
    pub closed spec fn entries(&self) -> Seq<QueueEntry> {
        self.entries@
    }

    /// Number of entries ever created by this queue.
    pub closed spec fn created(&self) -> nat {
        self.next_id as nat
    }

    pub closed spec fn wf(&self) -> bool {
        &&& forall|i: int, j: int|
            0 <= i < j < self.entries@.len() ==> #[trigger] self.entries@[i].id
                < #[trigger] self.entries@[j].id
        &&& forall|i: int|
            0 <= i < self.entries@.len() ==> #[trigger] self.entries@[i].id < self.next_id
        &&& forall|i: int| 0 <= i < self.entries@.len() ==> entry_wf(#[trigger] self.entries@[i])
    }

    /// An empty queue.
    pub fn new() -> (q: JobQueue)
        ensures
            q.wf(),
            q.entries() == Seq::<QueueEntry>::empty(),
            q.created() == 0,
    {
        JobQueue { entries: Vec::new(), next_id: 0 }
    }
}


/// The time after which a completed entry is swept: one day.
pub const RETENTION_SECS: i64 = 86400;

/// How often the retention sweep runs: every twelve hours.
pub const SWEEP_PERIOD_SECS: u64 = 43200;

/// Exec form of [`claimable`].
fn is_claimable(e: &QueueEntry, now: i64) -> (r: bool)
    ensures
        r == claimable(*e, now),
{
    match e.status {
        EntryStatus::Pending => e.run_at <= now,
        EntryStatus::Leased => match e.lease_expires_at {
            Some(t) => t <= now,
            None => false,
        },
        _ => false,
    }
}

/// Exec form of [`expired`].
fn is_expired(e: &QueueEntry, now: i64, retention: i64) -> (r: bool)
    ensures
        r == expired(*e, now, retention),
{
    match e.status {
        EntryStatus::Done => match e.done_at {
            Some(t) => (t as i128) + (retention as i128) < now as i128,
            None => false,
        },
        _ => false,
    }
}

/// Entry ids that increase strictly along the sequence are distinct.
proof fn lemma_only_index_with_id(s: Seq<QueueEntry>, i: int)
    requires
        0 <= i < s.len(),
        forall|a: int, b: int| 0 <= a < b < s.len() ==> #[trigger] s[a].id < #[trigger] s[b].id,
    ensures
        forall|k: int| 0 <= k < s.len() && k != i ==> #[trigger] s[k].id != s[i].id,
{
    assert forall|k: int| 0 <= k < s.len() && k != i implies #[trigger] s[k].id != s[i].id by {
        if k < i {
            assert(s[k].id < s[i].id);
        } else {
            assert(s[i].id < s[k].id);
        }
    }
}

impl JobQueue {
    /// Index of the entry with id `id`, if there is one.
    fn position(&self, id: u64) -> (r: Option<usize>)
        ensures
            match r {
                Some(i) => i < self.entries@.len() && self.entries@[i as int].id == id,
                None => !has_id(self.entries@, id),
            },
    {
        let mut i: usize = 0;
        while i < self.entries.len()
            invariant
                i <= self.entries@.len(),
                forall|k: int| 0 <= k < i ==> #[trigger] self.entries@[k].id != id,
            decreases self.entries@.len() - i,
        {
            if self.entries[i].id == id {
                return Some(i);
            }
            i = i + 1;
        }
        None
    }

    /// The queue's entries and the next id it hands out, to be stored.
    pub fn snapshot(&self) -> (r: (Vec<QueueEntry>, u64))
        ensures
            r.0@ == self.entries(),
            r.1 == self.created(),
    {
        let mut out: Vec<QueueEntry> = Vec::new();
        let mut i: usize = 0;
        while i < self.entries.len()
            invariant
                i <= self.entries@.len(),
                out@ == self.entries@.take(i as int),
            decreases self.entries@.len() - i,
        {
            out.push(self.entries[i]);
            i = i + 1;
            assert(out@ =~= self.entries@.take(i as int));
        }
        assert(self.entries@.take(i as int) =~= self.entries@);
        (out, self.next_id)
    }

    /// A queue holding `entries`, handing out ids from `next_id` on, as a stored
    /// [`snapshot`](JobQueue::snapshot) gives them back; `None` when they do not make a
    /// well-formed queue.
    pub fn restore(entries: Vec<QueueEntry>, next_id: u64) -> (r: Option<JobQueue>)
        ensures
            r is Some <==> restorable(entries@, next_id),
            r matches Some(q) ==> q.wf() && q.entries() == entries@ && q.created() == next_id,
    {
        let mut i: usize = 0;
        while i < entries.len()
            invariant
                i <= entries@.len(),
                forall|a: int, b: int|
                    0 <= a < b < i ==> #[trigger] entries@[a].id < #[trigger] entries@[b].id,
                forall|a: int| 0 <= a < i ==> #[trigger] entries@[a].id < next_id,
                forall|a: int| 0 <= a < i ==> entry_wf(#[trigger] entries@[a]),
            decreases entries@.len() - i,
        {
            let e = entries[i];
            if !entry_ok(&e) || e.id >= next_id {
                return None;
            }
            if i > 0 && entries[i - 1].id >= e.id {
                assert(!(entries@[i - 1].id < entries@[i as int].id));
                return None;
            }
            assert forall|a: int, b: int|
                0 <= a < b < i + 1 implies #[trigger] entries@[a].id < #[trigger] entries@[b].id by {
                if b == i && a < i - 1 {
                    assert(entries@[a].id < entries@[i - 1].id);
                }
            }
            i = i + 1;
        }
        Some(JobQueue { entries, next_id })
    }

    /// Whether every id has been handed out, so that nothing more can be enqueued.
    pub fn is_full(&self) -> (r: bool)
        ensures
            r == (self.created() == u64::MAX),
            self.created() <= u64::MAX,
    {
        self.next_id == u64::MAX
    }

    /// Number of entries held.
    pub fn len(&self) -> (r: usize)
        ensures
            r == self.entries().len(),
    {
        self.entries.len()
    }

    /// The entry with id `id`, if the queue holds one.
    pub fn get(&self, id: u64) -> (r: Option<QueueEntry>)
        ensures
            r is None <==> !has_id(self.entries(), id),
            r matches Some(e) ==> e.id == id && self.entries().contains(e),
    {
        match self.position(id) {
            Some(i) => Some(self.entries[i]),
            None => None,
        }
    }

    /// Stores a new pending entry for `task_id`, due at `run_at`, and returns its id.
    /// Returns `None` only when the id space is used up.
    pub fn enqueue(&mut self, task_id: i32, run_at: i64) -> (r: Option<u64>)
        requires
            old(self).wf(),
        ensures
            final(self).wf(),
            r is None <==> old(self).created() == u64::MAX,
            r is None ==> final(self).entries() == old(self).entries() && final(self).created()
                == old(self).created(),
            r matches Some(id) ==> {
                &&& id == old(self).created()
                &&& final(self).created() == old(self).created() + 1
                &&& final(self).entries() == old(self).entries().push(
                    pending_entry(id, task_id, run_at),
                )
            },
    {
        if self.next_id == u64::MAX {
            return None;
        }
        let id = self.next_id;
        let e = QueueEntry {
            id,
            task_id,
            status: EntryStatus::Pending,
            attempts: 0,
            max_attempts: MAX_ATTEMPTS,
            run_at,
            lease_owner: None,
            lease_expires_at: None,
            done_at: None,
        };
        self.entries.push(e);
        self.next_id = id + 1;
        Some(id)
    }

    /// Leases the first claimable entry to `worker` for `lease_secs` seconds.
    /// Returns the leased entry, or `None` when nothing is claimable at `now`.
    pub fn claim_ready(&mut self, now: i64, worker: u64, lease_secs: u32) -> (r: Option<QueueEntry>)
        requires
            old(self).wf(),
        ensures
            final(self).wf(),
            final(self).created() == old(self).created(),
            r is None <==> forall|i: int|
                0 <= i < old(self).entries().len() ==> !claimable(
                    #[trigger] old(self).entries()[i],
                    now,
                ),
            r is None ==> final(self).entries() == old(self).entries(),
            r matches Some(e) ==> exists|i: int|
                {
                    &&& 0 <= i < old(self).entries().len()
                    &&& claimable(old(self).entries()[i], now)
                    &&& forall|j: int|
                        0 <= j < i ==> !claimable(#[trigger] old(self).entries()[j], now)
                    &&& e == leased(old(self).entries()[i], worker, now, lease_secs)
                    &&& final(self).entries() == old(self).entries().update(i, e)
                },
            r matches Some(e) ==> final(self).entries() == claim_in(
                old(self).entries(),
                e.id,
                worker,
                now,
                lease_secs,
            ),
    {
        let mut i: usize = 0;
        while i < self.entries.len()
            invariant
                self.entries@ == old(self).entries@,
                self.next_id == old(self).next_id,
                self.wf(),
                i <= self.entries@.len(),
                forall|j: int| 0 <= j < i ==> !claimable(#[trigger] self.entries@[j], now),
            decreases self.entries@.len() - i,
        {
            let e = self.entries[i];
            if is_claimable(&e, now) {
                let deadline: i64 = match now.checked_add(lease_secs as i64) {
                    Some(t) => t,
                    None => i64::MAX,
                };
                let taken = QueueEntry {
                    status: EntryStatus::Leased,
                    max_attempts: MAX_ATTEMPTS,
                    lease_owner: Some(worker),
                    lease_expires_at: Some(deadline),
                    ..e
                };
                self.entries.set(i, taken);
                assert(claimable(old(self).entries()[i as int], now));
                proof {
                    lemma_only_index_with_id(old(self).entries@, i as int);
                }
                assert(self.entries@ =~= claim_in(
                    old(self).entries@,
                    taken.id,
                    worker,
                    now,
                    lease_secs,
                ));
                assert(taken == leased(old(self).entries()[i as int], worker, now, lease_secs));
                assert(forall|k: int|
                    0 <= k < self.entries@.len() && k != i ==> self.entries@[k] == old(self).entries@[k]);
                return Some(taken);
            }
            i = i + 1;
        }
        None
    }

    /// Marks the leased entry `id` as done at `now`. Returns whether such an entry was found;
    /// otherwise nothing changes.
    pub fn complete(&mut self, id: u64, now: i64) -> (r: bool)
        requires
            old(self).wf(),
        ensures
            final(self).wf(),
            final(self).created() == old(self).created(),
            r == has_leased(old(self).entries(), id),
            final(self).entries() == complete_in(old(self).entries(), id, now),
    {
        let ghost s = self.entries@;
        match self.position(id) {
            Some(i) => {
                let e = self.entries[i];
                if e.status == EntryStatus::Leased {
                    let done = QueueEntry {
                        status: EntryStatus::Done,
                        lease_owner: None,
                        lease_expires_at: None,
                        done_at: Some(now),
                        ..e
                    };
                    self.entries.set(i, done);
                    proof {
                        lemma_only_index_with_id(s, i as int);
                    }
                    assert(self.entries@ =~= complete_in(s, id, now));
                    true
                } else {
                    proof {
                        lemma_only_index_with_id(s, i as int);
                    }
                    assert(s =~= complete_in(s, id, now));
                    false
                }
            },
            None => {
                assert(s =~= complete_in(s, id, now));
                false
            },
        }
    }

    /// Records a failed dispatch of the leased entry `id`: one more attempt, then back to
    /// pending, or failed once the ceiling is reached. Returns the entry's new status, or
    /// `None` (and changes nothing) when no leased entry has that id.
    pub fn fail(&mut self, id: u64) -> (r: Option<EntryStatus>)
        requires
            old(self).wf(),
        ensures
            final(self).wf(),
            final(self).created() == old(self).created(),
            r is Some <==> has_leased(old(self).entries(), id),
            forall|i: int|
                0 <= i < old(self).entries().len() && #[trigger] old(self).entries()[i].id == id
                    && old(self).entries()[i].status == EntryStatus::Leased ==> r == Some(
                    after_failure(old(self).entries()[i]).status,
                ),
            final(self).entries() == fail_in(old(self).entries(), id),
    {
        let ghost s = self.entries@;
        match self.position(id) {
            Some(i) => {
                let e = self.entries[i];
                proof {
                    lemma_only_index_with_id(s, i as int);
                }
                if e.status == EntryStatus::Leased {
                    let attempts = e.attempts + 1;
                    let status = if attempts >= e.max_attempts {
                        EntryStatus::Failed
                    } else {
                        EntryStatus::Pending
                    };
                    let retried = QueueEntry {
                        status,
                        attempts,
                        lease_owner: None,
                        lease_expires_at: None,
                        ..e
                    };
                    self.entries.set(i, retried);
                    assert(self.entries@ =~= fail_in(s, id));
                    Some(status)
                } else {
                    assert(s =~= fail_in(s, id));
                    None
                }
            },
            None => {
                assert(s =~= fail_in(s, id));
                None
            },
        }
    }

    /// Removes the entry `id`, if there is one, keeping the others in order. Returns whether
    /// it was there; deleting a missing entry is not an error and changes nothing.
    pub fn delete(&mut self, id: u64) -> (r: bool)
        requires
            old(self).wf(),
        ensures
            final(self).wf(),
            final(self).created() == old(self).created(),
            r == has_id(old(self).entries(), id),
            final(self).entries() == delete_in(old(self).entries(), id),
    {
        let ghost orig = self.entries@;
        let mut kept: Vec<QueueEntry> = Vec::new();
        let mut found = false;
        let mut i: usize = 0;
        while i < self.entries.len()
            invariant
                self.entries@ == orig,
                self.wf(),
                i <= orig.len(),
                kept@ == orig.take(i as int).filter(other_than(id)),
                found == has_id(orig.take(i as int), id),
                forall|a: int, b: int|
                    0 <= a < b < kept@.len() ==> #[trigger] kept@[a].id < #[trigger] kept@[b].id,
                forall|k: int| 0 <= k < kept@.len() ==> #[trigger] kept@[k].id < self.next_id,
                forall|k: int| 0 <= k < kept@.len() ==> entry_wf(#[trigger] kept@[k]),
                forall|k: int, j: int|
                    0 <= k < kept@.len() && i <= j < orig.len() ==> #[trigger] kept@[k].id
                        < #[trigger] orig[j].id,
            decreases orig.len() - i,
        {
            let e = self.entries[i];
            proof {
                lemma_filter_take_step(orig, i as int, other_than(id));
                assert(e == orig[i as int]);
                assert(other_than(id)(e) == (e.id != id));
                assert(orig.take(i + 1)[i as int] == e);
                if has_id(orig.take(i + 1), id) {
                    let w = choose|w: int| 0 <= w < orig.take(i + 1).len() && #[trigger] orig.take(
                        i + 1,
                    )[w].id == id;
                    if w < i {
                        assert(orig.take(i as int)[w].id == id);
                    }
                }
                if has_id(orig.take(i as int), id) {
                    let w = choose|w: int| 0 <= w < orig.take(i as int).len() && #[trigger] orig.take(
                        i as int,
                    )[w].id == id;
                    assert(orig.take(i + 1)[w].id == id);
                }
            }
            if e.id != id {
                kept.push(e);
            } else {
                found = true;
            }
            i = i + 1;
        }
        assert(orig.take(orig.len() as int) =~= orig);
        self.entries = kept;
        found
    }

    /// Removes every entry that is done and was completed more than [`RETENTION_SECS`]
    /// before `now`, keeping the others in order. Returns how many were removed.
    pub fn sweep(&mut self, now: i64) -> (r: usize)
        requires
            old(self).wf(),
        ensures
            final(self).wf(),
            final(self).created() == old(self).created(),
            final(self).entries() == old(self).entries().filter(retained(now)),
            r == old(self).entries().len() - final(self).entries().len(),
    {
        let ghost orig = self.entries@;
        let mut kept: Vec<QueueEntry> = Vec::new();
        let mut i: usize = 0;
        while i < self.entries.len()
            invariant
                self.entries@ == orig,
                self.wf(),
                i <= orig.len(),
                kept@ == orig.take(i as int).filter(retained(now)),
                kept@.len() <= i,
                forall|a: int, b: int|
                    0 <= a < b < kept@.len() ==> #[trigger] kept@[a].id < #[trigger] kept@[b].id,
                forall|k: int| 0 <= k < kept@.len() ==> #[trigger] kept@[k].id < self.next_id,
                forall|k: int| 0 <= k < kept@.len() ==> entry_wf(#[trigger] kept@[k]),
                forall|k: int, j: int|
                    0 <= k < kept@.len() && i <= j < orig.len() ==> #[trigger] kept@[k].id
                        < #[trigger] orig[j].id,
            decreases orig.len() - i,
        {
            let e = self.entries[i];
            proof {
                lemma_filter_take_step(orig, i as int, retained(now));
                assert(e == orig[i as int]);
                assert(retained(now)(e) == !expired(e, now, RETENTION_SECS));
            }
            if !is_expired(&e, now, RETENTION_SECS) {
                kept.push(e);
            }
            i = i + 1;
        }
        assert(orig.take(orig.len() as int) =~= orig);
        let removed = self.entries.len() - kept.len();
        self.entries = kept;
        removed
    }
}


/// One failed run: `e` is leased to `worker` at `now` and its dispatch fails.
pub open spec fn failed_run(e: QueueEntry, worker: u64, now: i64, secs: u32) -> QueueEntry {
    after_failure(leased(e, worker, now, secs))
}

/// `e` after `n` consecutive failed runs, the `k`-th leased to `workers[k]` at `times[k]`.
pub open spec fn failed_runs(
    e: QueueEntry,
    workers: Seq<u64>,
    times: Seq<i64>,
    secs: u32,
    n: nat,
) -> QueueEntry
    decreases n,
{
    if n == 0 {
        e
    } else {
        failed_run(
            failed_runs(e, workers, times, secs, (n - 1) as nat),
            workers[n - 1],
            times[n - 1],
            secs,
        )
    }
}

proof fn lemma_failed_runs_count(
    e: QueueEntry,
    workers: Seq<u64>,
    times: Seq<i64>,
    secs: u32,
    n: nat,
)
    requires
        e == pending_entry(e.id, e.task_id, e.run_at),
        n <= MAX_ATTEMPTS,
    ensures
        failed_runs(e, workers, times, secs, n).attempts == n,
        failed_runs(e, workers, times, secs, n).max_attempts == MAX_ATTEMPTS,
        failed_runs(e, workers, times, secs, n).status == (if n < MAX_ATTEMPTS {
            EntryStatus::Pending
        } else {
            EntryStatus::Failed
        }),
    decreases n,
{
    if n > 0 {
        lemma_failed_runs_count(e, workers, times, secs, (n - 1) as nat);
    }
}

/// A new entry whose dispatch fails ten consecutive times is pending for a retry after
/// each of the first nine failures and failed after the tenth, and is then never
/// claimable, whatever the time.
pub proof fn lemma_tenth_failure_is_final(
    e: QueueEntry,
    workers: Seq<u64>,
    times: Seq<i64>,
    secs: u32,
)
    requires
        e == pending_entry(e.id, e.task_id, e.run_at),
    ensures
        forall|n: nat|
            n < MAX_ATTEMPTS ==> (#[trigger] failed_runs(e, workers, times, secs, n)).status
                == EntryStatus::Pending,
        failed_runs(e, workers, times, secs, MAX_ATTEMPTS as nat).status == EntryStatus::Failed,
        forall|now: i64|
            !claimable(#[trigger] failed_runs(e, workers, times, secs, MAX_ATTEMPTS as nat), now),
{
    assert forall|n: nat| n < MAX_ATTEMPTS implies (#[trigger] failed_runs(
        e,
        workers,
        times,
        secs,
        n,
    )).status == EntryStatus::Pending by {
        lemma_failed_runs_count(e, workers, times, secs, n);
    }
    lemma_failed_runs_count(e, workers, times, secs, MAX_ATTEMPTS as nat);
}

/// A failed entry stays as it is: it is never claimable, a claim, completion or failure
/// report leaves it untouched, and the sweep keeps it.
pub proof fn lemma_failed_entry_is_final(
    s: Seq<QueueEntry>,
    i: int,
    id: u64,
    worker: u64,
    now: i64,
    secs: u32,
)
    requires
        0 <= i < s.len(),
        s[i].status == EntryStatus::Failed,
    ensures
        !claimable(s[i], now),
        claim_in(s, id, worker, now, secs)[i] == s[i],
        complete_in(s, id, now)[i] == s[i],
        fail_in(s, id)[i] == s[i],
        retained(now)(s[i]),
{
}

/// The sweep removes only done entries completed more than the retention window ago:
/// whatever their age, pending, leased and failed entries stay, and so does every other
/// entry that has not expired; nothing else appears.
pub proof fn lemma_sweep_removes_only_expired(s: Seq<QueueEntry>, now: i64)
    ensures
        forall|i: int|
            0 <= i < s.len() && s[i].status != EntryStatus::Done ==> s.filter(
                retained(now),
            ).contains(#[trigger] s[i]),
        forall|i: int|
            0 <= i < s.len() && !expired(#[trigger] s[i], now, RETENTION_SECS) ==> s.filter(
                retained(now),
            ).contains(s[i]),
        forall|e: QueueEntry|
            #[trigger] s.filter(retained(now)).contains(e) ==> s.contains(e) && !expired(
                e,
                now,
                RETENTION_SECS,
            ),
{
    assert forall|i: int|
        0 <= i < s.len() && !expired(#[trigger] s[i], now, RETENTION_SECS) implies s.filter(
        retained(now),
    ).contains(s[i]) by {
        s.lemma_filter_contains(retained(now), i);
    }
    assert forall|e: QueueEntry| #[trigger] s.filter(retained(now)).contains(e) implies s.contains(
        e,
    ) && !expired(e, now, RETENTION_SECS) by {
        s.lemma_filter_contains_rev(retained(now), e);
        let k = choose|k: int|
            0 <= k < s.filter(retained(now)).len() && s.filter(retained(now))[k] == e;
        s.lemma_filter_pred(retained(now), k);
    }
}

} // verus!
