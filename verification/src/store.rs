//! The task store: one entry per known `file_id`.
//!
//! The `task` field of an entry is the durable record: the
//! host mirrors every change of it to the durable key-value store, and a
//! restart rebuilds a store from those records (`service::UploadManager::recover`).
//! The remaining fields are process-lifetime runtime: the event stream that
//! subscribers read, and the retry budget of the chunk in flight.
//!
//! A deleted task stays as a tombstone with status `Deleted`, empty offsets
//! and an ended event stream; deletion is thereby idempotent, and a later
//! `create_upload` for the same key starts a fresh lifecycle in place.
//!
//! Of the durable store's four operations, the reads — `get` and
//! `list_pending` — stand here.  The writes keyed by `file_id` go through
//! `service::UploadManager` (`create_upload` admits and re-enqueues,
//! `delete_object` deletes), because each write also settles the entry's
//! runtime.

use vstd::prelude::*;
use crate::config::Config;
use crate::task::{
    clone_task, task_like, spec_uploaded_bytes, TaskStatus, UploadState, UploadTask,
};

verus! {

/// One known task: the durable record plus its process-lifetime runtime.
pub struct TaskEntry {
    /// The durable task record.
    pub task: UploadTask,
    /// Events subscribers read, oldest at the start.
    pub events: Vec<UploadState>,
    /// Attempts left for the chunk currently in flight.
    pub attempts_left: u32,
    /// Whether the source file was validated since the worker took the task.
    pub opened: bool,
}

/// Bytes reported by a progress event (zero for non-progress events).
pub open spec fn ev_bytes(e: UploadState) -> int {
    match e {
        UploadState::Uploading { uploaded_bytes, .. } => uploaded_bytes as int,
        _ => 0,
    }
}

/// Total bytes reported by a progress event (zero for non-progress events).
pub open spec fn ev_total(e: UploadState) -> int {
    match e {
        UploadState::Uploading { total_bytes, .. } => total_bytes as int,
        _ => 0,
    }
}

/// The event stream of a task: progress values never exceed the bytes
/// committed so far, and never decrease along the stream.
pub open spec fn events_wf(events: Seq<UploadState>, cur_bytes: int, total: int) -> bool {
    &&& forall|i: int|
        0 <= i < events.len() && events[i] is Uploading ==> ev_bytes(#[trigger] events[i])
            <= cur_bytes && ev_total(events[i]) == total
    &&& forall|i: int, j: int|
        0 <= i <= j < events.len() && events[i] is Uploading && events[j] is Uploading ==> ev_bytes(
            #[trigger] events[i],
        ) <= ev_bytes(#[trigger] events[j])
}

/// Well-formedness of one entry under configuration `cfg`.
pub open spec fn entry_wf(e: TaskEntry, cfg: Config) -> bool {
    &&& e.task.wf(cfg)
    &&& e.attempts_left <= cfg.max_attempts
    &&& e.task.status is Uploading ==> e.attempts_left >= 1
    &&& e.opened ==> e.task.status is Uploading
    &&& events_wf(e.events@, e.task.spec_progress(cfg), e.task.total_size as int)
    &&& e.task.status is Deleted ==> e.events@.len() == 0 && e.task.committed() == 0
}

/// No two entries share a `file_id`.
pub open spec fn unique_ids(s: Seq<TaskEntry>) -> bool {
    forall|i: int, j: int|
        0 <= i < j < s.len() ==> (#[trigger] s[i]).task.file_id != (#[trigger] s[j]).task.file_id
}

/// Index of the first entry with `file_id == fid` at or after `i`, or `-1`.
pub open spec fn find_from(s: Seq<TaskEntry>, fid: u64, i: int) -> int
    decreases s.len() - i,
{
    if i < 0 || i >= s.len() {
        -1
    } else if s[i].task.file_id == fid {
        i
    } else {
        find_from(s, fid, i + 1)
    }
}

/// Index of the entry with `file_id == fid`, or `-1` when none exists.
pub open spec fn find_idx(s: Seq<TaskEntry>, fid: u64) -> int {
    find_from(s, fid, 0)
}

/// `find_from` finds the first match, and `-1` means no match.
pub proof fn lemma_find_from(s: Seq<TaskEntry>, fid: u64, i: int)
    requires
        0 <= i <= s.len(),
    ensures
        find_from(s, fid, i) == -1 ==> forall|j: int|
            i <= j < s.len() ==> (#[trigger] s[j]).task.file_id != fid,
        find_from(s, fid, i) != -1 ==> i <= find_from(s, fid, i) < s.len() && s[find_from(
            s,
            fid,
            i,
        )].task.file_id == fid && forall|j: int|
            i <= j < find_from(s, fid, i) ==> (#[trigger] s[j]).task.file_id != fid,
    decreases s.len() - i,
{
    if i < s.len() && s[i].task.file_id != fid {
        lemma_find_from(s, fid, i + 1);
    }
}

/// Weight of one entry in the count of active transfers.
pub open spec fn upload_weight(e: TaskEntry) -> int {
    if e.task.status is Uploading {
        1
    } else {
        0
    }
}

/// How many entries are currently `Uploading`: the number of busy workers.
pub open spec fn count_uploading(s: Seq<TaskEntry>) -> int
    decreases s.len(),
{
    if s.len() == 0 {
        0
    } else {
        count_uploading(s.drop_last()) + upload_weight(s.last())
    }
}

/// The count of active transfers lies between zero and the entry count.
pub proof fn lemma_count_bounds(s: Seq<TaskEntry>)
    ensures
        0 <= count_uploading(s) <= s.len(),
    decreases s.len(),
{
    if s.len() > 0 {
        lemma_count_bounds(s.drop_last());
    }
}

/// Replacing one entry changes the count by the difference of the weights.
pub proof fn lemma_count_update(s: Seq<TaskEntry>, i: int, e: TaskEntry)
    requires
        0 <= i < s.len(),
    ensures
        count_uploading(s.update(i, e)) == count_uploading(s) - upload_weight(s[i])
            + upload_weight(e),
    decreases s.len(),
{
    let t = s.update(i, e);
    if i == s.len() - 1 {
        assert(t.drop_last() =~= s.drop_last());
    } else {
        assert(t.drop_last() =~= s.drop_last().update(i, e));
        lemma_count_update(s.drop_last(), i, e);
    }
}

/// Appending an entry adds its weight to the count.
pub proof fn lemma_count_push(s: Seq<TaskEntry>, e: TaskEntry)
    ensures
        count_uploading(s.push(e)) == count_uploading(s) + upload_weight(e),
{
    assert(s.push(e).drop_last() =~= s);
}

/// With no entry `Uploading`, the count of active transfers is zero.
pub proof fn lemma_count_zero(s: Seq<TaskEntry>)
    requires
        forall|i: int| 0 <= i < s.len() ==> !((#[trigger] s[i]).task.status is Uploading),
    ensures
        count_uploading(s) == 0,
    decreases s.len(),
{
    if s.len() > 0 {
        lemma_count_zero(s.drop_last());
    }
}

/// An entry that is `Uploading` keeps the count of active transfers
/// positive.
pub proof fn lemma_count_at_least(s: Seq<TaskEntry>, i: int)
    requires
        0 <= i < s.len(),
        s[i].task.status is Uploading,
    ensures
        count_uploading(s) >= 1,
    decreases s.len(),
{
    lemma_count_bounds(s.drop_last());
    if i < s.len() - 1 {
        lemma_count_at_least(s.drop_last(), i);
    }
}

/// Counting a prefix, one entry at a time.
pub proof fn lemma_count_take_step(s: Seq<TaskEntry>, i: int)
    requires
        0 <= i < s.len(),
    ensures
        count_uploading(s.take(i + 1)) == count_uploading(s.take(i)) + upload_weight(s[i]),
{
    assert(s.take(i + 1).drop_last() =~= s.take(i));
}

/// The whole sequence is its own prefix.
pub proof fn lemma_count_take_all(s: Seq<TaskEntry>)
    ensures
        count_uploading(s.take(s.len() as int)) == count_uploading(s),
{
    assert(s.take(s.len() as int) =~= s);
}

/// The task records of the non-terminal entries, in store order.
pub open spec fn pending_view(s: Seq<TaskEntry>) -> Seq<UploadTask>
    decreases s.len(),
{
    if s.len() == 0 {
        Seq::empty()
    } else {
        pending_view(s.drop_last()) + (if s.last().task.status.is_terminal() {
            Seq::empty()
        } else {
            seq![s.last().task]
        })
    }
}

/// Growing a prefix by one entry grows its pending view by that entry's
/// record exactly when the entry is non-terminal.
pub proof fn lemma_pending_view_take_step(s: Seq<TaskEntry>, i: int)
    requires
        0 <= i < s.len(),
    ensures
        pending_view(s.take(i + 1)) == pending_view(s.take(i)) + (if s[i].task.status.is_terminal() {
            Seq::<UploadTask>::empty()
        } else {
            seq![s[i].task]
        }),
{
    assert(s.take(i + 1).drop_last() =~= s.take(i));
}

/// The whole sequence is its own prefix.
pub proof fn lemma_pending_view_take_all(s: Seq<TaskEntry>)
    ensures
        pending_view(s.take(s.len() as int)) == pending_view(s),
{
    assert(s.take(s.len() as int) =~= s);
}

/// The in-memory task store.  The host mirrors the `task` records to the
/// durable key-value store; a write there is acknowledged before the caller
/// of the mutating operation proceeds.
pub struct TaskStore {
    pub entries: Vec<TaskEntry>,
}

impl TaskStore {
    /// Every entry is well-formed and no `file_id` occurs twice.
    pub open spec fn wf(self, cfg: Config) -> bool {
        &&& unique_ids(self.entries@)
        &&& forall|i: int| 0 <= i < self.entries@.len() ==> entry_wf(#[trigger] self.entries@[i], cfg)
    }

    /// An empty store.
    pub fn new() -> (r: TaskStore)
        ensures
            r.entries@.len() == 0,
            forall|cfg: Config| r.wf(cfg),
    {
        TaskStore { entries: Vec::new() }
    }

    /// Index of the entry for `fid`, or `None` when `fid` is unknown.
    pub fn find(&self, fid: u64) -> (r: Option<usize>)
        ensures
            r is Some <==> find_idx(self.entries@, fid) >= 0,
            r matches Some(i) ==> i == find_idx(self.entries@, fid) && i < self.entries@.len()
                && self.entries@[i as int].task.file_id == fid,
    {
        proof {
            lemma_find_from(self.entries@, fid, 0);
        }
        let n = self.entries.len();
        let mut i: usize = 0;
        while i < n
            invariant
                n == self.entries@.len(),
                0 <= i <= n,
                forall|j: int| 0 <= j < i ==> (#[trigger] self.entries@[j]).task.file_id != fid,
            decreases n - i,
        {
            if self.entries[i].task.file_id == fid {
                proof {
                    lemma_find_from(self.entries@, fid, 0);
                    if find_idx(self.entries@, fid) == -1 {
                        assert(false);
                    }
                }
                return Some(i);
            }
            i += 1;
        }
        proof {
            lemma_find_from(self.entries@, fid, 0);
            if find_idx(self.entries@, fid) >= 0 {
                assert(false);
            }
        }
        None
    }

    /// Looks a task record up by its `file_id`.
    pub fn get(&self, fid: u64) -> (r: Option<&UploadTask>)
        ensures
            r is Some <==> find_idx(self.entries@, fid) >= 0,
            r matches Some(t) ==> *t == self.entries@[find_idx(self.entries@, fid)].task,
    {
        match self.find(fid) {
            Some(i) => Some(&self.entries[i].task),
            None => None,
        }
    }

    /// Copies of all task records that are neither `Finished` nor `Deleted`:
    /// the tasks a restart must resume, and the diagnostic listing.
    pub fn list_pending(&self) -> (r: Vec<UploadTask>)
        ensures
            r@.len() == pending_view(self.entries@).len(),
            forall|j: int|
                0 <= j < r@.len() ==> task_like(pending_view(self.entries@)[j], #[trigger] r@[j]),
    {
        let n = self.entries.len();
        let mut out: Vec<UploadTask> = Vec::new();
        let mut i: usize = 0;
        while i < n
            invariant
                n == self.entries@.len(),
                0 <= i <= n,
                out@.len() == pending_view(self.entries@.take(i as int)).len(),
                forall|j: int|
                    0 <= j < out@.len() ==> task_like(
                        pending_view(self.entries@.take(i as int))[j],
                        #[trigger] out@[j],
                    ),
            decreases n - i,
        {
            proof {
                lemma_pending_view_take_step(self.entries@, i as int);
            }
            let st = self.entries[i].task.status;
            let terminal = match st {
                TaskStatus::Finished => true,
                TaskStatus::Deleted => true,
                _ => false,
            };
            if !terminal {
                out.push(clone_task(&self.entries[i].task));
            }
            i += 1;
        }
        proof {
            lemma_pending_view_take_all(self.entries@);
        }
        out
    }
}

} // verus!
