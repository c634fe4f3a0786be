//! The upload service: admission, scheduling, chunk bookkeeping, the
//! reachability gate and the subscriber streams, as one state machine.
//!
//! The manager decides; the host acts.  Each mutating call either answers a
//! caller (`create_upload`, `delete_object`) or digests the outcome of one
//! outside action (`on_source_validated`, `on_chunk_result`,
//! `on_finalize_result`) and hands the host the next [`Action`] to perform.
//! The host owns the file reads, the transport calls, the backoff sleeps
//! and the durable mirror of the task records.

use vstd::prelude::*;
use crate::config::Config;
use crate::store::{
    count_uploading, entry_wf, events_wf, ev_bytes, ev_total, find_idx, lemma_count_at_least,
    lemma_count_bounds, lemma_count_push, lemma_count_take_all, lemma_count_take_step,
    lemma_count_update, lemma_count_zero, lemma_find_from, pending_view, TaskEntry, TaskStore,
};
use crate::task::{
    chunk_count, chunk_range, clone_task, file_id_of, lemma_chunk_count,
    lemma_uploaded_bytes_monotone, spec_chunk_count, spec_chunk_len, spec_file_id_of,
    spec_uploaded_bytes, task_like, uploaded_bytes, ErrorKind, TaskStatus, UploadState,
    UploadTask,
};

verus! {

/// A reader's position on one task's event stream.
#[derive(Clone, Copy, Debug, PartialEq, Eq, Structural)]
pub struct Subscription {
    pub file_id: u64,
    /// Index of the next event to read.
    pub cursor: usize,
}

/// The next outside action the host must perform for a task.
#[derive(Clone, Copy, Debug, PartialEq, Eq, Structural)]
pub enum Action {
    /// Check that the local file still exists with this exact size.
    ValidateSource { file_id: u64, expected_size: u64 },
    /// Send the byte range `[offset, offset + len)` as chunk `index`.
    /// `attempt` counts earlier failures of this chunk, for backoff.
    SendChunk { file_id: u64, index: u64, offset: u64, len: u64, attempt: u32 },
    /// All chunks are committed: ask the remote store to assemble the object.
    Finalize { file_id: u64, chunk_count: u64 },
    /// Remove the (possibly partial) remote object of a deleted task.
    DeleteRemote { file_id: u64 },
}

/// Where a late subscriber starts reading: at the last event already
/// pushed (last-value replay), or at the start of an empty stream.
pub open spec fn replay_cursor(events: Seq<UploadState>) -> int {
    if events.len() > 0 {
        events.len() - 1
    } else {
        0
    }
}

/// A freshly admitted task record: `Pending`, nothing committed, no remote
/// object yet.
pub open spec fn task_fresh(
    t: UploadTask,
    fid: u64,
    workspace_id: u64,
    parent_dir: u64,
    local_path: String,
    total_size: u64,
    created_at: u64,
) -> bool {
    &&& t.file_id == fid
    &&& t.workspace_id == workspace_id
    &&& t.parent_dir == parent_dir
    &&& t.local_path == local_path
    &&& t.remote_url is None
    &&& t.total_size == total_size
    &&& t.uploaded_chunk_offsets@.len() == 0
    &&& t.status is Pending
    &&& t.created_at == created_at
}

/// A freshly admitted entry: a fresh record with an empty event stream.
pub open spec fn entry_fresh(
    e: TaskEntry,
    fid: u64,
    workspace_id: u64,
    parent_dir: u64,
    local_path: String,
    total_size: u64,
    created_at: u64,
) -> bool {
    &&& task_fresh(e.task, fid, workspace_id, parent_dir, local_path, total_size, created_at)
    &&& e.events@.len() == 0
    &&& e.attempts_left == 0
    &&& !e.opened
}

/// What deleting a task leaves behind: a tombstone keeping the identity
/// fields, with the offsets unrecorded, the stream ended and the remote
/// object gone.
pub open spec fn entry_tombstone(e: TaskEntry, prior: TaskEntry) -> bool {
    &&& e.task.file_id == prior.task.file_id
    &&& e.task.workspace_id == prior.task.workspace_id
    &&& e.task.parent_dir == prior.task.parent_dir
    &&& e.task.local_path == prior.task.local_path
    &&& e.task.remote_url is None
    &&& e.task.total_size == prior.task.total_size
    &&& e.task.uploaded_chunk_offsets@.len() == 0
    &&& e.task.status is Deleted
    &&& e.task.created_at == prior.task.created_at
    &&& e.events@.len() == 0
    &&& !e.opened
}

/// Point-in-time snapshot of a task, as `get_file_state` reports it.
pub open spec fn state_of(e: TaskEntry, cfg: Config) -> Option<UploadState> {
    match e.task.status {
        TaskStatus::Pending => Some(
            UploadState::Uploading {
                uploaded_bytes: e.task.spec_progress(cfg) as u64,
                total_bytes: e.task.total_size,
            },
        ),
        TaskStatus::Uploading => Some(
            UploadState::Uploading {
                uploaded_bytes: e.task.spec_progress(cfg) as u64,
                total_bytes: e.task.total_size,
            },
        ),
        TaskStatus::Paused => Some(UploadState::Paused),
        TaskStatus::Finished => Some(UploadState::Finished),
        TaskStatus::Failed(reason) => Some(UploadState::Failed { reason }),
        TaskStatus::Deleted => None,
    }
}

/// A record as the durable store may hand it back at startup: the offsets
/// are the usual prefix, and a `Finished` or `Deleted` record is complete
/// or clean, as this library wrote it.
pub open spec fn persisted_task_wf(t: UploadTask, cfg: Config) -> bool {
    &&& t.uploaded_chunk_offsets@ == Seq::new(t.uploaded_chunk_offsets@.len(), |i: int| i as u64)
    &&& t.uploaded_chunk_offsets@.len() <= spec_chunk_count(t.total_size as int, cfg.chunk_size as int)
    &&& t.status is Finished ==> t.uploaded_chunk_offsets@.len() == spec_chunk_count(
        t.total_size as int,
        cfg.chunk_size as int,
    ) && t.remote_url == Some(t.file_id) && t.total_size <= cfg.size_limit
    &&& t.status is Deleted ==> t.uploaded_chunk_offsets@.len() == 0
}

/// The status a recovered record restarts in: oversized records are
/// proactively deleted, terminal records stay terminal, everything else is
/// re-enqueued as `Pending`.
pub open spec fn recovered_status(t: UploadTask, cfg: Config) -> TaskStatus {
    if t.status is Finished {
        TaskStatus::Finished
    } else if t.status is Deleted || t.total_size > cfg.size_limit {
        TaskStatus::Deleted
    } else {
        TaskStatus::Pending
    }
}

/// The task-record fields that no transfer step ever touches.
pub open spec fn task_frame(a: UploadTask, b: UploadTask) -> bool {
    &&& a.file_id == b.file_id
    &&& a.workspace_id == b.workspace_id
    &&& a.parent_dir == b.parent_dir
    &&& a.local_path == b.local_path
    &&& a.remote_url == b.remote_url
    &&& a.total_size == b.total_size
    &&& a.created_at == b.created_at
}

/// The next transfer step for an active task: send the first uncommitted
/// chunk, or finalize once every chunk is committed.
pub open spec fn next_action(e: TaskEntry, cfg: Config) -> Action {
    let k = e.task.committed();
    let total = e.task.total_size as int;
    let cs = cfg.chunk_size as int;
    let cc = spec_chunk_count(total, cs);
    if k < cc {
        Action::SendChunk {
            file_id: e.task.file_id,
            index: k as u64,
            offset: (k * cs) as u64,
            len: spec_chunk_len(k, total, cs) as u64,
            attempt: 0,
        }
    } else {
        Action::Finalize { file_id: e.task.file_id, chunk_count: cc as u64 }
    }
}

/// Index of the first `Pending` entry at or after `i`, or `-1`.
pub open spec fn pending_from(s: Seq<TaskEntry>, i: int) -> int
    decreases s.len() - i,
{
    if i < 0 || i >= s.len() {
        -1
    } else if s[i].task.status is Pending {
        i
    } else {
        pending_from(s, i + 1)
    }
}

/// Index of the first `Pending` entry, or `-1` when none is queued.
pub open spec fn first_pending(s: Seq<TaskEntry>) -> int {
    pending_from(s, 0)
}

/// With no `Pending` entry before `k`, the queue's head is at or after `k`.
proof fn lemma_pending_prefix(s: Seq<TaskEntry>, k: int)
    requires
        0 <= k <= s.len(),
        forall|j: int| 0 <= j < k ==> !((#[trigger] s[j]).task.status is Pending),
    ensures
        first_pending(s) == pending_from(s, k),
    decreases k,
{
    if k > 0 {
        lemma_pending_prefix(s, k - 1);
    }
}

/// The upload service facade.
pub struct UploadManager {
    pub cfg: Config,
    /// The process-wide reachability gate: while `false`, no chunk transfer
    /// is dispatched and no task is `Uploading`.
    pub reachable: bool,
    pub store: TaskStore,
}

impl UploadManager {
    /// The manager's invariant: a usable configuration, a well-formed store,
    /// never more active transfers than workers, and none at all while the
    /// network is unreachable.
    pub open spec fn wf(self) -> bool {
        &&& self.cfg.wf()
        &&& self.store.wf(self.cfg)
        &&& count_uploading(self.store.entries@) <= self.cfg.max_concurrent
        &&& !self.reachable ==> count_uploading(self.store.entries@) == 0
    }

    /// Shorthand for the entry sequence.
    pub open spec fn entries(self) -> Seq<TaskEntry> {
        self.store.entries@
    }

    /// Builds the initial service state, with the network assumed on.
    pub fn new(cfg: Config) -> (r: UploadManager)
        requires
            cfg.wf(),
        ensures
            r.wf(),
            r.cfg == cfg,
            r.reachable,
            r.entries().len() == 0,
    {
        let store = TaskStore::new();
        proof {
            lemma_count_zero(store.entries@);
        }
        UploadManager { cfg, reachable: true, store }
    }

    /// Rebuilds a manager from the records the durable store held at
    /// startup.  Every non-terminal record is re-enqueued as `Pending`,
    /// keeping its committed offsets, so no committed byte range is sent
    /// again; an oversized record is deleted instead of attempted.
    pub fn recover(cfg: Config, persisted: Vec<UploadTask>) -> (r: UploadManager)
        requires
            cfg.wf(),
            forall|i: int, j: int|
                0 <= i < j < persisted@.len() ==> (#[trigger] persisted@[i]).file_id != (
                #[trigger] persisted@[j]).file_id,
            forall|i: int|
                0 <= i < persisted@.len() ==> persisted_task_wf(#[trigger] persisted@[i], cfg),
        ensures
            r.wf(),
            r.cfg == cfg,
            r.reachable,
            r.entries().len() == persisted@.len(),
            forall|i: int|
                0 <= i < persisted@.len() ==> {
                    let e = #[trigger] r.entries()[i];
                    let t = persisted@[i];
                    &&& e.task.file_id == t.file_id
                    &&& e.task.workspace_id == t.workspace_id
                    &&& e.task.parent_dir == t.parent_dir
                    &&& e.task.local_path@ == t.local_path@
                    &&& e.task.total_size == t.total_size
                    &&& e.task.created_at == t.created_at
                    &&& e.task.status == recovered_status(t, cfg)
                    &&& (e.task.status is Deleted ==> e.task.uploaded_chunk_offsets@.len() == 0)
                    &&& (!(e.task.status is Deleted) ==> e.task.uploaded_chunk_offsets@
                        == t.uploaded_chunk_offsets@ && e.task.remote_url == t.remote_url)
                    &&& e.events@.len() == 0
                    &&& !e.opened
                },
    {
        let mut entries: Vec<TaskEntry> = Vec::new();
        let n = persisted.len();
        let mut i: usize = 0;
        while i < n
            invariant
                n == persisted@.len(),
                0 <= i <= n,
                cfg.wf(),
                forall|a: int, b: int|
                    0 <= a < b < persisted@.len() ==> (#[trigger] persisted@[a]).file_id != (
                    #[trigger] persisted@[b]).file_id,
                forall|a: int|
                    0 <= a < persisted@.len() ==> persisted_task_wf(#[trigger] persisted@[a], cfg),
                entries@.len() == i,
                forall|a: int|
                    0 <= a < i ==> (#[trigger] entries@[a]).task.file_id == persisted@[a].file_id,
                forall|a: int| 0 <= a < i ==> entry_wf(#[trigger] entries@[a], cfg),
                forall|a: int|
                    0 <= a < i ==> !((#[trigger] entries@[a]).task.status is Uploading),
                forall|a: int|
                    0 <= a < i ==> {
                        let e = #[trigger] entries@[a];
                        let t = persisted@[a];
                        &&& e.task.workspace_id == t.workspace_id
                        &&& e.task.parent_dir == t.parent_dir
                        &&& e.task.local_path@ == t.local_path@
                        &&& e.task.total_size == t.total_size
                        &&& e.task.created_at == t.created_at
                        &&& e.task.status == recovered_status(t, cfg)
                        &&& (e.task.status is Deleted ==> e.task.uploaded_chunk_offsets@.len()
                            == 0)
                        &&& (!(e.task.status is Deleted) ==> e.task.uploaded_chunk_offsets@
                            == t.uploaded_chunk_offsets@ && e.task.remote_url == t.remote_url)
                        &&& e.events@.len() == 0
                        &&& !e.opened
                    },
            decreases n - i,
        {
            let t = clone_task(&persisted[i]);
            let oversized = t.total_size > cfg.size_limit;
            let entry = if oversized || matches!(t.status, TaskStatus::Deleted) {
                let tomb = UploadTask {
                    remote_url: None,
                    uploaded_chunk_offsets: Vec::new(),
                    status: TaskStatus::Deleted,
                    ..t
                };
                proof {
                    assert(tomb.uploaded_chunk_offsets@ =~= Seq::new(0, |k: int| k as u64));
                }
                TaskEntry { task: tomb, events: Vec::new(), attempts_left: 0, opened: false }
            } else {
                let st = if matches!(t.status, TaskStatus::Finished) {
                    TaskStatus::Finished
                } else {
                    TaskStatus::Pending
                };
                let kept = UploadTask { status: st, ..t };
                TaskEntry { task: kept, events: Vec::new(), attempts_left: 0, opened: false }
            };
            entries.push(entry);
            i += 1;
        }
        proof {
            lemma_count_zero(entries@);
        }
        UploadManager { cfg, reachable: true, store: TaskStore { entries } }
    }

    /// Admits an upload request, or returns the task already known under
    /// the same dedup key (idempotent creation).
    ///
    /// The dedup key is a deterministic function of the content hash and
    /// the destination, so a repeated request maps to the same task and no
    /// second remote object is ever created.  A file over the size limit is
    /// rejected and never reaches the scheduler.  `persist_ok` is the
    /// durable store's acknowledgement of the record write; without it the
    /// caller sees `PersistenceError` and the state is rolled back.
    ///
    /// On success the caller gets the task's `file_id` and a subscription,
    /// except that a task already `Finished` gets no subscription.
    pub fn create_upload(
        &mut self,
        workspace_id: u64,
        parent_dir: u64,
        content_hash: u64,
        local_path: String,
        total_size: u64,
        created_at: u64,
        persist_ok: bool,
    ) -> (r: Result<(u64, Option<Subscription>), ErrorKind>)
        requires
            old(self).wf(),
        ensures
            final(self).wf(),
            final(self).cfg == old(self).cfg,
            final(self).reachable == old(self).reachable,
            ({
                let s = old(self).entries();
                let cfg = old(self).cfg;
                let fid = spec_file_id_of(workspace_id, parent_dir, content_hash);
                let i = find_idx(s, fid);
                &&& (r matches Ok(p) ==> p.0 == fid)
                // Size admission: an oversized file is rejected, untouched.
                &&& (total_size > cfg.size_limit ==> r == Err::<(u64, Option<Subscription>),
                    ErrorKind>(ErrorKind::SizeLimitExceeded) && final(self).entries() == s)
                &&& (total_size <= cfg.size_limit ==> {
                    if i < 0 {
                        // Unknown key: a new pending task is appended.
                        if persist_ok {
                            &&& r == Ok::<(u64, Option<Subscription>), ErrorKind>(
                                (fid, Some(Subscription { file_id: fid, cursor: 0 })),
                            )
                            &&& final(self).entries().len() == s.len() + 1
                            &&& final(self).entries().take(s.len() as int) == s
                            &&& entry_fresh(
                                final(self).entries().last(),
                                fid,
                                workspace_id,
                                parent_dir,
                                local_path,
                                total_size,
                                created_at,
                            )
                        } else {
                            r == Err::<(u64, Option<Subscription>), ErrorKind>(
                                ErrorKind::PersistenceError,
                            ) && final(self).entries() == s
                        }
                    } else {
                        let prior = s[i];
                        match prior.task.status {
                            // A tombstone: the key starts a fresh lifecycle.
                            TaskStatus::Deleted => if persist_ok {
                                &&& r == Ok::<(u64, Option<Subscription>), ErrorKind>(
                                    (fid, Some(Subscription { file_id: fid, cursor: 0 })),
                                )
                                &&& final(self).entries().len() == s.len()
                                &&& forall|j: int|
                                    0 <= j < s.len() && j != i ==> final(self).entries()[j] == s[j]
                                &&& entry_fresh(
                                    final(self).entries()[i],
                                    fid,
                                    workspace_id,
                                    parent_dir,
                                    local_path,
                                    total_size,
                                    created_at,
                                )
                            } else {
                                r == Err::<(u64, Option<Subscription>), ErrorKind>(
                                    ErrorKind::PersistenceError,
                                ) && final(self).entries() == s
                            },
                            // A failed task is re-enqueued, keeping its offsets.
                            TaskStatus::Failed(_) => if persist_ok {
                                &&& r == Ok::<(u64, Option<Subscription>), ErrorKind>(
                                    (fid, Some(Subscription {
                                        file_id: fid,
                                        cursor: replay_cursor(prior.events@) as usize,
                                    })),
                                )
                                &&& final(self).entries().len() == s.len()
                                &&& forall|j: int|
                                    0 <= j < s.len() && j != i ==> final(self).entries()[j] == s[j]
                                &&& final(self).entries()[i].task == (UploadTask {
                                    status: TaskStatus::Pending,
                                    ..prior.task
                                })
                                &&& final(self).entries()[i].events == prior.events
                                &&& final(self).entries()[i].attempts_left == prior.attempts_left
                                &&& final(self).entries()[i].opened == prior.opened
                            } else {
                                r == Err::<(u64, Option<Subscription>), ErrorKind>(
                                    ErrorKind::PersistenceError,
                                ) && final(self).entries() == s
                            },
                            // Already finished: idempotent return, no new stream.
                            TaskStatus::Finished => r == Ok::<(u64, Option<Subscription>),
                                ErrorKind>((fid, None)) && final(self).entries() == s,
                            // Still in flight or queued: idempotent return.
                            _ => r == Ok::<(u64, Option<Subscription>), ErrorKind>(
                                (fid, Some(Subscription {
                                    file_id: fid,
                                    cursor: replay_cursor(prior.events@) as usize,
                                })),
                            ) && final(self).entries() == s,
                        }
                    }
                })
            }),
    {
        let fid = file_id_of(workspace_id, parent_dir, content_hash);
        if total_size > self.cfg.size_limit {
            return Err(ErrorKind::SizeLimitExceeded);
        }
        match self.store.find(fid) {
            None => {
                if !persist_ok {
                    return Err(ErrorKind::PersistenceError);
                }
                let task = UploadTask {
                    file_id: fid,
                    workspace_id,
                    parent_dir,
                    local_path,
                    remote_url: None,
                    total_size,
                    uploaded_chunk_offsets: Vec::new(),
                    status: TaskStatus::Pending,
                    created_at,
                };
                let entry = TaskEntry { task, events: Vec::new(), attempts_left: 0, opened: false };
                proof {
                    let s = self.store.entries@;
                    lemma_find_from(s, fid, 0);
                    lemma_count_push(s, entry);
                    lemma_chunk_count(total_size as int, self.cfg.chunk_size as int);
                    assert(entry.task.uploaded_chunk_offsets@ =~= Seq::new(0, |k: int| k as u64));
                    assert(s.push(entry).take(s.len() as int) =~= s);
                }
                self.store.entries.push(entry);
                Ok((fid, Some(Subscription { file_id: fid, cursor: 0 })))
            },
            Some(i) => {
                let status = self.store.entries[i].task.status;
                match status {
                    TaskStatus::Deleted => {
                        if !persist_ok {
                            return Err(ErrorKind::PersistenceError);
                        }
                        let ghost s = self.store.entries@;
                        let task = UploadTask {
                            file_id: fid,
                            workspace_id,
                            parent_dir,
                            local_path,
                            remote_url: None,
                            total_size,
                            uploaded_chunk_offsets: Vec::new(),
                            status: TaskStatus::Pending,
                            created_at,
                        };
                        let entry = TaskEntry {
                            task,
                            events: Vec::new(),
                            attempts_left: 0,
                            opened: false,
                        };
                        proof {
                            lemma_count_update(s, i as int, entry);
                            lemma_chunk_count(total_size as int, self.cfg.chunk_size as int);
                            assert(entry.task.uploaded_chunk_offsets@ =~= Seq::new(
                                0,
                                |k: int| k as u64,
                            ));
                        }
                        self.store.entries[i] = entry;
                        Ok((fid, Some(Subscription { file_id: fid, cursor: 0 })))
                    },
                    TaskStatus::Failed(_) => {
                        if !persist_ok {
                            return Err(ErrorKind::PersistenceError);
                        }
                        let ghost s = self.store.entries@;
                        let cursor = self.subscription_cursor(i);
                        let en = &mut self.store.entries[i];
                        en.task.status = TaskStatus::Pending;
                        proof {
                            lemma_count_update(s, i as int, self.store.entries@[i as int]);
                        }
                        Ok((fid, Some(Subscription { file_id: fid, cursor })))
                    },
                    TaskStatus::Finished => Ok((fid, None)),
                    _ => {
                        let cursor = self.subscription_cursor(i);
                        Ok((fid, Some(Subscription { file_id: fid, cursor })))
                    },
                }
            },
        }
    }

    /// Where a subscriber attaching to entry `i` starts reading.
    fn subscription_cursor(&self, i: usize) -> (r: usize)
        requires
            i < self.entries().len(),
        ensures
            r == replay_cursor(self.entries()[i as int].events@),
    {
        let len = self.store.entries[i].events.len();
        if len > 0 {
            len - 1
        } else {
            0
        }
    }

    /// How many tasks are transferring right now.
    fn count_active(&self) -> (r: usize)
        requires
            self.wf(),
        ensures
            r == count_uploading(self.entries()),
    {
        let n = self.store.entries.len();
        let mut c: usize = 0;
        let mut i: usize = 0;
        proof {
            assert(self.entries().take(0) =~= Seq::<TaskEntry>::empty());
        }
        while i < n
            invariant
                n == self.entries().len(),
                0 <= i <= n,
                c <= i,
                c == count_uploading(self.entries().take(i as int)),
            decreases n - i,
        {
            proof {
                lemma_count_take_step(self.entries(), i as int);
            }
            if matches!(self.store.entries[i].task.status, TaskStatus::Uploading) {
                c += 1;
            }
            i += 1;
        }
        proof {
            lemma_count_take_all(self.entries());
        }
        c
    }

    /// The next transfer step for the active task at entry `i`.
    fn next_transfer_action(&self, i: usize) -> (r: Action)
        requires
            self.wf(),
            i < self.entries().len(),
            self.entries()[i as int].task.status is Uploading,
        ensures
            r == next_action(self.entries()[i as int], self.cfg),
    {
        let task = &self.store.entries[i].task;
        let k = task.uploaded_chunk_offsets.len() as u64;
        let cc = chunk_count(task.total_size, self.cfg.chunk_size);
        if k < cc {
            let (offset, len) = chunk_range(k, task.total_size, self.cfg.chunk_size);
            Action::SendChunk { file_id: task.file_id, index: k, offset, len, attempt: 0 }
        } else {
            Action::Finalize { file_id: task.file_id, chunk_count: cc }
        }
    }

    /// Hands the first queued task to a free worker: it becomes
    /// `Uploading`, its subscribers hear its current progress, and the host
    /// is asked to validate the source file.  Nothing is dispatched while
    /// the network is unreachable, while every worker is busy, or while no
    /// task is queued.
    pub fn dispatch(&mut self) -> (r: Option<Action>)
        requires
            old(self).wf(),
        ensures
            final(self).wf(),
            final(self).cfg == old(self).cfg,
            final(self).reachable == old(self).reachable,
            final(self).entries().len() == old(self).entries().len(),
            forall|j: int|
                0 <= j < old(self).entries().len() && (#[trigger] old(self).entries()[j]).task.status is Deleted ==> final(self).entries()[j].task.status is Deleted,
            !old(self).reachable ==> r is None && final(self).entries() == old(self).entries(),
            ({
                let s = old(self).entries();
                let cfg = old(self).cfg;
                let p = first_pending(s);
                old(self).reachable ==> {
                    if count_uploading(s) >= cfg.max_concurrent {
                        r is None && final(self).entries() == s
                    } else if p < 0 {
                        r is None && final(self).entries() == s
                    } else {
                        let prior = s[p];
                        &&& r == Some(
                            Action::ValidateSource {
                                file_id: prior.task.file_id,
                                expected_size: prior.task.total_size,
                            },
                        )
                        &&& forall|j: int|
                            0 <= j < s.len() && j != p ==> final(self).entries()[j] == s[j]
                        &&& final(self).entries()[p].task == (UploadTask {
                            status: TaskStatus::Uploading,
                            ..prior.task
                        })
                        &&& final(self).entries()[p].events@ == prior.events@.push(
                            UploadState::Uploading {
                                uploaded_bytes: prior.task.spec_progress(cfg) as u64,
                                total_bytes: prior.task.total_size,
                            },
                        )
                        &&& final(self).entries()[p].attempts_left == cfg.max_attempts
                        &&& !final(self).entries()[p].opened
                    }
                }
            }),
    {
        if !self.reachable {
            return None;
        }
        let busy = self.count_active();
        if busy >= self.cfg.max_concurrent {
            return None;
        }
        let n = self.store.entries.len();
        let mut i: usize = 0;
        while i < n
            invariant
                self == old(self),
                self.wf(),
                self.reachable,
                count_uploading(self.entries()) < self.cfg.max_concurrent,
                n == self.entries().len(),
                0 <= i <= n,
                forall|j: int|
                    0 <= j < i ==> !((#[trigger] self.entries()[j]).task.status is Pending),
            decreases n - i,
        {
            if matches!(self.store.entries[i].task.status, TaskStatus::Pending) {
                let ghost s = self.entries();
                let ghost cfg = self.cfg;
                proof {
                    lemma_pending_prefix(s, i as int);
                }
                let fid = self.store.entries[i].task.file_id;
                let total = self.store.entries[i].task.total_size;
                let k = self.store.entries[i].task.uploaded_chunk_offsets.len() as u64;
                let ub = uploaded_bytes(k, total, self.cfg.chunk_size);
                let max_att = self.cfg.max_attempts;
                let en = &mut self.store.entries[i];
                en.task.status = TaskStatus::Uploading;
                en.attempts_left = max_att;
                en.opened = false;
                en.events.push(
                    UploadState::Uploading { uploaded_bytes: ub, total_bytes: total },
                );
                proof {
                    let s2 = self.entries();
                    let prior = s[i as int];
                    let cur = prior.task.spec_progress(cfg);
                    lemma_count_update(s, i as int, s2[i as int]);
                    lemma_uploaded_bytes_monotone(
                        0,
                        prior.task.committed(),
                        prior.task.total_size as int,
                        cfg.chunk_size as int,
                    );
                    lemma_events_push_progress(
                        prior.events@,
                        cur,
                        cur,
                        prior.task.total_size as int,
                    );
                    assert(entry_wf(s2[i as int], cfg));
                }
                return Some(Action::ValidateSource { file_id: fid, expected_size: total });
            }
            i += 1;
        }
        proof {
            lemma_pending_prefix(self.entries(), n as int);
        }
        None
    }

    /// Digests the host's source check for a task that was just
    /// dispatched.  A valid source starts the transfer at the first
    /// uncommitted chunk; a missing or resized file fails the task, with
    /// no retry.  A report for a task no longer being dispatched is
    /// ignored.
    pub fn on_source_validated(&mut self, file_id: u64, ok: bool) -> (r: Option<Action>)
        requires
            old(self).wf(),
        ensures
            final(self).wf(),
            final(self).cfg == old(self).cfg,
            final(self).reachable == old(self).reachable,
            final(self).entries().len() == old(self).entries().len(),
            forall|j: int|
                0 <= j < old(self).entries().len() && (#[trigger] old(self).entries()[j]).task.status is Deleted ==> final(self).entries()[j].task.status is Deleted,
            ({
                let s = old(self).entries();
                let cfg = old(self).cfg;
                let i = find_idx(s, file_id);
                if i < 0 || !(s[i].task.status is Uploading) || s[i].opened {
                    r is None && final(self).entries() == s
                } else {
                    let prior = s[i];
                    if ok {
                        &&& forall|j: int|
                            0 <= j < s.len() && j != i ==> final(self).entries()[j] == s[j]
                        &&& final(self).entries()[i].task == prior.task
                        &&& final(self).entries()[i].events == prior.events
                        &&& final(self).entries()[i].attempts_left == prior.attempts_left
                        &&& final(self).entries()[i].opened
                        &&& r == Some(next_action(prior, cfg))
                    } else {
                        &&& forall|j: int|
                            0 <= j < s.len() && j != i ==> final(self).entries()[j] == s[j]
                        &&& final(self).entries()[i].task == (UploadTask {
                            status: TaskStatus::Failed(ErrorKind::SourceFileChanged),
                            ..prior.task
                        })
                        &&& final(self).entries()[i].events@ == prior.events@.push(
                            UploadState::Failed { reason: ErrorKind::SourceFileChanged },
                        )
                        &&& final(self).entries()[i].attempts_left == prior.attempts_left
                        &&& !final(self).entries()[i].opened
                        &&& r is None
                    }
                }
            }),
    {
        let found = self.store.find(file_id);
        match found {
            None => None,
            Some(i) => {
                let active = matches!(self.store.entries[i].task.status, TaskStatus::Uploading)
                    && !self.store.entries[i].opened;
                if !active {
                    return None;
                }
                let ghost s = self.entries();
                let ghost cfg = self.cfg;
                if ok {
                    let en = &mut self.store.entries[i];
                    en.opened = true;
                    proof {
                        lemma_count_update(s, i as int, self.entries()[i as int]);
                        assert(entry_wf(self.entries()[i as int], cfg));
                    }
                    let act = self.next_transfer_action(i);
                    proof {
                        assert(next_action(self.entries()[i as int], cfg) == next_action(
                            s[i as int],
                            cfg,
                        ));
                    }
                    Some(act)
                } else {
                    if !self.reachable {
                        proof {
                            lemma_count_at_least(s, i as int);
                        }
                    }
                    let en = &mut self.store.entries[i];
                    en.task.status = TaskStatus::Failed(ErrorKind::SourceFileChanged);
                    en.opened = false;
                    en.events.push(UploadState::Failed { reason: ErrorKind::SourceFileChanged });
                    proof {
                        let s2 = self.entries();
                        let prior = s[i as int];
                        lemma_count_update(s, i as int, s2[i as int]);
                        lemma_count_bounds(s2);
                        lemma_events_push_other(
                            prior.events@,
                            prior.task.spec_progress(cfg),
                            prior.task.total_size as int,
                            UploadState::Failed { reason: ErrorKind::SourceFileChanged },
                        );
                        assert(entry_wf(s2[i as int], cfg));
                    }
                    None
                }
            },
        }
    }

    /// Digests the outcome of one chunk transport call.
    ///
    /// A success for the expected chunk commits its index — committed
    /// offsets only ever grow — persists the record, pushes the new
    /// progress to subscribers and asks for the next step.  A failure
    /// spends one attempt and retries the same chunk with a backoff
    /// counter, until the attempt cap makes the task `Failed`, keeping the
    /// committed offsets for a later resume.  A chunk that lands while the
    /// task is `Paused` is still committed (an in-flight call is not
    /// cancelled), but nothing further is dispatched.  Anything else —
    /// an unknown task, a deleted or failed task, a stale index — is
    /// ignored.
    pub fn on_chunk_result(&mut self, file_id: u64, index: u64, ok: bool) -> (r: Option<Action>)
        requires
            old(self).wf(),
        ensures
            final(self).wf(),
            final(self).cfg == old(self).cfg,
            final(self).reachable == old(self).reachable,
            final(self).entries().len() == old(self).entries().len(),
            forall|j: int|
                0 <= j < old(self).entries().len() && (#[trigger] old(self).entries()[j]).task.status is Deleted ==> final(self).entries()[j].task.status is Deleted,
            ({
                let s = old(self).entries();
                let cfg = old(self).cfg;
                let i = find_idx(s, file_id);
                if i < 0 {
                    r is None && final(self).entries() == s
                } else {
                    let prior = s[i];
                    let k = prior.task.committed();
                    let cc = spec_chunk_count(prior.task.total_size as int, cfg.chunk_size as int);
                    let active = prior.task.status is Uploading && prior.opened && index == k && k
                        < cc;
                    let paused_hit = prior.task.status is Paused && index == k && k < cc && ok;
                    if active && ok {
                        &&& forall|j: int|
                            0 <= j < s.len() && j != i ==> final(self).entries()[j] == s[j]
                        &&& task_frame(prior.task, final(self).entries()[i].task)
                        &&& final(self).entries()[i].task.status is Uploading
                        &&& final(self).entries()[i].task.uploaded_chunk_offsets@
                            == prior.task.uploaded_chunk_offsets@.push(index)
                        &&& final(self).entries()[i].events@ == prior.events@.push(
                            UploadState::Uploading {
                                uploaded_bytes: spec_uploaded_bytes(
                                    k + 1,
                                    prior.task.total_size as int,
                                    cfg.chunk_size as int,
                                ) as u64,
                                total_bytes: prior.task.total_size,
                            },
                        )
                        &&& final(self).entries()[i].attempts_left == cfg.max_attempts
                        &&& final(self).entries()[i].opened
                        &&& r == Some(next_action(final(self).entries()[i], cfg))
                    } else if active && !ok && prior.attempts_left > 1 {
                        &&& forall|j: int|
                            0 <= j < s.len() && j != i ==> final(self).entries()[j] == s[j]
                        &&& final(self).entries()[i].task == prior.task
                        &&& final(self).entries()[i].events == prior.events
                        &&& final(self).entries()[i].attempts_left == prior.attempts_left - 1
                        &&& final(self).entries()[i].opened
                        &&& r == Some(
                            Action::SendChunk {
                                file_id,
                                index,
                                offset: (k * cfg.chunk_size as int) as u64,
                                len: spec_chunk_len(
                                    k,
                                    prior.task.total_size as int,
                                    cfg.chunk_size as int,
                                ) as u64,
                                attempt: (cfg.max_attempts - (prior.attempts_left - 1)) as u32,
                            },
                        )
                    } else if active && !ok {
                        // retries exhausted: the task fails, offsets kept
                        &&& forall|j: int|
                            0 <= j < s.len() && j != i ==> final(self).entries()[j] == s[j]
                        &&& final(self).entries()[i].task == (UploadTask {
                            status: TaskStatus::Failed(ErrorKind::TransportError),
                            ..prior.task
                        })
                        &&& final(self).entries()[i].events@ == prior.events@.push(
                            UploadState::Failed { reason: ErrorKind::TransportError },
                        )
                        &&& !final(self).entries()[i].opened
                        &&& r is None
                    } else if paused_hit {
                        &&& forall|j: int|
                            0 <= j < s.len() && j != i ==> final(self).entries()[j] == s[j]
                        &&& task_frame(prior.task, final(self).entries()[i].task)
                        &&& final(self).entries()[i].task.status is Paused
                        &&& final(self).entries()[i].task.uploaded_chunk_offsets@
                            == prior.task.uploaded_chunk_offsets@.push(index)
                        &&& final(self).entries()[i].events@ == prior.events@.push(
                            UploadState::Uploading {
                                uploaded_bytes: spec_uploaded_bytes(
                                    k + 1,
                                    prior.task.total_size as int,
                                    cfg.chunk_size as int,
                                ) as u64,
                                total_bytes: prior.task.total_size,
                            },
                        )
                        &&& final(self).entries()[i].attempts_left == prior.attempts_left
                        &&& final(self).entries()[i].opened == prior.opened
                        &&& r is None
                    } else {
                        r is None && final(self).entries() == s
                    }
                }
            }),
    {
        let found = self.store.find(file_id);
        let i = match found {
            None => {
                return None;
            },
            Some(i) => i,
        };
        let ghost s = self.entries();
        let ghost cfg = self.cfg;
        let status = self.store.entries[i].task.status;
        let opened = self.store.entries[i].opened;
        let total = self.store.entries[i].task.total_size;
        let k = self.store.entries[i].task.uploaded_chunk_offsets.len() as u64;
        let uploading = matches!(status, TaskStatus::Uploading);
        let paused = matches!(status, TaskStatus::Paused);
        if !(uploading || paused) || index != k {
            return None;
        }
        let cc = chunk_count(total, self.cfg.chunk_size);
        if k >= cc {
            return None;
        }
        if uploading && !opened {
            return None;
        }
        if paused && !ok {
            return None;
        }
        if ok {
            // commit the chunk: offsets only ever grow
            let ub = uploaded_bytes(k + 1, total, self.cfg.chunk_size);
            let max_att = self.cfg.max_attempts;
            let en = &mut self.store.entries[i];
            en.task.uploaded_chunk_offsets.push(index);
            if uploading {
                en.attempts_left = max_att;
            }
            en.events.push(UploadState::Uploading { uploaded_bytes: ub, total_bytes: total });
            proof {
                let s2 = self.entries();
                let prior = s[i as int];
                lemma_count_update(s, i as int, s2[i as int]);
                assert(s2[i as int].task.uploaded_chunk_offsets@ =~= Seq::new(
                    prior.task.uploaded_chunk_offsets@.len() + 1,
                    |a: int| a as u64,
                ));
                lemma_uploaded_bytes_monotone(
                    k as int,
                    k as int + 1,
                    total as int,
                    cfg.chunk_size as int,
                );
                lemma_events_push_progress(
                    prior.events@,
                    prior.task.spec_progress(cfg),
                    spec_uploaded_bytes(k as int + 1, total as int, cfg.chunk_size as int),
                    total as int,
                );
                assert(entry_wf(s2[i as int], cfg));
            }
            if uploading {
                let act = self.next_transfer_action(i);
                Some(act)
            } else {
                None
            }
        } else {
            // transport failure: spend one attempt or fail the task
            let attempts = self.store.entries[i].attempts_left;
            if attempts > 1 {
                let en = &mut self.store.entries[i];
                en.attempts_left = attempts - 1;
                proof {
                    lemma_count_update(s, i as int, self.entries()[i as int]);
                    assert(entry_wf(self.entries()[i as int], cfg));
                }
                let (offset, len) = chunk_range(index, total, self.cfg.chunk_size);
                let attempt = self.cfg.max_attempts - (attempts - 1);
                Some(Action::SendChunk { file_id, index, offset, len, attempt })
            } else {
                if !self.reachable {
                    proof {
                        lemma_count_at_least(s, i as int);
                    }
                }
                let en = &mut self.store.entries[i];
                en.task.status = TaskStatus::Failed(ErrorKind::TransportError);
                en.opened = false;
                en.events.push(UploadState::Failed { reason: ErrorKind::TransportError });
                proof {
                    let s2 = self.entries();
                    let prior = s[i as int];
                    lemma_count_update(s, i as int, s2[i as int]);
                    lemma_count_bounds(s2);
                    lemma_events_push_other(
                        prior.events@,
                        prior.task.spec_progress(cfg),
                        prior.task.total_size as int,
                        UploadState::Failed { reason: ErrorKind::TransportError },
                    );
                    assert(entry_wf(s2[i as int], cfg));
                }
                None
            }
        }
    }

    /// Digests the remote store's answer to a finalize request.  Success
    /// makes the task `Finished` and records the remote object's key;
    /// failure makes it `Failed`, keeping the committed offsets.  A report
    /// for a task that is not finalizing is ignored.
    pub fn on_finalize_result(&mut self, file_id: u64, ok: bool)
        requires
            old(self).wf(),
        ensures
            final(self).wf(),
            final(self).cfg == old(self).cfg,
            final(self).reachable == old(self).reachable,
            final(self).entries().len() == old(self).entries().len(),
            forall|j: int|
                0 <= j < old(self).entries().len() && (#[trigger] old(self).entries()[j]).task.status is Deleted ==> final(self).entries()[j].task.status is Deleted,
            ({
                let s = old(self).entries();
                let cfg = old(self).cfg;
                let i = find_idx(s, file_id);
                if i < 0 {
                    final(self).entries() == s
                } else {
                    let prior = s[i];
                    let k = prior.task.committed();
                    let cc = spec_chunk_count(prior.task.total_size as int, cfg.chunk_size as int);
                    let finalizing = prior.task.status is Uploading && prior.opened && k == cc;
                    if finalizing && ok {
                        &&& forall|j: int|
                            0 <= j < s.len() && j != i ==> final(self).entries()[j] == s[j]
                        &&& final(self).entries()[i].task == (UploadTask {
                            status: TaskStatus::Finished,
                            remote_url: Some(file_id),
                            ..prior.task
                        })
                        &&& final(self).entries()[i].events@ == prior.events@.push(
                            UploadState::Finished,
                        )
                        &&& final(self).entries()[i].attempts_left == prior.attempts_left
                        &&& !final(self).entries()[i].opened
                    } else if finalizing && !ok {
                        &&& forall|j: int|
                            0 <= j < s.len() && j != i ==> final(self).entries()[j] == s[j]
                        &&& final(self).entries()[i].task == (UploadTask {
                            status: TaskStatus::Failed(ErrorKind::TransportError),
                            ..prior.task
                        })
                        &&& final(self).entries()[i].events@ == prior.events@.push(
                            UploadState::Failed { reason: ErrorKind::TransportError },
                        )
                        &&& final(self).entries()[i].attempts_left == prior.attempts_left
                        &&& !final(self).entries()[i].opened
                    } else {
                        final(self).entries() == s
                    }
                }
            }),
    {
        let found = self.store.find(file_id);
        let i = match found {
            None => {
                return ;
            },
            Some(i) => i,
        };
        let ghost s = self.entries();
        let ghost cfg = self.cfg;
        let active = matches!(self.store.entries[i].task.status, TaskStatus::Uploading)
            && self.store.entries[i].opened;
        if !active {
            return ;
        }
        let total = self.store.entries[i].task.total_size;
        let k = self.store.entries[i].task.uploaded_chunk_offsets.len() as u64;
        let cc = chunk_count(total, self.cfg.chunk_size);
        if k != cc {
            return ;
        }
        if !self.reachable {
            proof {
                lemma_count_at_least(s, i as int);
            }
        }
        let en = &mut self.store.entries[i];
        if ok {
            en.task.status = TaskStatus::Finished;
            en.task.remote_url = Some(file_id);
            en.opened = false;
            en.events.push(UploadState::Finished);
        } else {
            en.task.status = TaskStatus::Failed(ErrorKind::TransportError);
            en.opened = false;
            en.events.push(UploadState::Failed { reason: ErrorKind::TransportError });
        }
        proof {
            let s2 = self.entries();
            let prior = s[i as int];
            lemma_count_update(s, i as int, s2[i as int]);
            lemma_count_bounds(s2);
            lemma_events_push_other(
                prior.events@,
                prior.task.spec_progress(cfg),
                prior.task.total_size as int,
                s2[i as int].events@.last(),
            );
            assert(entry_wf(s2[i as int], cfg));
        }
    }

    /// Cancels and removes the upload bound to a remote object key.  A
    /// live task becomes `Deleted` — terminal: it never reaches `Finished`
    /// and leaves the pending listing — its offsets are unrecorded and its
    /// stream ends; the host is asked to remove the remote object.
    /// Deleting an already deleted object is an accepted no-op; an unknown
    /// key is `NotFound`.
    pub fn delete_object(&mut self, remote_key: u64) -> (r: Result<Option<Action>, ErrorKind>)
        requires
            old(self).wf(),
        ensures
            final(self).wf(),
            final(self).cfg == old(self).cfg,
            final(self).reachable == old(self).reachable,
            final(self).entries().len() == old(self).entries().len(),
            forall|j: int|
                0 <= j < old(self).entries().len() && (#[trigger] old(self).entries()[j]).task.status is Deleted ==> final(self).entries()[j].task.status is Deleted,
            ({
                let s = old(self).entries();
                let i = find_idx(s, remote_key);
                if i < 0 {
                    r == Err::<Option<Action>, ErrorKind>(ErrorKind::NotFound) && final(self).entries() == s
                } else if s[i].task.status is Deleted {
                    r == Ok::<Option<Action>, ErrorKind>(None) && final(self).entries() == s
                } else {
                    &&& r == Ok::<Option<Action>, ErrorKind>(
                        Some(Action::DeleteRemote { file_id: remote_key }),
                    )
                    &&& forall|j: int|
                        0 <= j < s.len() && j != i ==> final(self).entries()[j] == s[j]
                    &&& entry_tombstone(final(self).entries()[i], s[i])
                    &&& final(self).entries()[i].attempts_left == 0
                }
            }),
    {
        let found = self.store.find(remote_key);
        let i = match found {
            None => {
                return Err(ErrorKind::NotFound);
            },
            Some(i) => i,
        };
        if matches!(self.store.entries[i].task.status, TaskStatus::Deleted) {
            return Ok(None);
        }
        let ghost s = self.entries();
        let ghost cfg = self.cfg;
        let en = &mut self.store.entries[i];
        en.task.status = TaskStatus::Deleted;
        en.task.remote_url = None;
        en.task.uploaded_chunk_offsets = Vec::new();
        en.events = Vec::new();
        en.attempts_left = 0;
        en.opened = false;
        proof {
            let s2 = self.entries();
            lemma_count_update(s, i as int, s2[i as int]);
            lemma_count_bounds(s2);
            assert(s2[i as int].task.uploaded_chunk_offsets@ =~= Seq::new(0, |a: int| a as u64));
            assert(entry_wf(s2[i as int], cfg));
        }
        Ok(Some(Action::DeleteRemote { file_id: remote_key }))
    }

    /// Drives the reachability gate.  Losing the network pauses every
    /// `Uploading` task, telling its subscribers, and no further transfer
    /// is dispatched; in-flight calls are not cancelled.  Regaining it
    /// re-enqueues every `Paused` task as `Pending`, to resume from its
    /// committed offsets.
    pub fn update_network_reachable(&mut self, reachable: bool)
        requires
            old(self).wf(),
        ensures
            final(self).wf(),
            final(self).cfg == old(self).cfg,
            final(self).reachable == reachable,
            final(self).entries().len() == old(self).entries().len(),
            forall|j: int|
                0 <= j < old(self).entries().len() && (#[trigger] old(self).entries()[j]).task.status is Deleted ==> final(self).entries()[j].task.status is Deleted,
            !reachable ==> forall|j: int|
                0 <= j < old(self).entries().len() ==> {
                    let prior = #[trigger] old(self).entries()[j];
                    if prior.task.status is Uploading {
                        &&& final(self).entries()[j].task == (UploadTask {
                            status: TaskStatus::Paused,
                            ..prior.task
                        })
                        &&& final(self).entries()[j].events@ == prior.events@.push(
                            UploadState::Paused,
                        )
                        &&& final(self).entries()[j].attempts_left == prior.attempts_left
                        &&& !final(self).entries()[j].opened
                    } else {
                        final(self).entries()[j] == prior
                    }
                },
            reachable ==> forall|j: int|
                0 <= j < old(self).entries().len() ==> {
                    let prior = #[trigger] old(self).entries()[j];
                    if prior.task.status is Paused {
                        &&& final(self).entries()[j].task == (UploadTask {
                            status: TaskStatus::Pending,
                            ..prior.task
                        })
                        &&& final(self).entries()[j].events == prior.events
                        &&& final(self).entries()[j].attempts_left == prior.attempts_left
                        &&& final(self).entries()[j].opened == prior.opened
                    } else {
                        final(self).entries()[j] == prior
                    }
                },
    {
        let ghost s0 = self.entries();
        let ghost cfg = self.cfg;
        let n = self.store.entries.len();
        let mut i: usize = 0;
        while i < n
            invariant
                self.cfg == cfg,
                cfg == old(self).cfg,
                old(self).wf(),
                self.cfg.wf(),
                s0 == old(self).entries(),
                n == self.entries().len(),
                n == s0.len(),
                0 <= i <= n,
                self.reachable == old(self).reachable,
                forall|j: int| i <= j < n ==> self.entries()[j] == s0[j],
                forall|j: int| 0 <= j < n ==> entry_wf(#[trigger] self.entries()[j], cfg),
                forall|j: int|
                    0 <= j < n ==> (#[trigger] self.entries()[j]).task.file_id
                        == s0[j].task.file_id,
                !reachable ==> forall|j: int|
                    0 <= j < i ==> !((#[trigger] self.entries()[j]).task.status is Uploading),
                !reachable ==> forall|j: int|
                    0 <= j < i ==> {
                        let prior = #[trigger] s0[j];
                        if prior.task.status is Uploading {
                            &&& self.entries()[j].task == (UploadTask {
                                status: TaskStatus::Paused,
                                ..prior.task
                            })
                            &&& self.entries()[j].events@ == prior.events@.push(
                                UploadState::Paused,
                            )
                            &&& self.entries()[j].attempts_left == prior.attempts_left
                            &&& !self.entries()[j].opened
                        } else {
                            self.entries()[j] == prior
                        }
                    },
                reachable ==> forall|j: int|
                    0 <= j < i ==> upload_weight_eq(self.entries()[j], s0[j]),
                reachable ==> forall|j: int|
                    0 <= j < i ==> {
                        let prior = #[trigger] s0[j];
                        if prior.task.status is Paused {
                            &&& self.entries()[j].task == (UploadTask {
                                status: TaskStatus::Pending,
                                ..prior.task
                            })
                            &&& self.entries()[j].events == prior.events
                            &&& self.entries()[j].attempts_left == prior.attempts_left
                            &&& self.entries()[j].opened == prior.opened
                        } else {
                            self.entries()[j] == prior
                        }
                    },
            decreases n - i,
        {
            let ghost s_before = self.entries();
            if !reachable {
                if matches!(self.store.entries[i].task.status, TaskStatus::Uploading) {
                    let en = &mut self.store.entries[i];
                    en.task.status = TaskStatus::Paused;
                    en.opened = false;
                    en.events.push(UploadState::Paused);
                    proof {
                        let s2 = self.entries();
                        let prior = s_before[i as int];
                        lemma_events_push_other(
                            prior.events@,
                            prior.task.spec_progress(cfg),
                            prior.task.total_size as int,
                            UploadState::Paused,
                        );
                        assert(entry_wf(s2[i as int], cfg));
                    }
                }
            } else {
                if matches!(self.store.entries[i].task.status, TaskStatus::Paused) {
                    let en = &mut self.store.entries[i];
                    en.task.status = TaskStatus::Pending;
                    proof {
                        assert(entry_wf(self.entries()[i as int], cfg));
                    }
                }
            }
            i += 1;
        }
        self.reachable = reachable;
        proof {
            if !reachable {
                lemma_count_zero(self.entries());
            } else {
                assert forall|j: int| 0 <= j < n implies upload_weight_eq(
                    self.entries()[j],
                    s0[j],
                ) by {}
                lemma_count_pointwise_eq(self.entries(), s0);
            }
        }
    }

    /// A point-in-time snapshot of one task's state, without subscribing:
    /// the running progress, or the paused, finished or failed state.
    /// `None` for an unknown or deleted task.
    pub fn get_file_state(&self, file_id: u64) -> (r: Option<UploadState>)
        requires
            self.wf(),
        ensures
            r == (if find_idx(self.entries(), file_id) >= 0 {
                state_of(self.entries()[find_idx(self.entries(), file_id)], self.cfg)
            } else {
                None::<UploadState>
            }),
    {
        let found = self.store.find(file_id);
        let i = match found {
            None => {
                return None;
            },
            Some(i) => i,
        };
        let task = &self.store.entries[i].task;
        match task.status {
            TaskStatus::Paused => Some(UploadState::Paused),
            TaskStatus::Finished => Some(UploadState::Finished),
            TaskStatus::Failed(reason) => Some(UploadState::Failed { reason }),
            TaskStatus::Deleted => None,
            _ => {
                let k = task.uploaded_chunk_offsets.len() as u64;
                let ub = uploaded_bytes(k, task.total_size, self.cfg.chunk_size);
                Some(
                    UploadState::Uploading { uploaded_bytes: ub, total_bytes: task.total_size },
                )
            },
        }
    }

    /// The diagnostic listing: copies of all task records that are neither
    /// `Finished` nor `Deleted`.
    pub fn get_all_tasks(&self) -> (r: Vec<UploadTask>)
        ensures
            r@.len() == pending_view(self.entries()).len(),
            forall|j: int|
                0 <= j < r@.len() ==> task_like(
                    pending_view(self.entries())[j],
                    #[trigger] r@[j],
                ),
    {
        self.store.list_pending()
    }

    /// Attaches a reader to a task's event stream, with last-value replay.
    /// `None` when no live task with this key is known under `parent_dir`.
    pub fn subscribe_file_state(&self, parent_dir: u64, file_id: u64) -> (r: Option<Subscription>)
        ensures
            ({
                let s = self.entries();
                let i = find_idx(s, file_id);
                r == (if i >= 0 && s[i].task.parent_dir == parent_dir && !(
                s[i].task.status is Deleted) {
                    Some(
                        Subscription { file_id, cursor: replay_cursor(s[i].events@) as usize },
                    )
                } else {
                    None::<Subscription>
                })
            }),
    {
        let found = self.store.find(file_id);
        let i = match found {
            None => {
                return None;
            },
            Some(i) => i,
        };
        if self.store.entries[i].task.parent_dir != parent_dir {
            return None;
        }
        if matches!(self.store.entries[i].task.status, TaskStatus::Deleted) {
            return None;
        }
        let cursor = self.subscription_cursor(i);
        Some(Subscription { file_id, cursor })
    }

    /// Reads the next event on a subscription, advancing its cursor.
    /// `None` while no newer event exists.
    pub fn poll_subscription(&self, sub: &mut Subscription) -> (r: Option<UploadState>)
        ensures
            final(sub).file_id == old(sub).file_id,
            ({
                let s = self.entries();
                let i = find_idx(s, old(sub).file_id);
                if i >= 0 && old(sub).cursor < s[i].events@.len() {
                    r == Some(s[i].events@[old(sub).cursor as int]) && final(sub).cursor == old(sub).cursor + 1
                } else {
                    r is None && final(sub).cursor == old(sub).cursor
                }
            }),
    {
        let found = self.store.find(sub.file_id);
        let i = match found {
            None => {
                return None;
            },
            Some(i) => i,
        };
        if sub.cursor < self.store.entries[i].events.len() {
            let ev = self.store.entries[i].events[sub.cursor];
            sub.cursor = sub.cursor + 1;
            Some(ev)
        } else {
            None
        }
    }
}

/// Two entries of equal weight in the count of active transfers.
pub open spec fn upload_weight_eq(a: TaskEntry, b: TaskEntry) -> bool {
    (a.task.status is Uploading) <==> (b.task.status is Uploading)
}

/// Pointwise equal weights give equal counts.
proof fn lemma_count_pointwise_eq(s1: Seq<TaskEntry>, s2: Seq<TaskEntry>)
    requires
        s1.len() == s2.len(),
        forall|i: int| 0 <= i < s1.len() ==> upload_weight_eq(#[trigger] s1[i], #[trigger] s2[i]),
    ensures
        count_uploading(s1) == count_uploading(s2),
    decreases s1.len(),
{
    if s1.len() > 0 {
        lemma_count_pointwise_eq(s1.drop_last(), s2.drop_last());
    }
}

/// Appending a progress event at the new progress level keeps a stream
/// well-formed, provided progress did not shrink.
proof fn lemma_events_push_progress(ev: Seq<UploadState>, old_cur: int, new_cur: int, total: int)
    requires
        events_wf(ev, old_cur, total),
        old_cur <= new_cur,
        0 <= new_cur <= u64::MAX,
        0 <= total <= u64::MAX,
    ensures
        events_wf(
            ev.push(
                UploadState::Uploading {
                    uploaded_bytes: new_cur as u64,
                    total_bytes: total as u64,
                },
            ),
            new_cur,
            total,
        ),
{
    let ev2 = ev.push(
        UploadState::Uploading { uploaded_bytes: new_cur as u64, total_bytes: total as u64 },
    );
    assert forall|a: int|
        0 <= a < ev2.len() && ev2[a] is Uploading implies ev_bytes(#[trigger] ev2[a]) <= new_cur
        && ev_total(ev2[a]) == total by {
        if a < ev.len() {
            assert(ev2[a] == ev[a]);
        }
    }
    assert forall|a: int, b: int|
        0 <= a <= b < ev2.len() && ev2[a] is Uploading && ev2[b] is Uploading implies ev_bytes(
        #[trigger] ev2[a]) <= ev_bytes(#[trigger] ev2[b]) by {
        if b < ev.len() {
            assert(ev2[a] == ev[a] && ev2[b] == ev[b]);
        } else if a < ev.len() {
            assert(ev2[a] == ev[a]);
            assert(ev_bytes(ev[a]) <= old_cur);
        }
    }
}

/// Appending a non-progress event keeps a stream well-formed.
proof fn lemma_events_push_other(ev: Seq<UploadState>, cur: int, total: int, e: UploadState)
    requires
        events_wf(ev, cur, total),
        !(e is Uploading),
    ensures
        events_wf(ev.push(e), cur, total),
{
    let ev2 = ev.push(e);
    assert forall|a: int|
        0 <= a < ev2.len() && ev2[a] is Uploading implies ev_bytes(#[trigger] ev2[a]) <= cur
        && ev_total(ev2[a]) == total by {
        assert(ev2[a] == ev[a]);
    }
    assert forall|a: int, b: int|
        0 <= a <= b < ev2.len() && ev2[a] is Uploading && ev2[b] is Uploading implies ev_bytes(
        #[trigger] ev2[a]) <= ev_bytes(#[trigger] ev2[b]) by {
        assert(ev2[a] == ev[a] && ev2[b] == ev[b]);
    }
}

} // verus!
