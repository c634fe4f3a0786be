//! Task records and chunk arithmetic.
//!
//! A file is transferred as a sequence of fixed-size chunks; the last chunk
//! may be shorter.  A task records which chunk indices have been committed
//! to the remote store.  Chunks are committed strictly in order, so the
//! committed indices always form the prefix `0, 1, ..., k-1`.

use vstd::prelude::*;
use vstd::arithmetic::div_mod::lemma_fundamental_div_mod;
use crate::config::Config;

verus! {

/// The error taxonomy of the upload manager.
#[derive(Clone, Copy, Debug, PartialEq, Eq, Structural)]
pub enum ErrorKind {
    /// The local file disappeared or changed size: fatal, no retry.
    SourceFileChanged,
    /// A transport call failed; retried up to the configured attempt cap.
    TransportError,
    /// The durable store did not acknowledge a write; the caller sees the
    /// error and the in-memory state is rolled back.
    PersistenceError,
    /// The file exceeds the single-upload size limit; rejected at admission.
    SizeLimitExceeded,
    /// The task or remote object asked about is not known.
    NotFound,
}

/// Lifecycle state of one upload task.  `Finished` and `Deleted` are
/// terminal; `Failed` may be re-enqueued by a later `create_upload`.
#[derive(Clone, Copy, Debug, PartialEq, Eq, Structural)]
pub enum TaskStatus {
    Pending,
    Uploading,
    Paused,
    Finished,
    Failed(ErrorKind),
    Deleted,
}

impl TaskStatus {
    /// No transition leaves a terminal status.
    pub open spec fn is_terminal(self) -> bool {
        self is Finished || self is Deleted
    }
}

/// One event on a task's broadcast stream, or a point-in-time snapshot.
/// Progress is reported as committed bytes out of total bytes.
#[derive(Clone, Copy, Debug, PartialEq, Eq, Structural)]
pub enum UploadState {
    Uploading { uploaded_bytes: u64, total_bytes: u64 },
    Paused,
    Finished,
    Failed { reason: ErrorKind },
}

/// One upload task: the durable record persisted after every status or
/// offset change.
pub struct UploadTask {
    /// Stable dedup key, derived from content and destination.
    pub file_id: u64,
    /// Destination namespace.
    pub workspace_id: u64,
    /// Destination directory within the workspace.
    pub parent_dir: u64,
    /// Source file on disk; opaque to the manager.
    pub local_path: String,
    /// Remote object key, assigned once the remote object exists.
    pub remote_url: Option<u64>,
    /// File size in bytes, fixed at creation.
    pub total_size: u64,
    /// Committed chunk indices, strictly increasing: always `0..k`.
    pub uploaded_chunk_offsets: Vec<u64>,
    pub status: TaskStatus,
    pub created_at: u64,
}

/// Number of chunks needed for `total` bytes at `chunk_size` bytes a chunk:
/// `total / chunk_size`, rounded up.
pub open spec fn spec_chunk_count(total: int, chunk_size: int) -> int
    recommends
        chunk_size >= 1,
{
    if total == 0 {
        0
    } else {
        (total - 1) / chunk_size + 1
    }
}

/// Bytes committed once `k` chunks are committed: `k` full chunks, capped
/// at the file size (the last chunk may be short).
pub open spec fn spec_uploaded_bytes(k: int, total: int, chunk_size: int) -> int {
    if k * chunk_size >= total {
        total
    } else {
        k * chunk_size
    }
}

/// Length in bytes of chunk `index`.
pub open spec fn spec_chunk_len(index: int, total: int, chunk_size: int) -> int {
    if total - index * chunk_size >= chunk_size {
        chunk_size
    } else {
        total - index * chunk_size
    }
}

/// The chunk count is the least `k` with `k * chunk_size >= total`.
pub proof fn lemma_chunk_count(total: int, chunk_size: int)
    requires
        chunk_size >= 1,
        total >= 0,
    ensures
        spec_chunk_count(total, chunk_size) >= 0,
        spec_chunk_count(total, chunk_size) * chunk_size >= total,
        total > 0 ==> (spec_chunk_count(total, chunk_size) - 1) * chunk_size < total,
        spec_chunk_count(total, chunk_size) <= total,
{
    if total > 0 {
        let q = (total - 1) / chunk_size;
        let r = (total - 1) % chunk_size;
        lemma_fundamental_div_mod(total - 1, chunk_size);
        assert(total - 1 == chunk_size * q + r);
        assert(0 <= r < chunk_size) by (nonlinear_arith)
            requires
                chunk_size >= 1,
                r == (total - 1) % chunk_size,
                total >= 1,
        ;
        assert(q >= 0) by (nonlinear_arith)
            requires
                chunk_size >= 1,
                total - 1 >= 0,
                total - 1 == chunk_size * q + r,
                0 <= r < chunk_size,
        ;
        assert((q + 1) * chunk_size == chunk_size * q + chunk_size) by (nonlinear_arith);
        assert(q * chunk_size == chunk_size * q) by (nonlinear_arith);
        assert(q + 1 <= total) by (nonlinear_arith)
            requires
                chunk_size >= 1,
                q >= 0,
                total - 1 == chunk_size * q + r,
                r >= 0,
        ;
    }
}

/// Committed bytes never decrease as more chunks are committed.
pub proof fn lemma_uploaded_bytes_monotone(k1: int, k2: int, total: int, chunk_size: int)
    requires
        0 <= k1 <= k2,
        chunk_size >= 1,
        total >= 0,
    ensures
        spec_uploaded_bytes(k1, total, chunk_size) <= spec_uploaded_bytes(k2, total, chunk_size),
        0 <= spec_uploaded_bytes(k1, total, chunk_size) <= total,
{
    assert(k1 * chunk_size <= k2 * chunk_size) by (nonlinear_arith)
        requires
            0 <= k1 <= k2,
            chunk_size >= 1,
    ;
    assert(k1 * chunk_size >= 0) by (nonlinear_arith)
        requires
            k1 >= 0,
            chunk_size >= 1,
    ;
}

/// With all chunks committed, the committed bytes equal the file size.
pub proof fn lemma_uploaded_bytes_complete(total: int, chunk_size: int)
    requires
        chunk_size >= 1,
        total >= 0,
    ensures
        spec_uploaded_bytes(spec_chunk_count(total, chunk_size), total, chunk_size) == total,
{
    lemma_chunk_count(total, chunk_size);
}

/// Number of chunks needed for `total` bytes.
pub fn chunk_count(total: u64, chunk_size: u64) -> (r: u64)
    requires
        chunk_size >= 1,
    ensures
        r == spec_chunk_count(total as int, chunk_size as int),
{
    if total == 0 {
        0
    } else {
        let q = (total - 1) / chunk_size;
        proof {
            lemma_chunk_count(total as int, chunk_size as int);
            assert(q <= total - 1);
        }
        q + 1
    }
}

/// Bytes committed once `k` chunks are committed.
pub fn uploaded_bytes(k: u64, total: u64, chunk_size: u64) -> (r: u64)
    requires
        chunk_size >= 1,
        total + chunk_size <= u64::MAX,
        k <= spec_chunk_count(total as int, chunk_size as int),
    ensures
        r == spec_uploaded_bytes(k as int, total as int, chunk_size as int),
{
    proof {
        lemma_chunk_count(total as int, chunk_size as int);
        let cc = spec_chunk_count(total as int, chunk_size as int);
        assert(k * chunk_size <= cc * chunk_size) by (nonlinear_arith)
            requires
                0 <= k <= cc,
                chunk_size >= 1,
        ;
        if total > 0 {
            assert(cc * chunk_size == (cc - 1) * chunk_size + chunk_size) by (nonlinear_arith);
        }
        assert(k * chunk_size >= 0) by (nonlinear_arith)
            requires
                k >= 0,
                chunk_size >= 1,
        ;
    }
    let bytes = k * chunk_size;
    if bytes >= total {
        total
    } else {
        bytes
    }
}

/// Byte offset and length of chunk `index` within the file.
pub fn chunk_range(index: u64, total: u64, chunk_size: u64) -> (r: (u64, u64))
    requires
        chunk_size >= 1,
        index < spec_chunk_count(total as int, chunk_size as int),
    ensures
        r.0 == index * chunk_size,
        r.1 == spec_chunk_len(index as int, total as int, chunk_size as int),
        1 <= r.1 <= chunk_size,
        r.0 + r.1 <= total,
{
    proof {
        lemma_chunk_count(total as int, chunk_size as int);
        let cc = spec_chunk_count(total as int, chunk_size as int);
        assert(index * chunk_size <= (cc - 1) * chunk_size) by (nonlinear_arith)
            requires
                0 <= index <= cc - 1,
                chunk_size >= 1,
        ;
        assert(index * chunk_size >= 0) by (nonlinear_arith)
            requires
                index >= 0,
                chunk_size >= 1,
        ;
    }
    let offset = index * chunk_size;
    let remaining = total - offset;
    if remaining >= chunk_size {
        (offset, chunk_size)
    } else {
        (offset, remaining)
    }
}

impl UploadTask {
    /// Committed chunk count: the offsets always form the prefix `0..k`.
    pub open spec fn committed(self) -> int {
        self.uploaded_chunk_offsets@.len() as int
    }

    /// Well-formedness of a task record under configuration `cfg`.
    pub open spec fn wf(self, cfg: Config) -> bool {
        &&& self.uploaded_chunk_offsets@ == Seq::new(
            self.uploaded_chunk_offsets@.len(),
            |i: int| i as u64,
        )
        &&& self.committed() <= spec_chunk_count(self.total_size as int, cfg.chunk_size as int)
        &&& !(self.status is Deleted) ==> self.total_size <= cfg.size_limit
        &&& self.status is Finished ==> self.committed() == spec_chunk_count(
            self.total_size as int,
            cfg.chunk_size as int,
        ) && self.remote_url == Some(self.file_id)
    }

    /// Bytes committed so far.
    pub open spec fn spec_progress(self, cfg: Config) -> int {
        spec_uploaded_bytes(self.committed(), self.total_size as int, cfg.chunk_size as int)
    }
}

/// Field-wise agreement of two task records (their views agree; used where
/// a record is handed out by value).
pub open spec fn task_like(a: UploadTask, b: UploadTask) -> bool {
    &&& a.file_id == b.file_id
    &&& a.workspace_id == b.workspace_id
    &&& a.parent_dir == b.parent_dir
    &&& a.local_path@ == b.local_path@
    &&& a.remote_url == b.remote_url
    &&& a.total_size == b.total_size
    &&& a.uploaded_chunk_offsets@ == b.uploaded_chunk_offsets@
    &&& a.status == b.status
    &&& a.created_at == b.created_at
}

/// Copies a task record for handing out; the copy agrees with the record
/// field by field.
pub fn clone_task(t: &UploadTask) -> (r: UploadTask)
    ensures
        task_like(*t, r),
{
    let offsets = t.uploaded_chunk_offsets.clone();
    proof {
        assert(offsets@ =~= t.uploaded_chunk_offsets@);
    }
    UploadTask {
        file_id: t.file_id,
        workspace_id: t.workspace_id,
        parent_dir: t.parent_dir,
        local_path: t.local_path.clone(),
        remote_url: t.remote_url,
        total_size: t.total_size,
        uploaded_chunk_offsets: offsets,
        status: t.status,
        created_at: t.created_at,
    }
}

/// Stable dedup key of an upload: a deterministic function of the content
/// hash and the destination namespace, so a second request for the same
/// file and destination maps to the same task.
pub open spec fn spec_file_id_of(workspace_id: u64, parent_dir: u64, content_hash: u64) -> u64 {
    (workspace_id ^ (parent_dir << 17) ^ (content_hash << 34)) as u64
}

/// Computes the dedup key of an upload request.
pub fn file_id_of(workspace_id: u64, parent_dir: u64, content_hash: u64) -> (r: u64)
    ensures
        r == spec_file_id_of(workspace_id, parent_dir, content_hash),
{
    workspace_id ^ (parent_dir << 17u64) ^ (content_hash << 34u64)
}

} // verus!
