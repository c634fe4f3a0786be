//! The library's cross-cutting guarantees, stated and proved once.
//!
//! Each proof function here is a statement about every reachable state of
//! an [`UploadManager`], not about one chosen run; the per-function
//! contracts in [`crate::service`] keep the preconditions below invariant.

use vstd::prelude::*;
use crate::config::Config;
use crate::service::{next_action, Action, UploadManager};
use crate::store::{
    entry_wf, ev_bytes, find_idx, lemma_count_at_least, lemma_find_from, pending_view, TaskEntry,
};
use crate::task::{spec_chunk_count, UploadTask};

verus! {

/// Idempotent creation: a well-formed store never holds two tasks under
/// one dedup key.  A repeated `create_upload` for the same (content,
/// destination) pair therefore finds the existing task — its contract
/// returns that task instead of adding one — and no second remote object
/// is ever created for the same file.
pub proof fn lemma_no_duplicate_task(m: UploadManager, fid: u64, i: int, j: int)
    requires
        m.wf(),
        0 <= i < m.entries().len(),
        0 <= j < m.entries().len(),
        m.entries()[i].task.file_id == fid,
        m.entries()[j].task.file_id == fid,
    ensures
        i == j,
{
    if i < j {
        assert(m.entries()[i].task.file_id != m.entries()[j].task.file_id);
    }
    if j < i {
        assert(m.entries()[j].task.file_id != m.entries()[i].task.file_id);
    }
}

/// The dedup key always leads back to its one entry: looking the key up
/// finds exactly the entry that holds it.  Together with the previous
/// lemma this is what makes `create_upload` return the existing task
/// instead of admitting a duplicate.
pub proof fn lemma_dedup_key_found(m: UploadManager, fid: u64, i: int)
    requires
        m.wf(),
        0 <= i < m.entries().len(),
        m.entries()[i].task.file_id == fid,
    ensures
        find_idx(m.entries(), fid) == i,
{
    lemma_find_from(m.entries(), fid, 0);
    let f = find_idx(m.entries(), fid);
    lemma_no_duplicate_task(m, fid, i, f);
}

/// Size admission: an oversized file can only ever stand in the store as
/// `Deleted`.  The scheduler dispatches only `Pending` tasks, so an
/// oversized file never reaches a worker.
pub proof fn lemma_oversized_never_dispatched(m: UploadManager, i: int)
    requires
        m.wf(),
        0 <= i < m.entries().len(),
        m.entries()[i].task.total_size > m.cfg.size_limit,
    ensures
        m.entries()[i].task.status is Deleted,
{
    assert(entry_wf(m.entries()[i], m.cfg));
}

/// The reachability gate: while the network is unreachable, no task at all
/// is transferring.
pub proof fn lemma_unreachable_means_no_active(m: UploadManager, i: int)
    requires
        m.wf(),
        !m.reachable,
        0 <= i < m.entries().len(),
    ensures
        !(m.entries()[i].task.status is Uploading),
{
    if m.entries()[i].task.status is Uploading {
        lemma_count_at_least(m.entries(), i);
    }
}

/// Progress monotonicity: on any task's event stream, the progress values
/// never decrease, so every subscriber — which reads the stream in order —
/// observes a non-decreasing sequence of progress values.
pub proof fn lemma_progress_monotone(m: UploadManager, t: int, a: int, b: int)
    requires
        m.wf(),
        0 <= t < m.entries().len(),
        0 <= a <= b < m.entries()[t].events@.len(),
        m.entries()[t].events@[a] is Uploading,
        m.entries()[t].events@[b] is Uploading,
    ensures
        ev_bytes(m.entries()[t].events@[a]) <= ev_bytes(m.entries()[t].events@[b]),
{
    assert(entry_wf(m.entries()[t], m.cfg));
}

/// Deletion cancels: a deleted or finished task is absent from the pending
/// listing.  With `delete_object`'s contract (the task becomes `Deleted`)
/// and the per-operation guarantee that `Deleted` is never left, a deleted
/// task never reaches `Finished` and never shows up in the listing again.
pub proof fn lemma_listing_excludes_terminal(s: Seq<TaskEntry>, j: int)
    requires
        0 <= j < pending_view(s).len(),
    ensures
        !pending_view(s)[j].status.is_terminal(),
    decreases s.len(),
{
    if s.len() > 0 {
        if s.last().task.status.is_terminal() {
            assert(pending_view(s.drop_last()) + Seq::<UploadTask>::empty() =~= pending_view(
                s.drop_last(),
            ));
            lemma_listing_excludes_terminal(s.drop_last(), j);
        } else {
            if j < pending_view(s.drop_last()).len() {
                lemma_listing_excludes_terminal(s.drop_last(), j);
            }
        }
    }
}

/// The pending listing is complete: every task that is neither `Finished`
/// nor `Deleted` stands in it.
pub proof fn lemma_listing_complete(s: Seq<TaskEntry>, i: int)
    requires
        0 <= i < s.len(),
        !s[i].task.status.is_terminal(),
    ensures
        exists|j: int|
            0 <= j < pending_view(s).len() && pending_view(s)[j] == s[i].task,
    decreases s.len(),
{
    if i == s.len() - 1 {
        let j = pending_view(s.drop_last()).len() as int;
        assert(pending_view(s)[j] == s[i].task);
    } else {
        lemma_listing_complete(s.drop_last(), i);
        let j = choose|j: int|
            0 <= j < pending_view(s.drop_last()).len() && pending_view(s.drop_last())[j]
                == s.drop_last()[i].task;
        assert(pending_view(s)[j] == s[i].task);
    }
}

/// Resume correctness: chunks are committed strictly in order, so the next
/// chunk sent for a task is always its first uncommitted one — a committed
/// chunk is never sent again, none is skipped — and finalize is requested
/// only once every chunk index is committed.
pub proof fn lemma_next_chunk_first_uncommitted(e: TaskEntry, cfg: Config)
    requires
        cfg.wf(),
        entry_wf(e, cfg),
    ensures
        next_action(e, cfg) matches Action::SendChunk { index, .. } ==> {
            &&& !e.task.uploaded_chunk_offsets@.contains(index)
            &&& forall|c: u64| c < index ==> e.task.uploaded_chunk_offsets@.contains(c)
        },
        next_action(e, cfg) is Finalize ==> forall|c: u64|
            c < spec_chunk_count(e.task.total_size as int, cfg.chunk_size as int)
                ==> e.task.uploaded_chunk_offsets@.contains(c),
{
    let off = e.task.uploaded_chunk_offsets@;
    let k = e.task.committed();
    let cc = spec_chunk_count(e.task.total_size as int, cfg.chunk_size as int);
    assert forall|c: u64| c < k implies off.contains(c) by {
        assert(off[c as int] == c);
    }
    if k < cc {
        assert(!off.contains(k as u64)) by {
            if off.contains(k as u64) {
                let idx = choose|idx: int| 0 <= idx < off.len() && off[idx] == k as u64;
                assert(off[idx] == idx as u64);
            }
        }
    }
}

} // verus!
