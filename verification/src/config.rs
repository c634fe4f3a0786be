//! Configuration of the upload manager: chunk size, per-file size limit,
//! worker-pool width and the retry budget for a single chunk.

use vstd::prelude::*;

verus! {

/// Tunable limits of the upload manager.
#[derive(Clone, Copy)]
pub struct Config {
    /// Size in bytes of one chunk, the unit of resumable transfer.
    pub chunk_size: u64,
    /// Largest file size, in bytes, accepted for a single upload.
    pub size_limit: u64,
    /// How many tasks may be transferring at the same time.
    pub max_concurrent: usize,
    /// How many times one chunk is attempted before the task fails.
    pub max_attempts: u32,
}

impl Config {
    /// A usable configuration: every limit is positive, and the size limit
    /// leaves room for whole-file chunk arithmetic in `u64`.
    pub open spec fn wf(self) -> bool {
        &&& self.chunk_size >= 1
        &&& self.max_concurrent >= 1
        &&& self.max_attempts >= 1
        &&& self.size_limit + self.chunk_size <= u64::MAX
    }

    /// Builds a configuration, or `None` when a limit is unusable.
    pub fn make(chunk_size: u64, size_limit: u64, max_concurrent: usize, max_attempts: u32) -> (r:
        Option<Config>)
        ensures
            r is Some <==> (chunk_size >= 1 && max_concurrent >= 1 && max_attempts >= 1
                && size_limit + chunk_size <= u64::MAX),
            r matches Some(c) ==> c.wf() && c == (Config {
                chunk_size,
                size_limit,
                max_concurrent,
                max_attempts,
            }),
    {
        if chunk_size >= 1 && max_concurrent >= 1 && max_attempts >= 1 && size_limit
            <= u64::MAX - chunk_size {
            Some(Config { chunk_size, size_limit, max_concurrent, max_attempts })
        } else {
            None
        }
    }
}

} // verus!
