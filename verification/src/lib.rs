//! A resumable file-upload manager.
//!
//! Files are transferred to a remote object store in fixed-size chunks.
//! Committed chunk indices are recorded per task, so an interrupted upload
//! resumes where it stopped instead of re-sending completed chunks.  A
//! process-wide reachability gate pauses and resumes all transfers, a
//! bounded worker pool caps how many tasks upload at once, and a per-file
//! size limit rejects oversized files at admission.
//!
//! The library is the decision core: it holds the task records, the chunk
//! bookkeeping and the state machine.  The host performs the outside work
//! (reading the file, the transport calls, durable persistence) and feeds
//! the outcomes back as events.

pub mod config;
pub mod task;
pub mod store;
pub mod service;
pub mod laws;
pub mod group;
pub mod error_map;
