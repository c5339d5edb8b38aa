//! The decisions of a fog ingest server's background workers and the
//! configuration of its client, verified with Verus.

pub mod config;
pub mod decimal;
pub mod ingest_laws;
pub mod ingest_progress;
pub mod ingest_worker;
pub mod log;
pub mod not_found;
pub mod peer_checkup;
pub mod protocol;
pub mod thread_handle;
pub mod time;
pub mod timestamp;
