//! Self-update: release check, download bookkeeping, checksum verification
//! and the pipeline that sequences them.

pub mod download;
pub mod pipeline;
pub mod release;
pub mod version;
