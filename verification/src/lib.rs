//! Keeps a remote search index synchronized with the live state of local
//! directory trees: classifying scanned paths, building indexable records
//! with stable identifiers, batching them for submission, reconciling
//! deletions, and guarding scheduled runs against overlap.

pub mod batch;
pub mod config;
pub mod decimal;
pub mod entry_id;
pub mod file_index;
pub mod indexer;
pub mod launch;
pub mod provision;
pub mod proxy;
pub mod remote;
pub mod scan;
pub mod scheduler;
