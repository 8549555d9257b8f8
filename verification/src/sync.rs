//! Synchronization and freshness enforcement.
//!
//! * [`store`] keeps the append-only log of sync-status records.
//! * [`executor`] turns one sync attempt into status records and an outcome.
//! * [`freshness`] decides from the latest record whether the data is stale.
//! * [`service`] ties them together for the scheduler and the status query.

pub mod error;
pub mod executor;
pub mod freshness;
pub mod service;
pub mod store;

pub use service::{SyncService, SyncStats};
