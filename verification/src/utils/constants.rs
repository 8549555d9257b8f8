//! Limits and defaults of the application.

use vstd::prelude::*;

verus! {

/// Greatest number of tables.
pub const MAX_TABLES: i32 = 20;

/// Items per page where the caller names no number.
pub const DEFAULT_PER_PAGE: usize = 20;

/// Greatest number of items per page.
pub const MAX_PER_PAGE: usize = 100;

/// Period of the recurring sync where none is configured, in hours.
pub const DEFAULT_SYNC_INTERVAL_HOURS: u64 = 24;

/// Whole days tolerated without a sync where none is configured.
pub const MAX_DAYS_WITHOUT_SYNC: u64 = 3;

/// Longest time a request may take, in seconds. A manual sync that takes
/// longer is reported as failed.
pub const API_TIMEOUT_SECONDS: u64 = 30;

} // verus!
