//! The freshness policy: is the local data too old to be trusted?
//!
//! The answer is a function of the latest status record, the configured
//! threshold and the current time, and of nothing else. A record counts
//! toward freshness whether its attempt succeeded or failed: what matters is
//! when the last attempt was made.

use vstd::prelude::*;
use crate::config::Config;
use crate::db::models::{SyncStatus, SyncStatusType};
use crate::time::Timestamp;

verus! {

/// Whole days from the last sync attempt to `now`, rounded toward zero;
/// `None` where no attempt was ever made.
pub open spec fn spec_elapsed_days(latest: Option<SyncStatus>, now: Timestamp) -> Option<int> {
    match latest {
        Some(record) => match record.last_sync_at {
            Some(at) => Some(now.spec_whole_days_since(at)),
            None => None,
        },
        None => None,
    }
}

/// The policy: data that was never synchronized is stale; otherwise it is
/// stale exactly when more than `max_days` whole days have passed since the
/// last attempt.
pub open spec fn spec_is_stale(latest: Option<SyncStatus>, max_days: u64, now: Timestamp) -> bool {
    match spec_elapsed_days(latest, now) {
        None => true,
        Some(days) => days > max_days,
    }
}

/// An attempt that reported `InProgress` longer ago than one sync interval
/// never finished: it was abandoned, and is not under way.
pub open spec fn spec_is_abandoned(record: SyncStatus, interval_hours: u64, now: Timestamp) -> bool {
    &&& record.sync_status == SyncStatusType::InProgress
    &&& now.as_nanos() - record.created_at.as_nanos() > interval_hours * 3_600_000_000_000
}

/// The policy's answer together with the elapsed time it rests on.
#[derive(Clone, Copy, Debug, PartialEq, Eq, Structural)]
pub struct FreshnessVerdict {
    /// Whether access should be restricted until the next sync.
    pub is_stale: bool,
    /// Whole days since the last sync attempt; `None` where there was none.
    pub elapsed_days: Option<i64>,
}

/// Whole days from the last sync attempt recorded in `latest` to `now`.
pub fn elapsed_days(latest: &Option<SyncStatus>, now: Timestamp) -> (days: Option<i64>)
    ensures
        match days {
            Some(d) => spec_elapsed_days(*latest, now) == Some(d as int),
            None => spec_elapsed_days(*latest, now) is None,
        },
{
    match latest {
        Some(record) => match &record.last_sync_at {
            Some(at) => Some(now.whole_days_since(at)),
            None => None,
        },
        None => None,
    }
}

/// Whether the data is stale at `now`, given the latest status record.
///
/// * No record, or a record without a sync time: stale.
/// * Otherwise stale exactly when the whole days elapsed since the last
///   attempt exceed `cfg.max_days_without_sync`. Elapsed time equal to the
///   threshold is not stale.
pub fn is_stale(latest: &Option<SyncStatus>, cfg: &Config, now: Timestamp) -> (stale: bool)
    ensures
        stale == spec_is_stale(*latest, cfg.max_days_without_sync, now),
        *latest is None ==> stale,
        forall|record: SyncStatus, at: Timestamp|
            *latest == Some(record) && record.last_sync_at == Some(at) ==> (stale <==> now.spec_whole_days_since(
                at,
            ) > cfg.max_days_without_sync),
{
    assess(latest, cfg, now).is_stale
}

/// The policy's answer and the elapsed days it rests on.
pub fn assess(latest: &Option<SyncStatus>, cfg: &Config, now: Timestamp) -> (v: FreshnessVerdict)
    ensures
        v.is_stale == spec_is_stale(*latest, cfg.max_days_without_sync, now),
        match v.elapsed_days {
            Some(d) => spec_elapsed_days(*latest, now) == Some(d as int),
            None => spec_elapsed_days(*latest, now) is None,
        },
{
    let elapsed = elapsed_days(latest, now);
    let stale = match elapsed {
        None => true,
        Some(days) => days >= 0 && days as u64 > cfg.max_days_without_sync,
    };
    FreshnessVerdict { is_stale: stale, elapsed_days: elapsed }
}

/// Whether `record` reports an attempt that started more than one sync
/// interval before `now` and never reported back.
pub fn is_abandoned(record: &SyncStatus, cfg: &Config, now: Timestamp) -> (r: bool)
    ensures
        r == spec_is_abandoned(*record, cfg.sync_interval_hours, now),
{
    match record.sync_status {
        SyncStatusType::InProgress => {
            let age: i128 = now.age_nanos(&record.created_at);
            let limit: i128 = cfg.sync_interval_hours as i128 * 3_600_000_000_000;
            age > limit
        },
        _ => false,
    }
}

/// Data that is stale stays stale as time goes on, as long as no new attempt
/// is recorded.
pub proof fn lemma_stale_stays_stale(
    latest: Option<SyncStatus>,
    max_days: u64,
    now: Timestamp,
    later: Timestamp,
)
    requires
        now.as_nanos() <= later.as_nanos(),
        spec_is_stale(latest, max_days, now),
    ensures
        spec_is_stale(latest, max_days, later),
{
    if let Some(record) = latest {
        if let Some(at) = record.last_sync_at {
            crate::time::lemma_whole_days_monotone(now, later, at);
        }
    }
}

} // verus!
