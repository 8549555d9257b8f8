//! The sync service: what the scheduler and the status query ask of the
//! subsystem.
//!
//! The service holds nothing but its configuration. Everything it knows
//! about past attempts it reads from the status log.

use vstd::prelude::*;
use crate::api::{result_message, SyncResult};
use crate::config::Config;
use crate::db::models::{SyncStatus, SyncStatusType, SyncStatusView};
use crate::sync::executor::{
    attempt_outcome,
    closing_record,
    in_progress_record,
    run_once,
    with_id,
    AttemptReport,
    SyncExecutor,
    Phase,
};
use crate::sync::freshness::spec_is_stale;
use crate::sync::store::{is_latest, SyncStatusStore};
use crate::time::Timestamp;

verus! {

/// Seconds in one hour.
pub const SECS_PER_HOUR: u64 = 3600;

/// The status query's answer: the latest record's sync time and state, the
/// freshness verdict, and the thresholds it was judged by.
#[derive(Clone, Copy, Debug, PartialEq, Eq, Structural)]
pub struct SyncStats {
    /// Time of the last sync attempt.
    pub last_sync: Option<Timestamp>,
    /// State of the latest record.
    pub sync_status: SyncStatusType,
    /// Whether the data is stale and a sync is required before further use.
    pub is_sync_required: bool,
    /// Period of the recurring sync, in hours.
    pub sync_interval_hours: u64,
    /// Whole days tolerated without a sync.
    pub max_days_without_sync: u64,
}

/// The status reported where the log holds no record: nothing was ever
/// attempted.
pub open spec fn never_synced(now: Timestamp) -> SyncStatusView {
    SyncStatusView {
        id: 0,
        last_sync_at: None,
        sync_status: SyncStatusType::Pending,
        error_message: None,
        created_at: now,
    }
}

/// The status reported where the log could not be read.
pub open spec fn unreadable(reason: Seq<char>, now: Timestamp) -> SyncStatusView {
    SyncStatusView {
        id: 0,
        last_sync_at: None,
        sync_status: SyncStatusType::Failed,
        error_message: Some(reason),
        created_at: now,
    }
}

/// The sync service.
#[derive(Debug)]
pub struct SyncService {
    config: Config,
    sync_interval_secs: u64,
}

impl SyncService {
    /// The configuration the service was made with.
    pub closed spec fn spec_config(&self) -> Config {
        self.config
    }

    /// Period of the recurring sync, in seconds.
    pub closed spec fn spec_sync_interval_secs(&self) -> u64 {
        self.sync_interval_secs
    }

    /// A service for `config`. The period of the recurring sync is
    /// `config.sync_interval_hours`, which must be expressible in seconds.
    pub fn new(config: Config) -> (service: SyncService)
        requires
            config.sync_interval_hours * 3600 <= u64::MAX,
        ensures
            service.spec_config() == config,
            service.spec_sync_interval_secs() == config.sync_interval_hours * 3600,
    {
        let sync_interval_secs = config.sync_interval_hours * SECS_PER_HOUR;
        SyncService { config, sync_interval_secs }
    }

    /// A service for `config`, or `None` where the sync interval is too
    /// long to be expressed in seconds.
    pub fn try_new(config: Config) -> (service: Option<SyncService>)
        ensures
            match service {
                Some(s) => {
                    &&& config.sync_interval_hours * 3600 <= u64::MAX
                    &&& s.spec_config() == config
                    &&& s.spec_sync_interval_secs() == config.sync_interval_hours * 3600
                },
                None => config.sync_interval_hours * 3600 > u64::MAX,
            },
    {
        if config.sync_interval_hours <= u64::MAX / SECS_PER_HOUR {
            Some(SyncService::new(config))
        } else {
            None
        }
    }

    /// The configuration the service was made with.
    pub fn config(&self) -> (c: &Config)
        ensures
            *c == self.spec_config(),
    {
        &self.config
    }

    /// Period of the recurring sync, in seconds.
    pub fn sync_interval_secs(&self) -> (secs: u64)
        ensures
            secs == self.spec_sync_interval_secs(),
    {
        self.sync_interval_secs
    }

    /// A fresh executor for one attempt under this service's configuration.
    pub fn executor(&self) -> (e: SyncExecutor)
        ensures
            e@.phase == Phase::Idle,
            e@.remote_configured == self.spec_config().spec_remote_configured(),
            e@.outcome is None,
    {
        SyncExecutor::new(self.config.remote_configured())
    }

    /// The current sync status, given what reading the latest record from
    /// the log came to.
    ///
    /// * A record was read: that record.
    /// * The log is empty: a `Pending` status without a sync time.
    /// * The log could not be read: a `Failed` status without a sync time
    ///   that carries the reason.
    pub fn get_status(&self, read: Result<Option<SyncStatus>, String>, now: Timestamp) -> (status:
        SyncStatus)
        ensures
            match read {
                Ok(Some(record)) => status == record,
                Ok(None) => status@ == never_synced(now),
                Err(reason) => status@ == unreadable(reason@, now),
            },
    {
        match read {
            Ok(Some(record)) => record,
            Ok(None) => SyncStatus {
                id: 0,
                last_sync_at: None,
                sync_status: SyncStatusType::Pending,
                error_message: None,
                created_at: now,
            },
            Err(reason) => SyncStatus {
                id: 0,
                last_sync_at: None,
                sync_status: SyncStatusType::Failed,
                error_message: Some(reason),
                created_at: now,
            },
        }
    }

    /// Whether a sync is required before the data may be used further:
    /// true where `status` names no sync time, and otherwise exactly when
    /// more whole days than the configured maximum have passed since it.
    pub fn is_sync_required(&self, status: &SyncStatus, now: Timestamp) -> (required: bool)
        ensures
            required == spec_is_stale(
                Some(*status),
                self.spec_config().max_days_without_sync,
                now,
            ),
            status.last_sync_at is None ==> required,
    {
        match status.last_sync_at {
            Some(at) => {
                let days = now.whole_days_since(&at);
                days >= 0 && days as u64 > self.config.max_days_without_sync
            },
            None => true,
        }
    }

    /// The status query's answer for the current status `status` at `now`.
    pub fn get_sync_stats(&self, status: &SyncStatus, now: Timestamp) -> (stats: SyncStats)
        ensures
            stats == (SyncStats {
                last_sync: status.last_sync_at,
                sync_status: status.sync_status,
                is_sync_required: spec_is_stale(
                    Some(*status),
                    self.spec_config().max_days_without_sync,
                    now,
                ),
                sync_interval_hours: self.spec_config().sync_interval_hours,
                max_days_without_sync: self.spec_config().max_days_without_sync,
            }),
    {
        SyncStats {
            last_sync: status.last_sync_at,
            sync_status: status.sync_status,
            is_sync_required: self.is_sync_required(status, now),
            sync_interval_hours: self.config.sync_interval_hours,
            max_days_without_sync: self.config.max_days_without_sync,
        }
    }

    /// The status query's answer at `now`, read from `store`.
    ///
    /// With an empty log the answer is `Pending`, without a sync time, and a
    /// sync is required.
    pub fn status_report(&self, store: &SyncStatusStore, now: Timestamp) -> (stats: SyncStats)
        requires
            store.wf(),
        ensures
            stats.sync_interval_hours == self.spec_config().sync_interval_hours,
            stats.max_days_without_sync == self.spec_config().max_days_without_sync,
            store@.len() == 0 ==> stats.is_sync_required && stats.last_sync is None
                && stats.sync_status == SyncStatusType::Pending,
            store@.len() > 0 ==> exists|record: SyncStatus|
                {
                    &&& is_latest(store@, record)
                    &&& stats.last_sync == record.last_sync_at
                    &&& stats.sync_status == record.sync_status
                    &&& stats.is_sync_required == spec_is_stale(
                        Some(record),
                        self.spec_config().max_days_without_sync,
                        now,
                    )
                },
    {
        let status = self.get_status(Ok(store.latest()), now);
        self.get_sync_stats(&status, now)
    }

    /// Runs one attempt against `store` on request and answers with its
    /// result. The attempt begins at `started_at`; `report` says how the
    /// work outside the log went.
    ///
    /// Where the log has room, the attempt leaves two more records in it and
    /// the answer tells how it ended: success with the message of a
    /// completed or skipped transfer, or failure with the reason.
    pub fn sync_now(
        &self,
        store: &mut SyncStatusStore,
        started_at: Timestamp,
        report: &AttemptReport,
    ) -> (result: SyncResult)
        requires
            old(store).wf(),
        ensures
            final(store).wf(),
            final(store)@.subrange(0, old(store)@.len() as int) == old(store)@,
            result.timestamp == report.finished_at,
            final(store).spec_limit() == old(store).spec_limit(),
            old(store)@.len() + 2 <= old(store).spec_limit() ==> {
                let n = old(store)@.len() as int;
                let remote = self.spec_config().spec_remote_configured();
                &&& final(store)@.len() == n + 2
                &&& final(store)@[n]@ == with_id(in_progress_record(started_at), n + 1)
                &&& final(store)@[n + 1]@ == with_id(
                    closing_record(remote, started_at, *report),
                    n + 2,
                )
                &&& result.success == (attempt_outcome(remote, *report) is Completed)
                &&& result.message@ == result_message(attempt_outcome(remote, *report))
            },
            old(store)@.len() + 2 > old(store).spec_limit() ==> {
                &&& !result.success
                &&& result.message@ == "Sync failed: "@ + "sync status log is full"@
                &&& final(store)@.len() == old(store).spec_limit()
            },
    {
        let outcome = run_once(store, self.config.remote_configured(), started_at, report);
        SyncResult::from_outcome(&outcome, report.finished_at)
    }
}

} // verus!
