//! What the HTTP surface takes in and hands out.
//!
//! The surface itself (routing, status codes, encoding) lies outside this
//! crate; here are the values it exchanges and how they follow from the
//! state of the system.

use vstd::prelude::*;
use vstd::string::StringExecFns;
use crate::db::models::{Staff, StaffRole, SyncStatus};
use crate::sync::executor::{Outcome, OutcomeView};
use crate::time::Timestamp;

verus! {

/// Request to add a member of staff.
#[derive(Debug)]
pub struct CreateStaffRequest {
    /// Full name.
    pub name: String,
    /// Role.
    pub role: StaffRole,
    /// Email address.
    pub email: Option<String>,
    /// Phone number.
    pub phone: Option<String>,
}

/// Request to change a member of staff; `None` leaves a field as it is.
#[derive(Debug)]
pub struct UpdateStaffRequest {
    /// New name.
    pub name: Option<String>,
    /// New role.
    pub role: Option<StaffRole>,
    /// New email address.
    pub email: Option<String>,
    /// New phone number.
    pub phone: Option<String>,
    /// New roster flag.
    pub is_active: Option<bool>,
}

impl CreateStaffRequest {
    /// The member of staff the request describes, stored under `id` at
    /// `now`: active, with the request's name, role and contact details.
    pub fn into_staff(self, id: String, now: Timestamp) -> (staff: Staff)
        ensures
            staff == (Staff {
                id,
                name: self.name,
                role: self.role,
                email: self.email,
                phone: self.phone,
                is_active: true,
                created_at: now,
                updated_at: now,
            }),
    {
        Staff {
            id,
            name: self.name,
            role: self.role,
            email: self.email,
            phone: self.phone,
            is_active: true,
            created_at: now,
            updated_at: now,
        }
    }
}

impl UpdateStaffRequest {
    /// `staff` after the change: each field the request names is replaced,
    /// every other field is kept, and `updated_at` becomes `now`.
    pub open spec fn spec_apply(&self, staff: Staff, now: Timestamp) -> Staff {
        Staff {
            id: staff.id,
            name: match self.name {
                Some(name) => name,
                None => staff.name,
            },
            role: match self.role {
                Some(role) => role,
                None => staff.role,
            },
            email: match self.email {
                Some(email) => Some(email),
                None => staff.email,
            },
            phone: match self.phone {
                Some(phone) => Some(phone),
                None => staff.phone,
            },
            is_active: match self.is_active {
                Some(flag) => flag,
                None => staff.is_active,
            },
            created_at: staff.created_at,
            updated_at: now,
        }
    }

    /// Applies the change to `staff` at `now`.
    pub fn apply(&self, staff: Staff, now: Timestamp) -> (changed: Staff)
        ensures
            changed == self.spec_apply(staff, now),
    {
        Staff {
            id: staff.id,
            name: match &self.name {
                Some(name) => name.clone(),
                None => staff.name,
            },
            role: match self.role {
                Some(role) => role,
                None => staff.role,
            },
            email: match &self.email {
                Some(email) => Some(email.clone()),
                None => staff.email,
            },
            phone: match &self.phone {
                Some(phone) => Some(phone.clone()),
                None => staff.phone,
            },
            is_active: match self.is_active {
                Some(flag) => flag,
                None => staff.is_active,
            },
            created_at: staff.created_at,
            updated_at: now,
        }
    }
}

/// What the status endpoint reports about the application.
#[derive(Debug)]
pub struct AppStatus {
    /// Version of the application.
    pub version: String,
    /// Whether the database answers.
    pub database_connected: bool,
    /// Time of the last sync attempt.
    pub last_sync: Option<Timestamp>,
    /// State of the latest sync-status record, as shown to people.
    pub sync_status: String,
    /// Seconds since the Unix epoch at the time of the report.
    pub uptime: i64,
}

impl AppStatus {
    /// The report for a running application of version `version` whose
    /// current sync status is `status`, made at `now`.
    pub fn new(version: String, status: &SyncStatus, now: Timestamp) -> (report: AppStatus)
        ensures
            report.version == version,
            report.database_connected,
            report.last_sync == status.last_sync_at,
            report.sync_status@ == status.sync_status.label(),
            report.uptime == now.secs,
    {
        AppStatus {
            version,
            database_connected: true,
            last_sync: status.last_sync_at,
            sync_status: status.sync_status.to_string(),
            uptime: now.secs,
        }
    }
}

/// What the manual sync trigger answers.
#[derive(Debug)]
pub struct SyncResult {
    /// Whether the attempt succeeded.
    pub success: bool,
    /// What happened, for people.
    pub message: String,
    /// When the answer was made.
    pub timestamp: Timestamp,
}

impl Clone for SyncResult {
    fn clone(&self) -> (r: Self)
        ensures
            r == *self,
    {
        SyncResult {
            success: self.success,
            message: self.message.clone(),
            timestamp: self.timestamp,
        }
    }
}

/// The message that goes with an outcome.
pub open spec fn result_message(outcome: OutcomeView) -> Seq<char> {
    match outcome {
        OutcomeView::Completed { transferred } => if transferred {
            "Sync completed successfully"@
        } else {
            "skipped: no remote configured"@
        },
        OutcomeView::Failed(error) => "Sync failed: "@ + error.text(),
    }
}

impl SyncResult {
    /// The answer to a manual trigger whose attempt ended with `outcome`,
    /// made at `now`. Every outcome has an answer: a failure is reported as
    /// `success == false` with its reason, never dropped.
    pub fn from_outcome(outcome: &Outcome, now: Timestamp) -> (result: SyncResult)
        ensures
            result.success == (outcome@ is Completed),
            result.message@ == result_message(outcome@),
            result.timestamp == now,
    {
        match outcome {
            Outcome::Completed { transferred } => SyncResult {
                success: true,
                message: if *transferred {
                    String::from_str("Sync completed successfully")
                } else {
                    String::from_str("skipped: no remote configured")
                },
                timestamp: now,
            },
            Outcome::Failed(error) => SyncResult {
                success: false,
                message: String::from_str("Sync failed: ").concat(error.message().as_str()),
                timestamp: now,
            },
        }
    }
}

} // verus!
