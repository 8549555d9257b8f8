//! Application configuration: where the data lives, how often to
//! synchronize, and how old the data may grow before access is restricted.

use vstd::prelude::*;
use vstd::string::StringExecFns;
use crate::db::models::clone_opt_string;
use crate::utils::constants::{DEFAULT_SYNC_INTERVAL_HOURS, MAX_DAYS_WITHOUT_SYNC};

verus! {

/// Port of the embedded API server when nothing else is configured.
pub const DEFAULT_API_PORT: u16 = 3001;

/// Application configuration. It is read once at startup and not changed
/// afterwards.
#[derive(Debug)]
pub struct Config {
    /// Database connection URL.
    pub database_url: String,
    /// Port of the embedded API server.
    pub api_port: u16,
    /// Period of the recurring sync, in hours.
    pub sync_interval_hours: u64,
    /// Whole days that may pass since the last sync attempt before the data
    /// counts as stale.
    pub max_days_without_sync: u64,
    /// Address of the remote sync endpoint; `None` disables the transfer.
    pub cloud_sync_url: Option<String>,
    /// Directory for application data.
    pub data_dir: String,
}

impl Clone for Config {
    fn clone(&self) -> (c: Self)
        ensures
            c == *self,
    {
        Config {
            database_url: self.database_url.clone(),
            api_port: self.api_port,
            sync_interval_hours: self.sync_interval_hours,
            max_days_without_sync: self.max_days_without_sync,
            cloud_sync_url: clone_opt_string(&self.cloud_sync_url),
            data_dir: self.data_dir.clone(),
        }
    }
}

/// The user's data directory as `dirs::data_dir` reports it, as text.
///
/// The answer depends on the platform and the environment, so nothing is
/// claimed about it.
#[verifier::external_body]
fn platform_data_dir() -> Option<String> {
    match dirs::data_dir() {
        Some(p) => Some(p.to_string_lossy().into_owned()),
        None => None,
    }
}

/// `leaf` appended to the path `base` by `std::path::Path::join`, as text.
///
/// The separator is the platform's, so nothing is claimed about the result.
#[verifier::external_body]
fn join_path(base: &str, leaf: &str) -> String {
    std::path::Path::new(base).join(leaf).to_string_lossy().into_owned()
}

impl Config {
    /// Whether `self` holds the default settings, whatever its data
    /// directory.
    pub open spec fn has_default_settings(&self) -> bool {
        &&& self.database_url@ == "sqlite:pos_app.db"@
        &&& self.api_port == 3001
        &&& self.sync_interval_hours == 24
        &&& self.max_days_without_sync == 3
        &&& self.cloud_sync_url is None
    }

    /// Whether a remote endpoint is configured.
    pub open spec fn spec_remote_configured(&self) -> bool {
        self.cloud_sync_url is Some
    }

    /// The default settings with application data under `data_dir`.
    pub fn with_data_dir(data_dir: String) -> (c: Config)
        ensures
            c.has_default_settings(),
            c.data_dir == data_dir,
    {
        Config {
            database_url: String::from_str("sqlite:pos_app.db"),
            api_port: DEFAULT_API_PORT,
            sync_interval_hours: DEFAULT_SYNC_INTERVAL_HOURS,
            max_days_without_sync: MAX_DAYS_WITHOUT_SYNC,
            cloud_sync_url: None,
            data_dir,
        }
    }

    /// Whether a remote endpoint is configured.
    pub fn remote_configured(&self) -> (r: bool)
        ensures
            r == self.spec_remote_configured(),
    {
        self.cloud_sync_url.is_some()
    }
}

impl Default for Config {
    /// The default settings. Application data goes to `pos-app` under the
    /// user's data directory, or under the current directory where the
    /// platform names none.
    fn default() -> (c: Config)
        ensures
            c.has_default_settings(),
    {
        let base = match platform_data_dir() {
            Some(dir) => dir,
            None => String::from_str("."),
        };
        let data_dir = join_path(base.as_str(), "pos-app");
        Config::with_data_dir(data_dir)
    }
}

} // verus!
