//! Offline-first point-of-sale backend.
//!
//! The heart of the crate is the synchronization subsystem in [`sync`]: an
//! append-only log of sync-status records, the executor that turns one sync
//! attempt into records and an outcome, and the freshness policy that decides
//! whether the local data is too old to be used. Around it sit the plain data
//! models ([`db::models`]), the business rules ([`services`]), the helpers
//! ([`utils`]), the configuration ([`config`]), the values the HTTP surface
//! exchanges ([`api`]) and instants as integers ([`time`]).
//!
//! Every function is verified against its contract. The few places where the
//! crate calls code it cannot see (the clock, the platform's directories,
//! `regex`, `chrono`, `uuid` and a handful of string functions of the
//! standard library) are marked `external_body`, and each says what is
//! taken on trust.

pub mod api;
pub mod config;
pub mod db;
pub mod services;
pub mod sync;
pub mod time;
pub mod utils;
