//! Data held by the record store.

pub mod models;
