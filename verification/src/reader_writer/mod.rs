//! Readers and writers sharing a store of cells, under three lock policies.
pub mod config;
pub mod coordinator;
pub mod crew;
pub mod laws;
pub mod look;
pub mod motion;
pub mod record;
pub mod rules;
pub mod store;
pub mod worker;
