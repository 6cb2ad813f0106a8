//! Dining philosophers: a ring of philosophers sharing forks, with five
//! strategies for picking them up.
pub mod config;
pub mod laws;
pub mod look;
pub mod rules;
pub mod table;
pub mod worker;
