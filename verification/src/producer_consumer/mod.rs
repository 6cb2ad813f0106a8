//! Producer-consumer: actors on both sides of a circular buffer, one of them
//! at a time holding the buffer while an item moves.
pub mod board;
pub mod config;
pub mod crew;
pub mod laws;
pub mod look;
pub mod queue;
pub mod record;
pub mod rules;
pub mod worker;
