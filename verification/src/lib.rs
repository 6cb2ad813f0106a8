//! Verified models behind three interactive synchronization demos: dining
//! philosophers, a bounded-buffer producer-consumer and a reader-writer lock.
//!
//! The library holds every decision the demos take: command-line settings,
//! fork strategies, the circular buffer, the lock policies, what each worker
//! thread does next, and what the screen shows. Threads, blocking, drawing and
//! files belong to the programs around it.
pub mod color;
pub mod control;
pub mod dining;
pub mod layout;
pub mod producer_consumer;
pub mod reader_writer;
pub mod rng;
pub mod screenshot;
pub mod text;
pub mod timing;
