//! The reader-writer lock and its three policies.
//!
//! A thread joins the waiting, takes the lock once it is not blocked, and
//! gives it back; the lock says whom to wake then.
use vstd::prelude::*;

use crate::reader_writer::config::LockPolicy;

verus! {

/// A picture of the lock.
#[derive(Clone, Copy, Debug, PartialEq, Eq, Structural)]
pub struct CoordinatorSnapshot {
    pub active_readers: usize,
    pub active_writers: usize,
    pub waiting_readers: usize,
    pub waiting_writers: usize,
    pub data_count: usize,
}

/// The lock.
#[derive(Clone, Copy, Debug, PartialEq, Eq, Structural)]
pub struct LockCoordinator {
    pub policy: LockPolicy,
    pub active_readers: usize,
    pub active_writers: usize,
    pub waiting_readers: usize,
    pub waiting_writers: usize,
    pub data_count: usize,
    pub writer_turn: bool,
}

/// Whom to wake.
#[derive(Clone, Copy, Debug, PartialEq, Eq, Structural)]
pub struct Wake {
    /// All waiting readers.
    pub readers: bool,
    /// One waiting writer.
    pub writer: bool,
}

/// One fewer, but never fewer than none.
pub open spec fn one_fewer(n: usize) -> usize {
    if n > 0 {
        (n - 1) as usize
    } else {
        0
    }
}

impl LockCoordinator {
    /// The invariant: one writer at most, and no reader beside a writer.
    pub open spec fn sound(self) -> bool {
        self.active_writers <= 1 && (self.active_writers > 0 ==> self.active_readers == 0)
    }

    /// A reader has to wait: there is nothing to read yet, a writer is active,
    /// or the policy puts waiting writers first.
    pub open spec fn holds_readers(self) -> bool {
        ||| self.data_count == 0
        ||| self.active_writers > 0
        ||| match self.policy {
            LockPolicy::ReaderPriority => false,
            LockPolicy::WriterPriority => self.waiting_writers > 0,
            LockPolicy::Fair => self.writer_turn && self.waiting_writers > 0,
        }
    }

    /// A writer has to wait: somebody is active, or the policy puts waiting
    /// readers first, which it does not before there is something to read.
    pub open spec fn holds_writers(self) -> bool {
        ||| self.active_writers > 0
        ||| self.active_readers > 0
        ||| self.data_count > 0 && match self.policy {
            LockPolicy::ReaderPriority => self.waiting_readers > 0,
            LockPolicy::WriterPriority => false,
            LockPolicy::Fair => !self.writer_turn && self.waiting_readers > 0,
        }
    }

    /// The lock after a reader has joined the waiting.
    pub open spec fn read_waited(self) -> LockCoordinator {
        LockCoordinator { waiting_readers: (self.waiting_readers + 1) as usize, ..self }
    }

    /// The lock after a reader has stopped waiting, and taken it if the run
    /// goes on.
    pub open spec fn read_locked(self, running: bool) -> LockCoordinator {
        let left = LockCoordinator { waiting_readers: one_fewer(self.waiting_readers), ..self };
        if running {
            LockCoordinator {
                active_readers: (self.active_readers + 1) as usize,
                writer_turn: self.writer_turn && self.policy != LockPolicy::Fair,
                ..left
            }
        } else {
            left
        }
    }

    /// The lock after a reader has given it back. The last one hands the turn
    /// to waiting writers.
    pub open spec fn read_unlocked(self) -> LockCoordinator {
        let active_readers = one_fewer(self.active_readers);
        LockCoordinator {
            active_readers,
            writer_turn: self.writer_turn || (active_readers == 0 && self.policy
                == LockPolicy::Fair && self.waiting_writers > 0),
            ..self
        }
    }

    /// The lock after a writer has joined the waiting.
    pub open spec fn write_waited(self) -> LockCoordinator {
        LockCoordinator { waiting_writers: (self.waiting_writers + 1) as usize, ..self }
    }

    /// The lock after a writer has stopped waiting, and taken it if the run
    /// goes on.
    pub open spec fn write_locked(self, running: bool) -> LockCoordinator {
        let left = LockCoordinator { waiting_writers: one_fewer(self.waiting_writers), ..self };
        if running {
            LockCoordinator {
                active_writers: 1,
                writer_turn: self.writer_turn || self.policy == LockPolicy::Fair,
                ..left
            }
        } else {
            left
        }
    }

    /// The lock after a writer has given it back with so many cells written.
    /// It hands the turn to waiting readers.
    pub open spec fn write_unlocked(self, data_count: usize) -> LockCoordinator {
        LockCoordinator {
            active_writers: 0,
            data_count,
            writer_turn: self.writer_turn && !(self.policy == LockPolicy::Fair
                && self.waiting_readers > 0),
            ..self
        }
    }

    /// Whom a reader wakes as it gives the lock back: all readers, and a
    /// writer if it was the last.
    pub open spec fn read_wake(self) -> Wake {
        Wake { readers: true, writer: one_fewer(self.active_readers) == 0 }
    }

    /// Whom a writer wakes as it gives the lock back: the side that the policy
    /// prefers if any of it waits, else the other; under the fair policy
    /// whoever waits.
    pub open spec fn write_wake(self) -> Wake {
        match self.policy {
            LockPolicy::ReaderPriority => Wake {
                readers: self.waiting_readers > 0,
                writer: self.waiting_readers == 0,
            },
            LockPolicy::WriterPriority => Wake {
                readers: self.waiting_writers == 0,
                writer: self.waiting_writers > 0,
            },
            LockPolicy::Fair => Wake {
                readers: self.waiting_readers > 0,
                writer: self.waiting_writers > 0,
            },
        }
    }

    /// A lock that nobody holds or waits for, over an empty store.
    pub fn new(policy: LockPolicy) -> (c: Self)
        ensures
            c == (LockCoordinator {
                policy,
                active_readers: 0,
                active_writers: 0,
                waiting_readers: 0,
                waiting_writers: 0,
                data_count: 0,
                writer_turn: false,
            }),
            c.sound(),
    {
        LockCoordinator {
            policy,
            active_readers: 0,
            active_writers: 0,
            waiting_readers: 0,
            waiting_writers: 0,
            data_count: 0,
            writer_turn: false,
        }
    }

    /// A reader joins the waiting.
    pub fn read_wait(&mut self)
        requires
            old(self).waiting_readers < usize::MAX,
        ensures
            *final(self) == old(self).read_waited(),
            final(self).waiting_readers == old(self).waiting_readers + 1,
            old(self).sound() ==> final(self).sound(),
    {
        self.waiting_readers = self.waiting_readers + 1;
    }

    /// A reader stops waiting, because nothing blocks it or the run is over.
    /// It has the lock if the run goes on.
    pub fn read_lock(&mut self, running: bool) -> (locked: bool)
        requires
            running ==> !old(self).holds_readers() && old(self).active_readers < usize::MAX,
        ensures
            *final(self) == old(self).read_locked(running),
            locked == running,
            old(self).sound() ==> final(self).sound(),
    {
        self.waiting_readers = self.waiting_readers.saturating_sub(1);
        if !running {
            return false;
        }
        self.active_readers = self.active_readers + 1;
        if self.policy == LockPolicy::Fair {
            self.writer_turn = false;
        }
        true
    }

    /// A reader gives the lock back.
    pub fn read_unlock(&mut self) -> (wake: Wake)
        ensures
            *final(self) == old(self).read_unlocked(),
            wake == old(self).read_wake(),
            old(self).sound() ==> final(self).sound(),
    {
        self.active_readers = self.active_readers.saturating_sub(1);
        if self.active_readers == 0 {
            if self.policy == LockPolicy::Fair && self.waiting_writers > 0 {
                self.writer_turn = true;
            }
            Wake { readers: true, writer: true }
        } else {
            Wake { readers: true, writer: false }
        }
    }

    /// A writer joins the waiting.
    pub fn write_wait(&mut self)
        requires
            old(self).waiting_writers < usize::MAX,
        ensures
            *final(self) == old(self).write_waited(),
            final(self).waiting_writers == old(self).waiting_writers + 1,
            old(self).sound() ==> final(self).sound(),
    {
        self.waiting_writers = self.waiting_writers + 1;
    }

    /// A writer stops waiting, because nothing blocks it or the run is over.
    /// It has the lock if the run goes on.
    pub fn write_lock(&mut self, running: bool) -> (locked: bool)
        requires
            running ==> !old(self).holds_writers(),
        ensures
            *final(self) == old(self).write_locked(running),
            locked == running,
            old(self).sound() ==> final(self).sound(),
    {
        self.waiting_writers = self.waiting_writers.saturating_sub(1);
        if !running {
            return false;
        }
        self.active_writers = 1;
        if self.policy == LockPolicy::Fair {
            self.writer_turn = true;
        }
        true
    }

    /// A writer gives the lock back, and says how many cells are written.
    pub fn write_unlock(&mut self, data_count: usize) -> (wake: Wake)
        ensures
            *final(self) == old(self).write_unlocked(data_count),
            wake == old(self).write_wake(),
            old(self).sound() ==> final(self).sound(),
    {
        self.active_writers = 0;
        self.data_count = data_count;
        if self.policy == LockPolicy::Fair && self.waiting_readers > 0 {
            self.writer_turn = false;
        }
        match self.policy {
            LockPolicy::ReaderPriority => {
                if self.waiting_readers > 0 {
                    Wake { readers: true, writer: false }
                } else {
                    Wake { readers: false, writer: true }
                }
            },
            LockPolicy::WriterPriority => {
                if self.waiting_writers > 0 {
                    Wake { readers: false, writer: true }
                } else {
                    Wake { readers: true, writer: false }
                }
            },
            LockPolicy::Fair => Wake {
                readers: self.waiting_readers > 0,
                writer: self.waiting_writers > 0,
            },
        }
    }

    /// A picture of the lock.
    pub fn snapshot(&self) -> (s: CoordinatorSnapshot)
        ensures
            s == (CoordinatorSnapshot {
                active_readers: self.active_readers,
                active_writers: self.active_writers,
                waiting_readers: self.waiting_readers,
                waiting_writers: self.waiting_writers,
                data_count: self.data_count,
            }),
    {
        CoordinatorSnapshot {
            active_readers: self.active_readers,
            active_writers: self.active_writers,
            waiting_readers: self.waiting_readers,
            waiting_writers: self.waiting_writers,
            data_count: self.data_count,
        }
    }

    /// Whether a reader has to wait.
    pub fn reader_blocked(&self) -> (r: bool)
        ensures
            r == self.holds_readers(),
            r <==> self.data_count == 0 || self.active_writers > 0 || (self.waiting_writers > 0 && (
            self.policy == LockPolicy::WriterPriority || (self.policy == LockPolicy::Fair
                && self.writer_turn))),
    {
        if self.data_count == 0 {
            return true;
        }
        if self.active_writers > 0 {
            return true;
        }
        match self.policy {
            LockPolicy::ReaderPriority => false,
            LockPolicy::WriterPriority => self.waiting_writers > 0,
            LockPolicy::Fair => self.writer_turn && self.waiting_writers > 0,
        }
    }

    /// Whether a writer has to wait.
    pub fn writer_blocked(&self) -> (r: bool)
        ensures
            r == self.holds_writers(),
            r <==> self.active_writers > 0 || self.active_readers > 0 || (self.data_count > 0
                && self.waiting_readers > 0 && (self.policy == LockPolicy::ReaderPriority || (
            self.policy == LockPolicy::Fair && !self.writer_turn))),
    {
        if self.data_count == 0 {
            return self.active_writers > 0 || self.active_readers > 0;
        }
        if self.active_writers > 0 || self.active_readers > 0 {
            return true;
        }
        match self.policy {
            LockPolicy::ReaderPriority => self.waiting_readers > 0,
            LockPolicy::WriterPriority => false,
            LockPolicy::Fair => !self.writer_turn && self.waiting_readers > 0,
        }
    }
}

} // verus!
