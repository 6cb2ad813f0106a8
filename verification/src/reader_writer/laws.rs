//! What holds of the lock as a whole, whatever the order of its users.
use vstd::prelude::*;

use crate::reader_writer::config::LockPolicy;
use crate::reader_writer::coordinator::LockCoordinator;

verus! {

/// One use of the lock.
pub enum LockUse {
    ReadWait,
    ReadLock(bool),
    ReadUnlock,
    WriteWait,
    WriteLock(bool),
    WriteUnlock(usize),
}

impl LockCoordinator {
    /// The lock after one use.
    pub open spec fn used(self, step: LockUse) -> LockCoordinator {
        match step {
            LockUse::ReadWait => self.read_waited(),
            LockUse::ReadLock(running) => self.read_locked(running),
            LockUse::ReadUnlock => self.read_unlocked(),
            LockUse::WriteWait => self.write_waited(),
            LockUse::WriteLock(running) => self.write_locked(running),
            LockUse::WriteUnlock(data_count) => self.write_unlocked(data_count),
        }
    }

    /// Whoever takes the lock is not blocked.
    pub open spec fn admits(self, step: LockUse) -> bool {
        match step {
            LockUse::ReadLock(running) => running ==> !self.holds_readers(),
            LockUse::WriteLock(running) => running ==> !self.holds_writers(),
            _ => true,
        }
    }

    /// The lock after a series of uses.
    pub open spec fn after(self, steps: Seq<LockUse>) -> LockCoordinator
        decreases steps.len(),
    {
        if steps.len() == 0 {
            self
        } else {
            self.after(steps.drop_last()).used(steps.last())
        }
    }

    /// Whoever takes the lock in a series of uses is not blocked at the time.
    pub open spec fn admits_all(self, steps: Seq<LockUse>) -> bool
        decreases steps.len(),
    {
        steps.len() == 0 || self.admits_all(steps.drop_last()) && self.after(
            steps.drop_last(),
        ).admits(steps.last())
    }

    /// Nobody holds the lock.
    pub open spec fn idle(self) -> bool {
        self.active_readers == 0 && self.active_writers == 0
    }
}

/// However its users are interleaved, the lock has one writer at most, and
/// never a reader beside a writer.
pub proof fn law_exclusion(c: LockCoordinator, steps: Seq<LockUse>)
    requires
        c.sound(),
        c.admits_all(steps),
    ensures
        c.after(steps).sound(),
        c.after(steps).policy == c.policy,
    decreases steps.len(),
{
    if steps.len() > 0 {
        law_exclusion(c, steps.drop_last());
    }
}

/// Nobody reads before something is written, and until then writers are not
/// held back by waiting readers, whatever the policy.
pub proof fn law_writers_seed_the_store(c: LockCoordinator)
    requires
        c.data_count == 0,
    ensures
        c.holds_readers(),
        c.idle() ==> !c.holds_writers(),
{
}

/// The lock is never idle while everybody waits: once there is something to
/// read, some waiting thread is not blocked, and before that a waiting writer
/// is not.
pub proof fn law_no_standstill(c: LockCoordinator)
    requires
        c.idle(),
        c.waiting_readers > 0 || c.waiting_writers > 0,
        c.data_count == 0 ==> c.waiting_writers > 0,
    ensures
        (c.waiting_readers > 0 && !c.holds_readers()) || (c.waiting_writers > 0
            && !c.holds_writers()),
{
}

/// Under reader priority only an active writer holds readers up, and a writer
/// has to wait for every waiting reader.
pub proof fn law_reader_priority(c: LockCoordinator)
    requires
        c.policy == LockPolicy::ReaderPriority,
        c.data_count > 0,
    ensures
        c.holds_readers() <==> c.active_writers > 0,
        c.waiting_readers > 0 ==> c.holds_writers(),
{
}

/// Under writer priority only active threads hold writers up, and a reader has
/// to wait for every waiting writer.
pub proof fn law_writer_priority(c: LockCoordinator)
    requires
        c.policy == LockPolicy::WriterPriority,
        c.data_count > 0,
    ensures
        c.holds_writers() <==> !c.idle(),
        c.waiting_writers > 0 ==> c.holds_readers(),
{
}

/// Under the fair policy, when both sides wait for an idle lock, exactly one
/// of them is held back.
pub proof fn law_fair_picks_one_side(c: LockCoordinator)
    requires
        c.policy == LockPolicy::Fair,
        c.data_count > 0,
        c.idle(),
        c.waiting_readers > 0,
        c.waiting_writers > 0,
    ensures
        c.holds_readers() != c.holds_writers(),
{
}

/// Under the fair policy the sides take turns: after the last reader it is the
/// waiting writers', after a writer it is the waiting readers'.
pub proof fn law_fair_takes_turns(c: LockCoordinator, data_count: usize)
    requires
        c.policy == LockPolicy::Fair,
        c.sound(),
        c.data_count > 0,
        data_count > 0,
        c.waiting_readers > 0,
        c.waiting_writers > 0,
    ensures
        c.active_readers == 1 ==> c.read_unlocked().holds_readers()
            && !c.read_unlocked().holds_writers(),
        c.active_writers == 1 ==> c.write_unlocked(data_count).holds_writers()
            && !c.write_unlocked(data_count).holds_readers(),
{
}

/// Nobody sleeps through its chance: when the lock is given back, by a writer
/// that leaves something to read or by a reader, whoever waits and is not
/// blocked any more is woken.
pub proof fn law_no_wakeup_is_lost(c: LockCoordinator, data_count: usize)
    requires
        c.sound(),
        data_count > 0,
    ensures
        c.waiting_readers > 0 && !c.read_unlocked().holds_readers() ==> c.read_wake().readers,
        c.waiting_writers > 0 && !c.read_unlocked().holds_writers() ==> c.read_wake().writer,
        c.waiting_readers > 0 && !c.write_unlocked(data_count).holds_readers()
            ==> c.write_wake().readers,
        c.waiting_writers > 0 && !c.write_unlocked(data_count).holds_writers()
            ==> c.write_wake().writer,
{
}

/// Giving the lock back undoes taking it: the same threads are active, and the
/// same wait, as before the thread joined.
pub proof fn law_unlock_undoes_lock(c: LockCoordinator)
    requires
        c.sound(),
        c.waiting_readers < usize::MAX,
        c.waiting_writers < usize::MAX,
        c.active_readers < usize::MAX,
    ensures
        ({
            let d = c.read_waited().read_locked(true).read_unlocked();
            &&& d.active_readers == c.active_readers
            &&& d.active_writers == c.active_writers
            &&& d.waiting_readers == c.waiting_readers
            &&& d.waiting_writers == c.waiting_writers
            &&& d.data_count == c.data_count
        }),
        c.idle() ==> {
            let d = c.write_waited().write_locked(true).write_unlocked(c.data_count);
            &&& d.active_readers == c.active_readers
            &&& d.active_writers == c.active_writers
            &&& d.waiting_readers == c.waiting_readers
            &&& d.waiting_writers == c.waiting_writers
            &&& d.data_count == c.data_count
        },
        c.read_waited().read_locked(false) == c,
        c.write_waited().write_locked(false) == c,
{
}

} // verus!
