//! What holds of the buffer as a whole.
use vstd::prelude::*;

use crate::producer_consumer::board::ActorKind;
use crate::producer_consumer::queue::{Buffer, QueueItem};

verus! {

/// Putting an item into the last slot of a buffer that is not full appends it.
pub proof fn law_commit_appends(b: Buffer, item: QueueItem)
    requires
        b.sound(),
        b.count < b.capacity(),
    ensures
        b.producer_committed(b.last, item).sound(),
        b.producer_committed(b.last, item).contents() == b.contents().push(item),
{
    let c = b.producer_committed(b.last, item);
    assert forall|k: int| 0 <= k < c.capacity() implies (c.slots[#[trigger] c.slot_of(k)] is Some
        <==> k < c.count) by {
        assert(b.slot_of(k) == c.slot_of(k));
    }
    assert forall|k: int| 0 <= k < c.count implies #[trigger] c.contents()[k]
        == b.contents().push(item)[k] by {
        assert(b.slot_of(k) == c.slot_of(k));
    }
    assert(c.contents() =~= b.contents().push(item));
}

/// A consumer that begins takes the oldest item out, and leaves the rest.
pub proof fn law_begin_takes_oldest(b: Buffer, running: bool)
    requires
        b.sound(),
        running ==> b.count > 0,
    ensures
        b.consumer_begun(running).sound(),
        running ==> b.slots[b.first] == Some(b.contents().first()),
        b.consumer_begun(running).contents() == (if running {
            b.contents().drop_first()
        } else {
            b.contents()
        }),
{
    let c = b.consumer_begun(running);
    assert(b.slot_of(0) == b.wrap(b.first));
    if running {
        assert forall|k: int| 0 <= k < c.capacity() implies (c.slots[#[trigger] c.slot_of(k)] is Some
            <==> k < c.count) by {
            if k + 1 < b.capacity() {
                assert(b.slot_of(k + 1) == c.slot_of(k));
            } else {
                assert(b.slot_of(0) == c.slot_of(k));
            }
        }
        assert forall|k: int| 0 <= k < c.count implies #[trigger] c.contents()[k]
            == b.contents().drop_first()[k] by {
            assert(b.slot_of(k + 1) == c.slot_of(k));
        }
        assert(c.contents() =~= b.contents().drop_first());
    } else {
        assert forall|k: int| 0 <= k < c.capacity() implies (c.slots[#[trigger] c.slot_of(k)] is Some
            <==> k < c.count) by {
            assert(b.slot_of(k) == c.slot_of(k));
        }
        assert(c.contents() =~= b.contents());
    }
}

/// Joining or leaving the waiting, locking and unlocking leave the items alone.
pub proof fn law_waiting_keeps_contents(b: Buffer, c: Buffer)
    requires
        b.sound(),
        c.slots == b.slots,
        c.first == b.first,
        c.last == b.last,
        c.count == b.count,
    ensures
        c.sound(),
        c.contents() == b.contents(),
{
    assert forall|k: int| 0 <= k < c.capacity() implies (c.slots[#[trigger] c.slot_of(k)] is Some
        <==> k < c.count) by {
        assert(b.slot_of(k) == c.slot_of(k));
    }
    assert(c.contents() =~= b.contents());
}

/// Whoever has begun has the buffer to itself: until it commits, nobody else
/// can begin.
pub proof fn law_one_holder(b: Buffer)
    ensures
        b.producer_begun(true).producer_blocked(),
        b.producer_begun(true).consumer_blocked(),
        b.consumer_begun(true).producer_blocked(),
        b.consumer_begun(true).consumer_blocked(),
{
}

/// The buffer never blocks both sides for good: while nobody holds it, a
/// producer or a consumer can begin.
pub proof fn law_never_all_blocked(b: Buffer)
    requires
        b.capacity() > 0,
        !b.locked,
    ensures
        !(b.producer_blocked() && b.consumer_blocked()),
{
}

/// Nobody sleeps through its chance: after either commit somebody is woken on
/// each side that waits and is not blocked any more. One is enough, since
/// whoever begins keeps everybody else out, and wakes somebody in turn.
pub proof fn law_no_wakeup_is_lost(b: Buffer, slot: int, item: QueueItem)
    ensures
        ({
            let c = b.producer_committed(slot, item);
            let wake = ActorKind::Producer.woken();
            &&& c.waiting_producers > 0 && !c.producer_blocked() ==> wake.producers.reaches(
                c.waiting_producers,
            ) > 0
            &&& c.waiting_consumers > 0 && !c.consumer_blocked() ==> wake.consumers.reaches(
                c.waiting_consumers,
            ) > 0
        }),
        ({
            let c = b.unlocked();
            let wake = ActorKind::Consumer.woken();
            &&& c.waiting_producers > 0 && !c.producer_blocked() ==> wake.producers.reaches(
                c.waiting_producers,
            ) > 0
            &&& c.waiting_consumers > 0 && !c.consumer_blocked() ==> wake.consumers.reaches(
                c.waiting_consumers,
            ) > 0
        }),
{
}

/// A whole visit to the buffer.
pub enum Visit {
    Put(QueueItem),
    Take,
}

impl Buffer {
    /// The visit can begin.
    pub open spec fn admits(self, visit: Visit) -> bool {
        match visit {
            Visit::Put(_) => !self.producer_blocked(),
            Visit::Take => !self.consumer_blocked(),
        }
    }

    /// The buffer after a visit, from its beginning to its commit.
    pub open spec fn visited(self, visit: Visit) -> Buffer {
        match visit {
            Visit::Put(item) => self.producer_begun(true).producer_committed(self.last, item),
            Visit::Take => self.consumer_begun(true).unlocked(),
        }
    }

    /// The buffer after a series of visits.
    pub open spec fn after(self, visits: Seq<Visit>) -> Buffer
        decreases visits.len(),
    {
        if visits.len() == 0 {
            self
        } else {
            self.after(visits.drop_last()).visited(visits.last())
        }
    }

    /// Each visit can begin when its turn comes.
    pub open spec fn admits_all(self, visits: Seq<Visit>) -> bool
        decreases visits.len(),
    {
        visits.len() == 0 || self.admits_all(visits.drop_last()) && self.after(
            visits.drop_last(),
        ).admits(visits.last())
    }

    /// The items that a series of visits takes out, in that order.
    pub open spec fn taken(self, visits: Seq<Visit>) -> Seq<QueueItem>
        decreases visits.len(),
    {
        if visits.len() == 0 {
            Seq::empty()
        } else {
            let before = self.taken(visits.drop_last());
            match visits.last() {
                Visit::Put(_) => before,
                Visit::Take => before.push(self.after(visits.drop_last()).contents().first()),
            }
        }
    }
}

/// The items that a series of visits puts in, in that order.
pub open spec fn put(visits: Seq<Visit>) -> Seq<QueueItem>
    decreases visits.len(),
{
    if visits.len() == 0 {
        Seq::empty()
    } else {
        let before = put(visits.drop_last());
        match visits.last() {
            Visit::Put(item) => before.push(item),
            Visit::Take => before,
        }
    }
}

/// First in, first out: what has been taken out, followed by what is still in
/// the buffer, is what was in it at first followed by what was put in. The
/// buffer never holds more than its capacity.
pub proof fn law_first_in_first_out(b: Buffer, visits: Seq<Visit>)
    requires
        b.sound(),
        b.admits_all(visits),
    ensures
        b.after(visits).sound(),
        b.after(visits).capacity() == b.capacity(),
        b.after(visits).contents().len() <= b.capacity(),
        b.taken(visits) + b.after(visits).contents() == b.contents() + put(visits),
    decreases visits.len(),
{
    if visits.len() == 0 {
        assert(b.taken(visits) + b.contents() =~= b.contents() + put(visits));
    } else {
        let before = visits.drop_last();
        law_first_in_first_out(b, before);
        let c = b.after(before);
        match visits.last() {
            Visit::Put(item) => {
                let d = c.producer_begun(true);
                law_waiting_keeps_contents(c, d);
                law_commit_appends(d, item);
                assert(b.taken(visits) + b.after(visits).contents() =~= (b.taken(before)
                    + c.contents()).push(item));
                assert(b.contents() + put(visits) =~= (b.contents() + put(before)).push(item));
            },
            Visit::Take => {
                law_begin_takes_oldest(c, true);
                law_waiting_keeps_contents(c.consumer_begun(true), c.consumer_begun(true).unlocked());
                assert(b.taken(visits) + b.after(visits).contents() =~= b.taken(before)
                    + c.contents());
            },
        }
    }
}

} // verus!
