//! The bounded circular buffer.
//!
//! An actor joins the waiting, begins once it is not blocked, which locks the
//! buffer for the time its item is seen moving, and commits, which unlocks it.
use vstd::prelude::*;

use crate::color::Rgb;
use crate::producer_consumer::board::ActorKind;

verus! {

/// An item in the buffer.
#[derive(Clone, Copy, Debug, PartialEq, Eq, Structural)]
pub struct QueueItem {
    pub id: u64,
    pub color: Rgb,
    pub producer_id: usize,
}

/// A picture of the buffer.
#[derive(Debug)]
pub struct QueueSnapshot {
    pub slots: Vec<Option<QueueItem>>,
    pub count: usize,
    pub waiting_producers: usize,
    pub waiting_consumers: usize,
}

/// The buffer.
#[derive(Debug)]
pub struct BoundedQueue {
    pub slots: Vec<Option<QueueItem>>,
    pub first: usize,
    pub last: usize,
    pub count: usize,
    pub waiting_producers: usize,
    pub waiting_consumers: usize,
    pub locked_for_animation: bool,
}

/// How many of those who wait on one side are woken.
#[derive(Clone, Copy, Debug, PartialEq, Eq, Structural)]
pub enum Call {
    One,
    All,
}

/// Whom a commit wakes on either side.
#[derive(Clone, Copy, Debug, PartialEq, Eq, Structural)]
pub struct QueueWake {
    pub producers: Call,
    pub consumers: Call,
}

/// The buffer as a mathematical value.
#[verifier::ext_equal]
pub struct Buffer {
    pub slots: Seq<Option<QueueItem>>,
    pub first: int,
    pub last: int,
    pub count: int,
    pub waiting_producers: int,
    pub waiting_consumers: int,
    pub locked: bool,
}

/// A picture of the buffer as a mathematical value.
#[verifier::ext_equal]
pub struct Picture {
    pub slots: Seq<Option<QueueItem>>,
    pub count: int,
    pub waiting_producers: int,
    pub waiting_consumers: int,
}

impl View for BoundedQueue {
    type V = Buffer;

    open spec fn view(&self) -> Buffer {
        Buffer {
            slots: self.slots@,
            first: self.first as int,
            last: self.last as int,
            count: self.count as int,
            waiting_producers: self.waiting_producers as int,
            waiting_consumers: self.waiting_consumers as int,
            locked: self.locked_for_animation,
        }
    }
}

impl View for QueueSnapshot {
    type V = Picture;

    open spec fn view(&self) -> Picture {
        Picture {
            slots: self.slots@,
            count: self.count as int,
            waiting_producers: self.waiting_producers as int,
            waiting_consumers: self.waiting_consumers as int,
        }
    }
}

/// One fewer, but never fewer than none.
pub open spec fn one_fewer(n: int) -> int {
    if n > 0 {
        n - 1
    } else {
        0
    }
}

impl ActorKind {
    /// Whom the commit of an actor of the kind wakes: one on the side that it
    /// serves, all on its own.
    pub open spec fn woken(self) -> QueueWake {
        match self {
            ActorKind::Producer => QueueWake { producers: Call::All, consumers: Call::One },
            ActorKind::Consumer => QueueWake { producers: Call::One, consumers: Call::All },
        }
    }

    /// Whom the commit of an actor of the kind wakes.
    pub fn wake(self) -> (wake: QueueWake)
        ensures
            wake == self.woken(),
            wake.producers == Call::All <==> self == ActorKind::Producer,
            wake.consumers == Call::All <==> self == ActorKind::Consumer,
    {
        match self {
            ActorKind::Producer => QueueWake { producers: Call::All, consumers: Call::One },
            ActorKind::Consumer => QueueWake { producers: Call::One, consumers: Call::All },
        }
    }
}

impl Call {
    /// How many of `waiting` are woken.
    pub open spec fn reaches(self, waiting: int) -> int {
        match self {
            Call::One => if waiting > 0 {
                1
            } else {
                0
            },
            Call::All => waiting,
        }
    }
}

impl Buffer {
    /// How many slots there are.
    pub open spec fn capacity(self) -> int {
        self.slots.len() as int
    }

    /// A place on the ring, counted past the end.
    pub open spec fn wrap(self, i: int) -> int {
        if i < self.capacity() {
            i
        } else {
            i - self.capacity()
        }
    }

    /// The slot of the item that has `k` items before it.
    pub open spec fn slot_of(self, k: int) -> int {
        self.wrap(self.first + k)
    }

    /// The invariant: the items fill the slots from the first on, without a
    /// gap, and no others; the last slot is the one after them.
    pub open spec fn sound(self) -> bool {
        &&& self.capacity() <= usize::MAX
        &&& 0 <= self.count <= self.capacity()
        &&& self.capacity() == 0 ==> self.first == 0 && self.last == 0
        &&& self.capacity() > 0 ==> 0 <= self.first < self.capacity() && self.last == self.slot_of(
            self.count,
        )
        &&& forall|k: int|
            0 <= k < self.capacity() ==> (self.slots[#[trigger] self.slot_of(k)] is Some <==> k
                < self.count)
    }

    /// The items in the buffer, the oldest first.
    pub open spec fn contents(self) -> Seq<QueueItem> {
        Seq::new(self.count as nat, |k: int| self.slots[self.slot_of(k)]->0)
    }

    /// The picture of the buffer.
    pub open spec fn picture(self) -> Picture {
        Picture {
            slots: self.slots,
            count: self.count,
            waiting_producers: self.waiting_producers,
            waiting_consumers: self.waiting_consumers,
        }
    }

    /// A producer has to wait: the buffer is full, or locked.
    pub open spec fn producer_blocked(self) -> bool {
        self.count == self.capacity() || self.locked
    }

    /// A consumer has to wait: the buffer is empty, or locked.
    pub open spec fn consumer_blocked(self) -> bool {
        self.count == 0 || self.locked
    }

    /// The buffer after a producer has stopped waiting, and locked it if the
    /// run goes on.
    pub open spec fn producer_begun(self, running: bool) -> Buffer {
        Buffer {
            waiting_producers: one_fewer(self.waiting_producers),
            locked: self.locked || running,
            ..self
        }
    }

    /// The buffer after a producer has put an item into a slot.
    pub open spec fn producer_committed(self, slot: int, item: QueueItem) -> Buffer {
        Buffer {
            slots: self.slots.update(slot, Some(item)),
            last: self.wrap(self.last + 1),
            count: self.count + 1,
            locked: false,
            ..self
        }
    }

    /// The buffer after a consumer has stopped waiting, and, if the run goes
    /// on, locked it and taken the oldest item out.
    pub open spec fn consumer_begun(self, running: bool) -> Buffer {
        let left = Buffer { waiting_consumers: one_fewer(self.waiting_consumers), ..self };
        if running {
            Buffer {
                slots: self.slots.update(self.first, None),
                first: self.wrap(self.first + 1),
                count: self.count - 1,
                locked: true,
                ..left
            }
        } else {
            left
        }
    }

    /// The buffer after it was unlocked.
    pub open spec fn unlocked(self) -> Buffer {
        Buffer { locked: false, ..self }
    }
}

proof fn lemma_ring_successor(i: int, n: int)
    requires
        0 <= i < n,
    ensures
        (i + 1) % n == (if i + 1 < n {
            i + 1
        } else {
            i + 1 - n
        }),
{
    if i + 1 < n {
        vstd::arithmetic::div_mod::lemma_small_mod((i + 1) as nat, n as nat);
    } else {
        vstd::arithmetic::div_mod::lemma_mod_self_0(n);
    }
}

impl BoundedQueue {
    /// An empty buffer with `capacity` slots.
    pub fn new(capacity: usize) -> (q: Self)
        ensures
            q@.sound(),
            q@.capacity() == capacity,
            q@ == (Buffer {
                slots: Seq::new(capacity as nat, |i: int| None),
                first: 0,
                last: 0,
                count: 0,
                waiting_producers: 0,
                waiting_consumers: 0,
                locked: false,
            }),
            q@.contents() == Seq::<QueueItem>::empty(),
    {
        let mut slots: Vec<Option<QueueItem>> = Vec::new();
        let mut i: usize = 0;
        while i < capacity
            invariant
                i <= capacity,
                slots@.len() == i,
                forall|k: int| 0 <= k < i ==> (#[trigger] slots@[k]) is None,
            decreases capacity - i,
        {
            slots.push(None);
            i = i + 1;
        }
        BoundedQueue {
            slots,
            first: 0,
            last: 0,
            count: 0,
            waiting_producers: 0,
            waiting_consumers: 0,
            locked_for_animation: false,
        }
    }

    /// A picture of the buffer.
    pub fn snapshot(&self) -> (s: QueueSnapshot)
        ensures
            s@ == self@.picture(),
            s.slots@ == self.slots@,
            s.count == self.count,
            s.waiting_producers == self.waiting_producers,
            s.waiting_consumers == self.waiting_consumers,
    {
        let mut slots: Vec<Option<QueueItem>> = Vec::new();
        let mut i: usize = 0;
        while i < self.slots.len()
            invariant
                i <= self.slots@.len(),
                slots@ == self.slots@.take(i as int),
            decreases self.slots@.len() - i,
        {
            slots.push(self.slots[i]);
            i = i + 1;
            assert(slots@ =~= self.slots@.take(i as int));
        }
        assert(self.slots@.take(i as int) =~= self.slots@);
        QueueSnapshot {
            slots,
            count: self.count,
            waiting_producers: self.waiting_producers,
            waiting_consumers: self.waiting_consumers,
        }
    }

    /// A producer joins the waiting.
    pub fn producer_wait(&mut self)
        requires
            old(self).waiting_producers < usize::MAX,
        ensures
            final(self)@ == (Buffer {
                waiting_producers: old(self)@.waiting_producers + 1,
                ..old(self)@
            }),
            old(self)@.sound() ==> final(self)@.sound() && final(self)@.contents()
                == old(self)@.contents(),
    {
        self.waiting_producers = self.waiting_producers + 1;
        proof {
            if old(self)@.sound() {
                crate::producer_consumer::laws::law_waiting_keeps_contents(old(self)@, self@);
            }
        }
    }

    /// Whether a producer has to wait.
    pub fn producer_blocked(&self) -> (r: bool)
        ensures
            r == self@.producer_blocked(),
            self@.sound() ==> (r <==> self.locked_for_animation || self@.contents().len()
                == self.slots@.len()),
    {
        self.count == self.slots.len() || self.locked_for_animation
    }

    /// A producer stops waiting, because nothing blocks it or the run is over.
    /// If the run goes on it locks the buffer and learns its slot.
    pub fn producer_begin(&mut self, running: bool) -> (r: Option<(usize, QueueSnapshot)>)
        requires
            old(self)@.sound(),
            running ==> !old(self)@.producer_blocked(),
        ensures
            final(self)@ == old(self)@.producer_begun(running),
            final(self).slots@ == old(self).slots@,
            final(self).first == old(self).first,
            final(self).last == old(self).last,
            final(self).count == old(self).count,
            final(self).waiting_consumers == old(self).waiting_consumers,
            old(self).waiting_producers > 0 ==> final(self).waiting_producers
                == old(self).waiting_producers - 1,
            running ==> final(self).locked_for_animation,
            !running ==> final(self).locked_for_animation == old(self).locked_for_animation,
            final(self)@.sound(),
            r is Some <==> running,
            r matches Some((slot, picture)) ==> slot == old(self)@.last && slot
                < old(self)@.capacity() && picture@ == final(self)@.picture(),
            final(self)@.contents() == old(self)@.contents(),
    {
        self.waiting_producers = self.waiting_producers.saturating_sub(1);
        if !running {
            proof {
                crate::producer_consumer::laws::law_waiting_keeps_contents(old(self)@, self@);
            }
            return None;
        }
        self.locked_for_animation = true;
        proof {
            crate::producer_consumer::laws::law_waiting_keeps_contents(old(self)@, self@);
        }
        let slot: usize = self.last;
        let picture = self.snapshot();
        Some((slot, picture))
    }

    /// A producer puts its item into the slot it was given, and unlocks.
    pub fn producer_commit(&mut self, slot_idx: usize, item: QueueItem) -> (s: QueueSnapshot)
        requires
            old(self)@.sound(),
            slot_idx < old(self)@.capacity(),
            old(self).count < usize::MAX,
        ensures
            final(self)@ == old(self)@.producer_committed(slot_idx as int, item),
            final(self).slots@ == old(self).slots@.update(slot_idx as int, Some(item)),
            final(self).first == old(self).first,
            final(self).last == (old(self).last + 1) % old(self).slots@.len() as int,
            final(self).count == old(self).count + 1,
            final(self).waiting_producers == old(self).waiting_producers,
            final(self).waiting_consumers == old(self).waiting_consumers,
            !final(self).locked_for_animation,
            s@ == final(self)@.picture(),
            slot_idx == old(self)@.last && old(self)@.count < old(self)@.capacity() ==> {
                &&& final(self)@.sound()
                &&& final(self)@.contents() == old(self)@.contents().push(item)
            },
    {
        proof {
            lemma_ring_successor(self.last as int, self.slots@.len() as int);
        }
        self.slots.set(slot_idx, Some(item));
        self.last = (self.last + 1) % self.slots.len();
        self.count = self.count + 1;
        self.locked_for_animation = false;
        proof {
            if slot_idx == old(self)@.last && old(self)@.count < old(self)@.capacity() {
                crate::producer_consumer::laws::law_commit_appends(old(self)@, item);
            }
        }
        self.snapshot()
    }

    /// A consumer joins the waiting.
    pub fn consumer_wait(&mut self)
        requires
            old(self).waiting_consumers < usize::MAX,
        ensures
            final(self)@ == (Buffer {
                waiting_consumers: old(self)@.waiting_consumers + 1,
                ..old(self)@
            }),
            old(self)@.sound() ==> final(self)@.sound() && final(self)@.contents()
                == old(self)@.contents(),
    {
        self.waiting_consumers = self.waiting_consumers + 1;
        proof {
            if old(self)@.sound() {
                crate::producer_consumer::laws::law_waiting_keeps_contents(old(self)@, self@);
            }
        }
    }

    /// Whether a consumer has to wait.
    pub fn consumer_blocked(&self) -> (r: bool)
        ensures
            r == self@.consumer_blocked(),
            self@.sound() ==> (r <==> self.locked_for_animation || self@.contents().len() == 0),
    {
        self.count == 0 || self.locked_for_animation
    }

    /// A consumer stops waiting, because nothing blocks it or the run is over.
    /// If the run goes on it locks the buffer and takes the oldest item out.
    pub fn consumer_begin(&mut self, running: bool) -> (r: Option<
        (usize, QueueItem, QueueSnapshot),
    >)
        requires
            old(self)@.sound(),
            running ==> !old(self)@.consumer_blocked(),
        ensures
            final(self)@ == old(self)@.consumer_begun(running),
            final(self).waiting_producers == old(self).waiting_producers,
            final(self).last == old(self).last,
            old(self).waiting_consumers > 0 ==> final(self).waiting_consumers
                == old(self).waiting_consumers - 1,
            running ==> {
                &&& final(self).locked_for_animation
                &&& final(self).slots@ == old(self).slots@.update(old(self).first as int, None)
                &&& final(self).first == (old(self).first + 1) % old(self).slots@.len() as int
                &&& final(self).count == old(self).count - 1
            },
            !running ==> {
                &&& final(self).locked_for_animation == old(self).locked_for_animation
                &&& final(self).slots@ == old(self).slots@
                &&& final(self).first == old(self).first
                &&& final(self).count == old(self).count
            },
            final(self)@.sound(),
            r is Some <==> running,
            r matches Some((slot, item, picture)) ==> {
                &&& slot == old(self)@.first
                &&& item == old(self)@.contents().first()
                &&& final(self)@.contents() == old(self)@.contents().drop_first()
                &&& picture@ == final(self)@.picture()
            },
    {
        proof {
            crate::producer_consumer::laws::law_begin_takes_oldest(old(self)@, running);
            if running {
                lemma_ring_successor(self.first as int, self.slots@.len() as int);
            }
        }
        self.waiting_consumers = self.waiting_consumers.saturating_sub(1);
        if !running {
            return None;
        }
        self.locked_for_animation = true;
        let slot: usize = self.first;
        assert(old(self)@.slot_of(0) == slot);
        let taken: Option<QueueItem> = self.slots[slot];
        self.slots.set(slot, None);
        match taken {
            Some(item) => {
                proof {
                    lemma_ring_successor(self.first as int, self.slots@.len() as int);
                }
                self.first = (self.first + 1) % self.slots.len();
                self.count = self.count.saturating_sub(1);
                let picture = self.snapshot();
                Some((slot, item, picture))
            },
            None => None,
        }
    }

    /// A consumer has received its item, and unlocks.
    pub fn consumer_commit(&mut self) -> (s: QueueSnapshot)
        ensures
            final(self)@ == old(self)@.unlocked(),
            !final(self).locked_for_animation,
            final(self).slots@ == old(self).slots@,
            final(self).first == old(self).first,
            final(self).last == old(self).last,
            final(self).count == old(self).count,
            final(self).waiting_producers == old(self).waiting_producers,
            final(self).waiting_consumers == old(self).waiting_consumers,
            s@ == final(self)@.picture(),
            old(self)@.sound() ==> final(self)@.sound() && final(self)@.contents()
                == old(self)@.contents(),
    {
        self.locked_for_animation = false;
        proof {
            if old(self)@.sound() {
                crate::producer_consumer::laws::law_waiting_keeps_contents(old(self)@, self@);
            }
        }
        self.snapshot()
    }
}

} // verus!
