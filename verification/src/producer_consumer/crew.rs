//! All actors of a run together, with their buffer and the board.
use vstd::prelude::*;

use crate::color::Rgb;
use crate::producer_consumer::board::Board;
use crate::producer_consumer::queue::{Buffer, QueueItem};
use crate::producer_consumer::worker::{ActorPhase, ConsumerWorker, ProducerWorker};

verus! {

/// A run: the buffer, the board and the actors, with the items that were put
/// into the buffer and taken out of it so far.
#[verifier::ext_equal]
pub struct Crew {
    pub buffer: Buffer,
    pub board: Board,
    pub producers: Seq<ProducerWorker>,
    pub consumers: Seq<ConsumerWorker>,
    pub put: Seq<QueueItem>,
    pub taken: Seq<QueueItem>,
}

/// Something that happens in a run, to the actor with a number.
pub enum Event {
    /// A producer has waited for its turn or slept.
    ProducerProceed { id: int, running: bool, tint: Rgb },
    /// A producer joins the waiting for the buffer.
    ProducerWait { id: int },
    /// A producer stops waiting, with the buffer if the run goes on.
    ProducerBegin { id: int, running: bool },
    /// A producer puts its item in.
    ProducerCommit { id: int },
    /// A consumer has waited for its turn or slept.
    ConsumerProceed { id: int, running: bool },
    /// A consumer joins the waiting for the buffer.
    ConsumerWait { id: int },
    /// A consumer stops waiting, with an item if the run goes on.
    ConsumerBegin { id: int, running: bool },
    /// A consumer unlocks the buffer.
    ConsumerCommit { id: int },
}

impl ActorPhase {
    /// The slot that a holder of the buffer works at.
    pub open spec fn slot(self) -> int {
        match self {
            ActorPhase::Moving(slot, _) => slot as int,
            ActorPhase::Resting(slot, _) => slot as int,
            ActorPhase::Committing(slot) => slot as int,
            _ => -1,
        }
    }

    /// A wait for a turn or a sleep is what the actor is at.
    pub open spec fn proceeds(self) -> bool {
        self is Turn || self is Thinking || self is Moving || self is Resting
    }
}

impl Crew {
    /// The invariant of a run: one actor at most holds the buffer, and it is
    /// locked then; a producer that does has the first free slot; and what was
    /// taken, followed by what is in the buffer, is what was put in.
    pub open spec fn sound(self) -> bool {
        &&& self.buffer.sound()
        &&& forall|i: int|
            0 <= i < self.producers.len() ==> (#[trigger] self.producers[i]).phase.valid()
        &&& forall|i: int|
            0 <= i < self.consumers.len() ==> (#[trigger] self.consumers[i]).phase.valid()
        &&& forall|i: int|
            0 <= i < self.producers.len() && (#[trigger] self.producers[i]).phase.holding()
                ==> self.buffer.locked && self.producers[i].phase.slot() == self.buffer.last
                && self.buffer.count < self.buffer.capacity()
        &&& forall|i: int|
            0 <= i < self.consumers.len() && (#[trigger] self.consumers[i]).phase.holding()
                ==> self.buffer.locked
        &&& forall|i: int, j: int|
            #![trigger self.producers[i], self.producers[j]]
            0 <= i < self.producers.len() && 0 <= j < self.producers.len()
                && self.producers[i].phase.holding() && self.producers[j].phase.holding() ==> i == j
        &&& forall|i: int, j: int|
            #![trigger self.consumers[i], self.consumers[j]]
            0 <= i < self.consumers.len() && 0 <= j < self.consumers.len()
                && self.consumers[i].phase.holding() && self.consumers[j].phase.holding() ==> i == j
        &&& forall|i: int, j: int|
            #![trigger self.producers[i], self.consumers[j]]
            0 <= i < self.producers.len() && 0 <= j < self.consumers.len() ==> !(
            self.producers[i].phase.holding() && self.consumers[j].phase.holding())
        &&& self.taken + self.buffer.contents() == self.put
    }

    /// An actor takes part in an event only in the phase it belongs to, begins
    /// only when nothing blocks it, and numbers an item only while there are
    /// numbers left.
    pub open spec fn allows(self, event: Event) -> bool {
        match event {
            Event::ProducerProceed { id, running, tint } => {
                &&& 0 <= id < self.producers.len()
                &&& self.producers[id].phase.proceeds()
                &&& self.producers[id].phase is Turn && running ==> self.producers[id].item_seq
                    < u64::MAX
            },
            Event::ProducerWait { id } => {
                &&& 0 <= id < self.producers.len()
                &&& self.producers[id].phase is Queueing
            },
            Event::ProducerBegin { id, running } => {
                &&& 0 <= id < self.producers.len()
                &&& self.producers[id].phase is Queueing
                &&& running ==> !self.buffer.producer_blocked()
            },
            Event::ProducerCommit { id } => {
                &&& 0 <= id < self.producers.len()
                &&& self.producers[id].phase is Committing
            },
            Event::ConsumerProceed { id, running } => {
                &&& 0 <= id < self.consumers.len()
                &&& self.consumers[id].phase.proceeds()
            },
            Event::ConsumerWait { id } => {
                &&& 0 <= id < self.consumers.len()
                &&& self.consumers[id].phase is Queueing
            },
            Event::ConsumerBegin { id, running } => {
                &&& 0 <= id < self.consumers.len()
                &&& self.consumers[id].phase is Queueing
                &&& running ==> !self.buffer.consumer_blocked()
            },
            Event::ConsumerCommit { id } => {
                &&& 0 <= id < self.consumers.len()
                &&& self.consumers[id].phase is Committing
            },
        }
    }

    /// The run after an event.
    pub open spec fn after(self, event: Event) -> Crew {
        match event {
            Event::ProducerProceed { id, running, tint } => {
                let (w, board, _) = self.producers[id].proceeded(running, tint, self.board);
                Crew { board, producers: self.producers.update(id, w), ..self }
            },
            Event::ProducerWait { id } => Crew {
                buffer: Buffer {
                    waiting_producers: self.buffer.waiting_producers + 1,
                    ..self.buffer
                },
                ..self
            },
            Event::ProducerBegin { id, running } => {
                let buffer = self.buffer.producer_begun(running);
                let grant = if running {
                    Some((self.buffer.last as usize, buffer.picture()))
                } else {
                    None
                };
                let (w, board, _) = self.producers[id].granted(grant, self.board);
                Crew { buffer, board, producers: self.producers.update(id, w), ..self }
            },
            Event::ProducerCommit { id } => {
                let item = self.producers[id].item;
                let buffer = self.buffer.producer_committed(self.producers[id].phase.slot(), item);
                let (w, board, _) = self.producers[id].finished(buffer.picture(), self.board);
                Crew {
                    buffer,
                    board,
                    producers: self.producers.update(id, w),
                    put: self.put.push(item),
                    ..self
                }
            },
            Event::ConsumerProceed { id, running } => {
                let (w, board, _) = self.consumers[id].proceeded(running, self.board);
                Crew { board, consumers: self.consumers.update(id, w), ..self }
            },
            Event::ConsumerWait { id } => Crew {
                buffer: Buffer {
                    waiting_consumers: self.buffer.waiting_consumers + 1,
                    ..self.buffer
                },
                ..self
            },
            Event::ConsumerBegin { id, running } => {
                let buffer = self.buffer.consumer_begun(running);
                let item = self.buffer.slots[self.buffer.first]->0;
                let grant = if running {
                    Some((self.buffer.first as usize, item, buffer.picture()))
                } else {
                    None
                };
                let (w, board, _) = self.consumers[id].granted(grant, self.board);
                Crew {
                    buffer,
                    board,
                    consumers: self.consumers.update(id, w),
                    taken: if running {
                        self.taken.push(item)
                    } else {
                        self.taken
                    },
                    ..self
                }
            },
            Event::ConsumerCommit { id } => {
                let buffer = self.buffer.unlocked();
                let (w, board, _) = self.consumers[id].finished(buffer.picture(), self.board);
                Crew { buffer, board, consumers: self.consumers.update(id, w), ..self }
            },
        }
    }

    /// The run after a series of events.
    pub open spec fn after_all(self, events: Seq<Event>) -> Crew
        decreases events.len(),
    {
        if events.len() == 0 {
            self
        } else {
            self.after_all(events.drop_last()).after(events.last())
        }
    }

    /// Every event of a series is allowed when it happens.
    pub open spec fn allows_all(self, events: Seq<Event>) -> bool
        decreases events.len(),
    {
        events.len() == 0 || self.allows_all(events.drop_last()) && self.after_all(
            events.drop_last(),
        ).allows(events.last())
    }
}

/// A run starts sound: the buffer is empty and everybody waits for a turn.
pub proof fn law_runs_start_sound(c: Crew)
    requires
        c.buffer.sound(),
        c.buffer.count == 0,
        c.put == Seq::<QueueItem>::empty(),
        c.taken == Seq::<QueueItem>::empty(),
        forall|i: int|
            0 <= i < c.producers.len() ==> (#[trigger] c.producers[i]).phase == ActorPhase::Turn,
        forall|i: int|
            0 <= i < c.consumers.len() ==> (#[trigger] c.consumers[i]).phase == ActorPhase::Turn,
    ensures
        c.sound(),
{
    assert(c.taken + c.buffer.contents() =~= c.put);
}

/// Every event keeps a run sound.
pub proof fn law_events_keep_runs_sound(c: Crew, event: Event)
    requires
        c.sound(),
        c.allows(event),
    ensures
        c.after(event).sound(),
{
    let d = c.after(event);
    match event {
        Event::ProducerProceed { id, running, tint } => {
            crate::producer_consumer::worker::law_producer_keeps_the_buffer(
                c.producers[id],
                running,
                tint,
                c.board,
            );
        },
        Event::ConsumerProceed { id, running } => {
            crate::producer_consumer::worker::law_consumer_keeps_the_buffer(
                c.consumers[id],
                running,
                c.board,
            );
        },
        Event::ProducerCommit { id } => {
            crate::producer_consumer::laws::law_commit_appends(c.buffer, c.producers[id].item);
            assert(d.taken + d.buffer.contents() =~= d.put);
        },
        Event::ConsumerBegin { id, running } => {
            crate::producer_consumer::laws::law_begin_takes_oldest(c.buffer, running);
            assert(d.taken + d.buffer.contents() =~= d.put);
        },
        _ => {
            crate::producer_consumer::laws::law_waiting_keeps_contents(c.buffer, d.buffer);
        },
    }
}

/// A run stays sound, however its actors are interleaved.
pub proof fn law_runs_stay_sound(c: Crew, events: Seq<Event>)
    requires
        c.sound(),
        c.allows_all(events),
    ensures
        c.after_all(events).sound(),
    decreases events.len(),
{
    if events.len() > 0 {
        law_runs_stay_sound(c, events.drop_last());
        law_events_keep_runs_sound(c.after_all(events.drop_last()), events.last());
    }
}

/// Consumers take the items in the order in which producers put them in, each
/// once: what was taken is the beginning of what was put in.
pub proof fn law_items_are_taken_in_order(c: Crew)
    requires
        c.sound(),
    ensures
        c.taken.len() <= c.put.len(),
        c.taken == c.put.take(c.taken.len() as int),
        c.put.len() - c.taken.len() <= c.buffer.capacity(),
{
    assert(c.taken =~= c.put.take(c.taken.len() as int));
}

} // verus!
