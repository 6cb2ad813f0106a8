//! The state that the screen shows: the buffer, the actors, and the items on
//! their way.
use vstd::prelude::*;

use crate::color::{Rgb, Tone};
use crate::producer_consumer::config::{ProducerConsumerConfig, CAPACITY};
use crate::producer_consumer::queue::{Picture, QueueItem, QueueSnapshot};

verus! {

/// Which side of the buffer an actor is on.
#[derive(Clone, Copy, Debug, PartialEq, Eq, Structural)]
pub enum ActorKind {
    Producer,
    Consumer,
}

/// What an actor is doing.
#[derive(Clone, Copy, Debug, PartialEq, Eq, Structural)]
pub enum ActorState {
    ActiveColor,
    Waiting,
    HoldingLock,
    Stopped,
}

/// A slot of the buffer.
#[derive(Clone, Copy, Debug, PartialEq, Eq)]
pub struct QueueSlot {
    pub item: Option<QueueItem>,
}

/// The numbers shown beside the buffer.
#[derive(Clone, Copy, Debug, PartialEq, Eq, Structural)]
pub struct QueueStats {
    pub count: usize,
    pub waiting_producers: usize,
    pub waiting_consumers: usize,
}

/// An actor.
#[derive(Clone, Copy, Debug, PartialEq, Eq, Structural)]
pub struct ActorVisual {
    pub kind: ActorKind,
    pub id: usize,
    pub count: usize,
    pub color: Rgb,
    pub state: ActorState,
}

/// A landmark on the screen.
#[derive(Clone, Copy, Debug, PartialEq, Eq, Structural)]
pub enum Place {
    /// Where a producer's items appear.
    Producer(usize),
    /// The middle of a slot of the buffer.
    Slot(usize),
    /// Where a consumer's items disappear.
    Consumer(usize),
}

/// A point on the way between two landmarks: `step` parts of
/// `ANIMATION_STEPS`.
#[derive(Clone, Copy, Debug, PartialEq, Eq, Structural)]
pub struct ItemPosition {
    pub from: Place,
    pub to: Place,
    pub step: u32,
}

/// An item on its way.
#[derive(Clone, Copy, Debug, PartialEq, Eq, Structural)]
pub struct MovingItemVisual {
    pub id: u64,
    pub color: Rgb,
    pub position: ItemPosition,
}

/// The state that the screen shows.
#[derive(Debug)]
pub struct AppState {
    pub queue_slots: Vec<QueueSlot>,
    pub queue_stats: QueueStats,
    pub producers: Vec<ActorVisual>,
    pub consumers: Vec<ActorVisual>,
    pub moving_items: Vec<MovingItemVisual>,
}

/// The state that the screen shows, as a mathematical value.
#[verifier::ext_equal]
pub struct Board {
    pub slots: Seq<QueueSlot>,
    pub stats: QueueStats,
    pub producers: Seq<ActorVisual>,
    pub consumers: Seq<ActorVisual>,
    pub moving: Seq<MovingItemVisual>,
}

impl View for AppState {
    type V = Board;

    open spec fn view(&self) -> Board {
        Board {
            slots: self.queue_slots@,
            stats: self.queue_stats,
            producers: self.producers@,
            consumers: self.consumers@,
            moving: self.moving_items@,
        }
    }
}

/// The first of the items with an id, or their number if there is none.
pub open spec fn first_with(items: Seq<MovingItemVisual>, id: u64) -> int
    decreases items.len(),
{
    if items.len() == 0 {
        0
    } else if items[0].id == id {
        0
    } else {
        1 + first_with(items.drop_first(), id)
    }
}

/// An actor at the start of a run.
pub open spec fn fresh_actor(kind: ActorKind, id: int) -> ActorVisual {
    ActorVisual {
        kind,
        id: id as usize,
        count: 0,
        color: Tone::Black.color(),
        state: ActorState::Waiting,
    }
}

impl Board {
    /// The actors of a kind.
    pub open spec fn actors(self, kind: ActorKind) -> Seq<ActorVisual> {
        match kind {
            ActorKind::Producer => self.producers,
            ActorKind::Consumer => self.consumers,
        }
    }

    /// The board with one actor exchanged.
    pub open spec fn with_actor(self, kind: ActorKind, id: int, actor: ActorVisual) -> Board {
        match kind {
            ActorKind::Producer => Board { producers: self.producers.update(id, actor), ..self },
            ActorKind::Consumer => Board { consumers: self.consumers.update(id, actor), ..self },
        }
    }

    /// The board with an actor in another state and colour.
    pub open spec fn with_state(
        self,
        kind: ActorKind,
        id: int,
        state: ActorState,
        color: Rgb,
    ) -> Board {
        self.with_actor(kind, id, ActorVisual { state, color, ..self.actors(kind)[id] })
    }

    /// The board after an actor has handled one more item.
    pub open spec fn with_one_more(self, kind: ActorKind, id: int, color: Rgb) -> Board {
        let actor = self.actors(kind)[id];
        self.with_actor(
            kind,
            id,
            ActorVisual {
                count: (actor.count + 1) as usize,
                color,
                state: ActorState::ActiveColor,
                ..actor
            },
        )
    }

    /// The board showing a picture of the buffer.
    pub open spec fn showing(self, picture: Picture) -> Board {
        Board {
            slots: picture.slots.map_values(|item: Option<QueueItem>| QueueSlot { item }),
            stats: QueueStats {
                count: picture.count as usize,
                waiting_producers: picture.waiting_producers as usize,
                waiting_consumers: picture.waiting_consumers as usize,
            },
            ..self
        }
    }

    /// The board with one more item on its way.
    pub open spec fn with_moving(self, id: u64, color: Rgb, position: ItemPosition) -> Board {
        Board { moving: self.moving.push(MovingItemVisual { id, color, position }), ..self }
    }

    /// The board with the first item of an id at another point.
    pub open spec fn with_moved(self, id: u64, position: ItemPosition) -> Board {
        let k = first_with(self.moving, id);
        if k < self.moving.len() {
            Board {
                moving: self.moving.update(k, MovingItemVisual { position, ..self.moving[k] }),
                ..self
            }
        } else {
            self
        }
    }

    /// The board without the items of an id.
    pub open spec fn without_moving(self, id: u64) -> Board {
        Board { moving: self.moving.filter(|item: MovingItemVisual| item.id != id), ..self }
    }
}

/// Standing still at a landmark.
pub open spec fn position_at(place: Place) -> ItemPosition {
    ItemPosition { from: place, to: place, step: 0 }
}

impl ItemPosition {
    /// Standing still at a landmark.
    pub fn at(place: Place) -> (p: Self)
        ensures
            p == position_at(place),
            p.from == place,
            p.to == place,
            p.step == 0,
    {
        ItemPosition { from: place, to: place, step: 0 }
    }
}

fn fresh_actors(kind: ActorKind, n: usize) -> (actors: Vec<ActorVisual>)
    ensures
        actors@ == Seq::new(n as nat, |i: int| fresh_actor(kind, i)),
{
    let mut actors: Vec<ActorVisual> = Vec::new();
    let mut id: usize = 0;
    while id < n
        invariant
            id <= n,
            actors@ == Seq::new(id as nat, |i: int| fresh_actor(kind, i)),
        decreases n - id,
    {
        actors.push(
            ActorVisual {
                kind,
                id,
                count: 0,
                color: Tone::Black.rgb(),
                state: ActorState::Waiting,
            },
        );
        id = id + 1;
        assert(actors@ =~= Seq::new(id as nat, |i: int| fresh_actor(kind, i)));
    }
    actors
}

impl AppState {
    /// The board at the start of a run: an empty buffer, everybody waiting.
    pub fn new(config: &ProducerConsumerConfig) -> (app: Self)
        ensures
            app@ == (Board {
                slots: Seq::new(CAPACITY as nat, |i: int| QueueSlot { item: None }),
                stats: QueueStats { count: 0, waiting_producers: 0, waiting_consumers: 0 },
                producers: Seq::new(
                    config.producer_count as nat,
                    |i: int| fresh_actor(ActorKind::Producer, i),
                ),
                consumers: Seq::new(
                    config.consumer_count as nat,
                    |i: int| fresh_actor(ActorKind::Consumer, i),
                ),
                moving: Seq::empty(),
            }),
            app.queue_slots@.len() == 8,
            forall|k: int| 0 <= k < 8 ==> (#[trigger] app.queue_slots@[k]).item is None,
            app.producers@.len() == config.producer_count,
            app.consumers@.len() == config.consumer_count,
            app.moving_items@.len() == 0,
            forall|i: int|
                0 <= i < config.producer_count ==> (#[trigger] app.producers@[i]) == (ActorVisual {
                    kind: ActorKind::Producer,
                    id: i as usize,
                    count: 0,
                    color: Rgb { r: 0, g: 0, b: 0 },
                    state: ActorState::Waiting,
                }),
            forall|i: int|
                0 <= i < config.consumer_count ==> (#[trigger] app.consumers@[i]) == (ActorVisual {
                    kind: ActorKind::Consumer,
                    id: i as usize,
                    count: 0,
                    color: Rgb { r: 0, g: 0, b: 0 },
                    state: ActorState::Waiting,
                }),
    {
        let mut queue_slots: Vec<QueueSlot> = Vec::new();
        let mut i: usize = 0;
        while i < CAPACITY
            invariant
                i <= CAPACITY,
                queue_slots@ == Seq::new(i as nat, |k: int| QueueSlot { item: None }),
            decreases CAPACITY - i,
        {
            queue_slots.push(QueueSlot { item: None });
            i = i + 1;
            assert(queue_slots@ =~= Seq::new(i as nat, |k: int| QueueSlot { item: None }));
        }
        AppState {
            queue_slots,
            queue_stats: QueueStats { count: 0, waiting_producers: 0, waiting_consumers: 0 },
            producers: fresh_actors(ActorKind::Producer, config.producer_count),
            consumers: fresh_actors(ActorKind::Consumer, config.consumer_count),
            moving_items: Vec::new(),
        }
    }

    /// An actor, to be changed.
    pub fn actor_mut(&mut self, kind: ActorKind, id: usize) -> (actor: &mut ActorVisual)
        requires
            id < old(self)@.actors(kind).len(),
        ensures
            *actor == old(self)@.actors(kind)[id as int],
            final(self)@ == old(self)@.with_actor(kind, id as int, *final(actor)),
    {
        match kind {
            ActorKind::Producer => &mut self.producers[id],
            ActorKind::Consumer => &mut self.consumers[id],
        }
    }

    /// Puts an actor into another state and colour.
    pub fn set_actor(&mut self, kind: ActorKind, id: usize, state: ActorState, color: Rgb)
        requires
            id < old(self)@.actors(kind).len(),
        ensures
            final(self)@ == old(self)@.with_state(kind, id as int, state, color),
    {
        let actor = self.actor_mut(kind, id);
        actor.state = state;
        actor.color = color;
    }

    /// Counts one more item for an actor, which is active then.
    pub fn increment_actor_count(&mut self, kind: ActorKind, id: usize, color: Rgb)
        requires
            id < old(self)@.actors(kind).len(),
            old(self)@.actors(kind)[id as int].count < usize::MAX,
        ensures
            final(self)@ == old(self)@.with_one_more(kind, id as int, color),
    {
        let actor = self.actor_mut(kind, id);
        actor.count = actor.count + 1;
        actor.color = color;
        actor.state = ActorState::ActiveColor;
    }

    /// Shows a picture of the buffer.
    pub fn set_queue_snapshot(&mut self, snapshot: &QueueSnapshot)
        ensures
            final(self)@ == old(self)@.showing(snapshot@),
            final(self).queue_slots@.len() == snapshot.slots@.len(),
            forall|k: int|
                0 <= k < snapshot.slots@.len() ==> (#[trigger] final(self).queue_slots@[k]).item
                    == snapshot.slots@[k],
            final(self).queue_stats.count == snapshot.count,
            final(self).queue_stats.waiting_producers == snapshot.waiting_producers,
            final(self).queue_stats.waiting_consumers == snapshot.waiting_consumers,
    {
        let mut slots: Vec<QueueSlot> = Vec::new();
        let mut i: usize = 0;
        while i < snapshot.slots.len()
            invariant
                i <= snapshot.slots@.len(),
                slots@ == snapshot.slots@.take(i as int).map_values(
                    |item: Option<QueueItem>| QueueSlot { item },
                ),
            decreases snapshot.slots@.len() - i,
        {
            slots.push(QueueSlot { item: snapshot.slots[i] });
            i = i + 1;
            assert(slots@ =~= snapshot.slots@.take(i as int).map_values(
                |item: Option<QueueItem>| QueueSlot { item },
            ));
        }
        assert(snapshot.slots@.take(i as int) =~= snapshot.slots@);
        self.queue_slots = slots;
        self.queue_stats = QueueStats {
            count: snapshot.count,
            waiting_producers: snapshot.waiting_producers,
            waiting_consumers: snapshot.waiting_consumers,
        };
    }

    /// Shows one more item on its way.
    pub fn add_moving_item(&mut self, id: u64, color: Rgb, position: ItemPosition)
        ensures
            final(self)@ == old(self)@.with_moving(id, color, position),
    {
        self.moving_items.push(MovingItemVisual { id, color, position });
    }

    /// Moves the first item of an id to another point.
    pub fn move_item(&mut self, id: u64, position: ItemPosition)
        ensures
            final(self)@ == old(self)@.with_moved(id, position),
    {
        let mut i: usize = 0;
        assert(self.moving_items@.skip(0) =~= self.moving_items@);
        while i < self.moving_items.len()
            invariant
                i <= self.moving_items@.len(),
                self@ == old(self)@,
                first_with(self.moving_items@, id) == i + first_with(
                    self.moving_items@.skip(i as int),
                    id,
                ),
            decreases self.moving_items@.len() - i,
        {
            let item: MovingItemVisual = self.moving_items[i];
            assert(self.moving_items@.skip(i as int)[0] == item);
            if item.id == id {
                let moved = MovingItemVisual { id: item.id, color: item.color, position };
                self.moving_items.set(i, moved);
                return;
            }
            assert(self.moving_items@.skip(i as int).drop_first() =~= self.moving_items@.skip(
                i + 1,
            ));
            i = i + 1;
        }
    }

    /// Takes the items of an id off the screen.
    pub fn remove_moving_item(&mut self, id: u64)
        ensures
            final(self)@ == old(self)@.without_moving(id),
            final(self).moving_items@ == old(self).moving_items@.filter(
                |item: MovingItemVisual| item.id != id,
            ),
    {
        let ghost keep = |item: MovingItemVisual| item.id != id;
        let mut rest: Vec<MovingItemVisual> = Vec::new();
        let mut i: usize = 0;
        while i < self.moving_items.len()
            invariant
                i <= self.moving_items@.len(),
                self@ == old(self)@,
                keep == (|item: MovingItemVisual| item.id != id),
                rest@ == self.moving_items@.take(i as int).filter(keep),
            decreases self.moving_items@.len() - i,
        {
            let item: MovingItemVisual = self.moving_items[i];
            proof {
                reveal(Seq::filter);
                assert(self.moving_items@.take(i + 1).drop_last() =~= self.moving_items@.take(
                    i as int,
                ));
                assert(self.moving_items@.take(i + 1).last() == item);
            }
            if item.id != id {
                rest.push(item);
            }
            i = i + 1;
        }
        assert(self.moving_items@.take(i as int) =~= self.moving_items@);
        self.moving_items = rest;
    }
}

} // verus!
