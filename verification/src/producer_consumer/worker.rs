//! What the threads of producers and consumers do, step by step.
//!
//! A worker asks for one task at a time and is told how it ended; every change
//! to the board in between is made here.
use vstd::prelude::*;

use crate::color::{Rgb, Shade, Tone};
use crate::producer_consumer::board::{
    ActorKind,
    ActorState,
    AppState,
    Board,
    ItemPosition,
    Place,
};
use crate::producer_consumer::look::Colors;
use crate::producer_consumer::queue::{Picture, QueueItem, QueueSnapshot};
use crate::rng::SmallRng;

verus! {

/// The shortest time an actor is busy by itself.
pub const THINK_MIN_MS: u64 = 600;

/// How much longer it may be.
pub const THINK_RANGE_MS: u64 = 1800;

/// How long an item is seen moving.
pub const ITEM_ANIMATION_MS: u64 = 700;

/// In how many steps it moves.
pub const ANIMATION_STEPS: u32 = 20;

/// What a worker has to do before it goes on.
#[derive(Clone, Copy, Debug, PartialEq, Eq, Structural)]
pub enum ActorTask {
    /// Wait until the run is not paused.
    AwaitTurn,
    /// Sleep for some milliseconds.
    Sleep(u64),
    /// Join the waiting for the buffer, and begin.
    Begin,
    /// Put an item into a slot of the buffer.
    Put(usize, QueueItem),
    /// Unlock the buffer.
    Unlock,
    /// Wake everybody who waits for the buffer, and leave.
    Abandon,
    /// Leave.
    Quit,
}

/// Where a worker stands.
#[derive(Clone, Copy, Debug, PartialEq, Eq, Structural)]
pub enum ActorPhase {
    /// Waiting for its turn.
    Turn,
    /// Busy by itself.
    Thinking,
    /// Waiting for the buffer.
    Queueing,
    /// Holding the buffer, waiting to show a step of the move.
    Moving(usize, u32),
    /// Holding the buffer, resting after a step of the move.
    Resting(usize, u32),
    /// Holding the buffer, committing.
    Committing(usize),
    /// Finished.
    Over,
}

impl ActorPhase {
    /// The worker has begun at the buffer and not yet committed.
    pub open spec fn holding(self) -> bool {
        self is Moving || self is Resting || self is Committing
    }

    /// Moves do not go past their last step.
    pub open spec fn valid(self) -> bool {
        match self {
            ActorPhase::Moving(_, step) => step <= ANIMATION_STEPS,
            ActorPhase::Resting(_, step) => step < ANIMATION_STEPS,
            _ => true,
        }
    }
}

/// How long the next draw makes an actor busy by itself.
pub open spec fn think_ms(rng: SmallRng) -> int {
    THINK_MIN_MS + crate::rng::next_state(rng.state) as int % THINK_RANGE_MS as int
}

/// How long an actor is busy by itself, by chance: at least `THINK_MIN_MS`, and
/// less than `THINK_RANGE_MS` more.
pub fn random_wait_duration(rng: &mut SmallRng) -> (ms: u64)
    ensures
        ms == think_ms(*old(rng)),
        THINK_MIN_MS <= ms < THINK_MIN_MS + THINK_RANGE_MS,
        600 <= ms < 2400,
        ms == 600 + final(rng).state % 1800,
        *final(rng) == old(rng).drawn(),
{
    THINK_MIN_MS + rng.next_u64() % THINK_RANGE_MS
}

/// How long one step of a move rests: an even share, but at least one
/// millisecond.
pub fn step_ms(duration_ms: u64) -> (ms: u64)
    ensures
        ms == (if duration_ms < ANIMATION_STEPS {
            1int
        } else {
            duration_ms as int / ANIMATION_STEPS as int
        }),
        ms >= 1,
        duration_ms < 20 * (ms + 1),
        duration_ms >= 20 ==> 20 * ms <= duration_ms,
        duration_ms < 20 ==> ms == 1,
{
    let share: u64 = duration_ms / ANIMATION_STEPS as u64;
    if share < 1 {
        1
    } else {
        share
    }
}

/// The number of an item: its producer above, its place in the producer's
/// series below.
pub open spec fn item_number(producer: usize, seq: u64) -> u64 {
    (producer as u64) << 32u64 | seq
}

impl Board {
    /// The board after an actor has left.
    pub open spec fn with_stopped(self, kind: ActorKind, id: int) -> Board {
        self.with_state(kind, id, ActorState::Stopped, Rgb { r: 90, g: 90, b: 90 })
    }
}

/// A producer's thread.
#[derive(Clone, Copy, Debug)]
pub struct ProducerWorker {
    pub id: usize,
    pub rng: SmallRng,
    pub item_seq: u64,
    pub item: QueueItem,
    pub phase: ActorPhase,
}

impl ProducerWorker {
    /// The worker in another phase.
    pub open spec fn at(self, phase: ActorPhase) -> ProducerWorker {
        ProducerWorker { phase, ..self }
    }

    /// The colour of the next item before it is dimmed: the producer's own, with
    /// what is drawn for it.
    pub open spec fn next_shade(self) -> Shade {
        Shade {
            color: crate::producer_consumer::look::palette_color(self.id as int),
            least: 75,
            draw: crate::rng::next_state(self.rng.state),
        }
    }

    /// The item that the worker makes next, in a colour.
    pub open spec fn next_item(self, tint: Rgb) -> QueueItem {
        QueueItem { id: item_number(self.id, self.item_seq), color: tint, producer_id: self.id }
    }

    /// The outcome of giving up while the buffer is held.
    pub open spec fn abandoned(self, board: Board) -> (ProducerWorker, Board, ActorTask) {
        (
            self.at(ActorPhase::Over),
            board.without_moving(self.item.id).with_stopped(ActorKind::Producer, self.id as int),
            ActorTask::Abandon,
        )
    }

    /// What follows when the worker has waited for its turn or slept:
    /// the worker, the board and the next task. `tint` is the colour of the
    /// next item, which is made when a turn has come.
    pub open spec fn proceeded(self, running: bool, tint: Rgb, board: Board) -> (
        ProducerWorker,
        Board,
        ActorTask,
    ) {
        let kind = ActorKind::Producer;
        let id = self.id as int;
        match self.phase {
            ActorPhase::Turn if running => (
                ProducerWorker {
                    rng: self.rng.drawn().drawn(),
                    item_seq: (self.item_seq + 1) as u64,
                    item: self.next_item(tint),
                    phase: ActorPhase::Thinking,
                    ..self
                },
                board.with_state(kind, id, ActorState::ActiveColor, tint),
                ActorTask::Sleep(think_ms(self.rng.drawn()) as u64),
            ),
            ActorPhase::Thinking if running => (
                self.at(ActorPhase::Queueing),
                board.with_state(kind, id, ActorState::Waiting, Tone::Black.color()).with_moving(
                    self.item.id,
                    self.item.color,
                    crate::producer_consumer::board::position_at(Place::Producer(self.id)),
                ),
                ActorTask::Begin,
            ),
            ActorPhase::Moving(slot, step) => if running {
                let moved = board.with_moved(
                    self.item.id,
                    ItemPosition { from: Place::Producer(self.id), to: Place::Slot(slot), step },
                );
                if step < ANIMATION_STEPS {
                    (self.at(ActorPhase::Resting(slot, step)), moved, ActorTask::Sleep(35))
                } else {
                    (
                        self.at(ActorPhase::Committing(slot)),
                        moved,
                        ActorTask::Put(slot, self.item),
                    )
                }
            } else {
                self.abandoned(board)
            },
            ActorPhase::Resting(slot, step) => if running {
                (
                    self.at(ActorPhase::Moving(slot, (step + 1) as u32)),
                    board,
                    ActorTask::AwaitTurn,
                )
            } else {
                self.abandoned(board)
            },
            _ => (self.at(ActorPhase::Over), board.with_stopped(kind, id), ActorTask::Quit),
        }
    }

    /// What follows when the worker has its slot, or the run is over instead.
    pub open spec fn granted(self, grant: Option<(usize, Picture)>, board: Board) -> (
        ProducerWorker,
        Board,
        ActorTask,
    ) {
        let kind = ActorKind::Producer;
        let id = self.id as int;
        match grant {
            Some((slot, picture)) => (
                self.at(ActorPhase::Moving(slot, 0)),
                board.with_state(kind, id, ActorState::HoldingLock, Tone::White.color()).showing(
                    picture,
                ),
                ActorTask::AwaitTurn,
            ),
            None => (
                self.at(ActorPhase::Over),
                board.without_moving(self.item.id).with_stopped(kind, id),
                ActorTask::Quit,
            ),
        }
    }

    /// What follows when the item is in the buffer.
    pub open spec fn finished(self, picture: Picture, board: Board) -> (
        ProducerWorker,
        Board,
        ActorTask,
    ) {
        (
            self.at(ActorPhase::Turn),
            board.without_moving(self.item.id).showing(picture).with_one_more(
                ActorKind::Producer,
                self.id as int,
                Tone::White.color(),
            ),
            ActorTask::AwaitTurn,
        )
    }

    /// A producer's thread at its start, to wait for its first turn.
    pub fn new(id: usize) -> (w: Self)
        requires
            0xFACE0000 + id * 157 <= u64::MAX,
        ensures
            w.id == id,
            w.rng.state == ((0xFACE0000 + id * 157) as u64) | 1,
            w.rng.live(),
            w.item_seq == 0,
            w.item == (QueueItem { id: 0, color: Tone::Black.color(), producer_id: id }),
            w.phase == ActorPhase::Turn,
    {
        let rng = SmallRng::seeded(0xFACE0000 + id as u64 * 157);
        let item = QueueItem { id: 0, color: Tone::Black.rgb(), producer_id: id };
        ProducerWorker { id, rng, item_seq: 0, item, phase: ActorPhase::Turn }
    }

    fn stop(&mut self, app: &mut AppState)
        requires
            old(self).id < old(app)@.producers.len(),
        ensures
            *final(self) == old(self).at(ActorPhase::Over),
            final(app)@ == old(app)@.with_stopped(ActorKind::Producer, old(self).id as int),
    {
        self.phase = ActorPhase::Over;
        app.set_actor(
            ActorKind::Producer,
            self.id,
            ActorState::Stopped,
            Rgb { r: 90, g: 90, b: 90 },
        );
    }

    fn abandon(&mut self, app: &mut AppState) -> (task: ActorTask)
        requires
            old(self).id < old(app)@.producers.len(),
        ensures
            (*final(self), final(app)@, task) == old(self).abandoned(old(app)@),
    {
        app.remove_moving_item(self.item.id);
        self.stop(app);
        ActorTask::Abandon
    }

    /// The colour of the next item, to be dimmed by whoever can.
    pub fn shade(&self) -> (s: Shade)
        ensures
            s == self.next_shade(),
            s.least == 75,
            s.color == crate::producer_consumer::look::palette_color(self.id as int),
            s.draw == crate::rng::next_state(self.rng.state),
    {
        let mut rng: SmallRng = self.rng;
        let draw: u64 = rng.next_u64();
        Shade { color: Colors::producer_palette(self.id), least: 75, draw }
    }

    /// Goes on after a wait for its turn or a sleep, `running` saying whether
    /// the run still goes on. When a turn has come, an item is made in the
    /// colour `tint`.
    pub fn proceed(&mut self, running: bool, tint: Rgb, app: &mut AppState) -> (task: ActorTask)
        requires
            old(self).id < old(app)@.producers.len(),
            old(self).phase.valid(),
            old(self).phase is Turn || old(self).phase is Thinking || old(self).phase is Moving
                || old(self).phase is Resting,
            old(self).phase is Turn && running ==> old(self).item_seq < u64::MAX,
        ensures
            (*final(self), final(app)@, task) == old(self).proceeded(running, tint, old(app)@),
            final(self).phase.valid(),
    {
        match self.phase {
            ActorPhase::Turn => {
                if running {
                    let _ = self.rng.next_u64();
                    let number: u64 = (self.id as u64) << 32 | self.item_seq;
                    self.item = QueueItem { id: number, color: tint, producer_id: self.id };
                    self.item_seq = self.item_seq + 1;
                    app.set_actor(ActorKind::Producer, self.id, ActorState::ActiveColor, tint);
                    self.phase = ActorPhase::Thinking;
                    let ms: u64 = random_wait_duration(&mut self.rng);
                    ActorTask::Sleep(ms)
                } else {
                    self.stop(app);
                    ActorTask::Quit
                }
            },
            ActorPhase::Thinking => {
                if running {
                    app.set_actor(
                        ActorKind::Producer,
                        self.id,
                        ActorState::Waiting,
                        Tone::Black.rgb(),
                    );
                    app.add_moving_item(
                        self.item.id,
                        self.item.color,
                        ItemPosition::at(Place::Producer(self.id)),
                    );
                    self.phase = ActorPhase::Queueing;
                    ActorTask::Begin
                } else {
                    self.stop(app);
                    ActorTask::Quit
                }
            },
            ActorPhase::Moving(slot, step) => {
                if !running {
                    return self.abandon(app);
                }
                app.move_item(
                    self.item.id,
                    ItemPosition { from: Place::Producer(self.id), to: Place::Slot(slot), step },
                );
                if step < ANIMATION_STEPS {
                    self.phase = ActorPhase::Resting(slot, step);
                    ActorTask::Sleep(step_ms(ITEM_ANIMATION_MS))
                } else {
                    self.phase = ActorPhase::Committing(slot);
                    ActorTask::Put(slot, self.item)
                }
            },
            ActorPhase::Resting(slot, step) => {
                if !running {
                    return self.abandon(app);
                }
                self.phase = ActorPhase::Moving(slot, step + 1);
                ActorTask::AwaitTurn
            },
            _ => {
                self.stop(app);
                ActorTask::Quit
            },
        }
    }

    /// Goes on with the slot it was given, or without one if the run is over.
    pub fn slot_given(
        &mut self,
        grant: Option<(usize, QueueSnapshot)>,
        app: &mut AppState,
    ) -> (task: ActorTask)
        requires
            old(self).id < old(app)@.producers.len(),
            old(self).phase is Queueing,
        ensures
            (*final(self), final(app)@, task) == old(self).granted(
                (match grant {
                    Some((slot, s)) => Some((slot, s@)),
                    None => None,
                }),
                old(app)@,
            ),
            final(self).phase.valid(),
    {
        match grant {
            Some((slot, snapshot)) => {
                app.set_actor(
                    ActorKind::Producer,
                    self.id,
                    ActorState::HoldingLock,
                    Tone::White.rgb(),
                );
                app.set_queue_snapshot(&snapshot);
                self.phase = ActorPhase::Moving(slot, 0);
                ActorTask::AwaitTurn
            },
            None => {
                app.remove_moving_item(self.item.id);
                self.stop(app);
                ActorTask::Quit
            },
        }
    }

    /// Goes on once its item is in the buffer.
    pub fn committed(&mut self, snapshot: &QueueSnapshot, app: &mut AppState) -> (task: ActorTask)
        requires
            old(self).id < old(app)@.producers.len(),
            old(self).phase is Committing,
            old(app)@.producers[old(self).id as int].count < usize::MAX,
        ensures
            (*final(self), final(app)@, task) == old(self).finished(snapshot@, old(app)@),
            final(self).phase.valid(),
    {
        app.remove_moving_item(self.item.id);
        app.set_queue_snapshot(snapshot);
        app.increment_actor_count(ActorKind::Producer, self.id, Tone::White.rgb());
        self.phase = ActorPhase::Turn;
        ActorTask::AwaitTurn
    }
}

/// A consumer's thread.
#[derive(Clone, Copy, Debug)]
pub struct ConsumerWorker {
    pub id: usize,
    pub rng: SmallRng,
    pub item: QueueItem,
    pub phase: ActorPhase,
}

impl ConsumerWorker {
    /// The worker in another phase.
    pub open spec fn at(self, phase: ActorPhase) -> ConsumerWorker {
        ConsumerWorker { phase, ..self }
    }

    /// The outcome of giving up while the buffer is held.
    pub open spec fn abandoned(self, board: Board) -> (ConsumerWorker, Board, ActorTask) {
        (
            self.at(ActorPhase::Over),
            board.without_moving(self.item.id).with_stopped(ActorKind::Consumer, self.id as int),
            ActorTask::Abandon,
        )
    }

    /// What follows when the worker has waited for its turn or slept:
    /// the worker, the board and the next task.
    pub open spec fn proceeded(self, running: bool, board: Board) -> (
        ConsumerWorker,
        Board,
        ActorTask,
    ) {
        let kind = ActorKind::Consumer;
        let id = self.id as int;
        match self.phase {
            ActorPhase::Turn if running => (
                ConsumerWorker { rng: self.rng.drawn(), phase: ActorPhase::Thinking, ..self },
                board,
                ActorTask::Sleep(think_ms(self.rng) as u64),
            ),
            ActorPhase::Thinking if running => (
                self.at(ActorPhase::Queueing),
                board.with_state(kind, id, ActorState::Waiting, Tone::Black.color()),
                ActorTask::Begin,
            ),
            ActorPhase::Moving(slot, step) => if running {
                let moved = board.with_moved(
                    self.item.id,
                    ItemPosition { from: Place::Slot(slot), to: Place::Consumer(self.id), step },
                );
                if step < ANIMATION_STEPS {
                    (self.at(ActorPhase::Resting(slot, step)), moved, ActorTask::Sleep(35))
                } else {
                    (self.at(ActorPhase::Committing(slot)), moved, ActorTask::Unlock)
                }
            } else {
                self.abandoned(board)
            },
            ActorPhase::Resting(slot, step) => if running {
                (
                    self.at(ActorPhase::Moving(slot, (step + 1) as u32)),
                    board,
                    ActorTask::AwaitTurn,
                )
            } else {
                self.abandoned(board)
            },
            _ => (self.at(ActorPhase::Over), board.with_stopped(kind, id), ActorTask::Quit),
        }
    }

    /// What follows when the worker has its item, or the run is over instead.
    pub open spec fn granted(
        self,
        grant: Option<(usize, QueueItem, Picture)>,
        board: Board,
    ) -> (ConsumerWorker, Board, ActorTask) {
        let kind = ActorKind::Consumer;
        let id = self.id as int;
        match grant {
            Some((slot, item, picture)) => (
                ConsumerWorker { item, phase: ActorPhase::Moving(slot, 0), ..self },
                board.with_state(kind, id, ActorState::HoldingLock, Tone::White.color()).showing(
                    picture,
                ).with_moving(
                    item.id,
                    item.color,
                    crate::producer_consumer::board::position_at(Place::Slot(slot)),
                ),
                ActorTask::AwaitTurn,
            ),
            None => (
                self.at(ActorPhase::Over),
                board.with_stopped(kind, id),
                ActorTask::Quit,
            ),
        }
    }

    /// What follows when the buffer is unlocked again.
    pub open spec fn finished(self, picture: Picture, board: Board) -> (
        ConsumerWorker,
        Board,
        ActorTask,
    ) {
        (
            self.at(ActorPhase::Turn),
            board.without_moving(self.item.id).showing(picture).with_one_more(
                ActorKind::Consumer,
                self.id as int,
                self.item.color,
            ),
            ActorTask::AwaitTurn,
        )
    }

    /// A consumer's thread at its start, to wait for its first turn.
    pub fn new(id: usize) -> (w: Self)
        requires
            0xBEEF1000 + id * 193 <= u64::MAX,
        ensures
            w.id == id,
            w.rng.state == ((0xBEEF1000 + id * 193) as u64) | 1,
            w.rng.live(),
            w.item == (QueueItem { id: 0, color: Tone::Black.color(), producer_id: 0 }),
            w.phase == ActorPhase::Turn,
    {
        let rng = SmallRng::seeded(0xBEEF1000 + id as u64 * 193);
        let item = QueueItem { id: 0, color: Tone::Black.rgb(), producer_id: 0 };
        ConsumerWorker { id, rng, item, phase: ActorPhase::Turn }
    }

    fn stop(&mut self, app: &mut AppState)
        requires
            old(self).id < old(app)@.consumers.len(),
        ensures
            *final(self) == old(self).at(ActorPhase::Over),
            final(app)@ == old(app)@.with_stopped(ActorKind::Consumer, old(self).id as int),
    {
        self.phase = ActorPhase::Over;
        app.set_actor(
            ActorKind::Consumer,
            self.id,
            ActorState::Stopped,
            Rgb { r: 90, g: 90, b: 90 },
        );
    }

    fn abandon(&mut self, app: &mut AppState) -> (task: ActorTask)
        requires
            old(self).id < old(app)@.consumers.len(),
        ensures
            (*final(self), final(app)@, task) == old(self).abandoned(old(app)@),
    {
        app.remove_moving_item(self.item.id);
        self.stop(app);
        ActorTask::Abandon
    }

    /// Goes on after a wait for its turn or a sleep, `running` saying whether
    /// the run still goes on.
    pub fn proceed(&mut self, running: bool, app: &mut AppState) -> (task: ActorTask)
        requires
            old(self).id < old(app)@.consumers.len(),
            old(self).phase.valid(),
            old(self).phase is Turn || old(self).phase is Thinking || old(self).phase is Moving
                || old(self).phase is Resting,
        ensures
            (*final(self), final(app)@, task) == old(self).proceeded(running, old(app)@),
            final(self).phase.valid(),
    {
        match self.phase {
            ActorPhase::Turn => {
                if running {
                    self.phase = ActorPhase::Thinking;
                    let ms: u64 = random_wait_duration(&mut self.rng);
                    ActorTask::Sleep(ms)
                } else {
                    self.stop(app);
                    ActorTask::Quit
                }
            },
            ActorPhase::Thinking => {
                if running {
                    app.set_actor(
                        ActorKind::Consumer,
                        self.id,
                        ActorState::Waiting,
                        Tone::Black.rgb(),
                    );
                    self.phase = ActorPhase::Queueing;
                    ActorTask::Begin
                } else {
                    self.stop(app);
                    ActorTask::Quit
                }
            },
            ActorPhase::Moving(slot, step) => {
                if !running {
                    return self.abandon(app);
                }
                app.move_item(
                    self.item.id,
                    ItemPosition { from: Place::Slot(slot), to: Place::Consumer(self.id), step },
                );
                if step < ANIMATION_STEPS {
                    self.phase = ActorPhase::Resting(slot, step);
                    ActorTask::Sleep(step_ms(ITEM_ANIMATION_MS))
                } else {
                    self.phase = ActorPhase::Committing(slot);
                    ActorTask::Unlock
                }
            },
            ActorPhase::Resting(slot, step) => {
                if !running {
                    return self.abandon(app);
                }
                self.phase = ActorPhase::Moving(slot, step + 1);
                ActorTask::AwaitTurn
            },
            _ => {
                self.stop(app);
                ActorTask::Quit
            },
        }
    }

    /// Goes on with the item it was given, or without one if the run is over.
    pub fn item_given(
        &mut self,
        grant: Option<(usize, QueueItem, QueueSnapshot)>,
        app: &mut AppState,
    ) -> (task: ActorTask)
        requires
            old(self).id < old(app)@.consumers.len(),
            old(self).phase is Queueing,
        ensures
            (*final(self), final(app)@, task) == old(self).granted(
                (match grant {
                    Some((slot, item, s)) => Some((slot, item, s@)),
                    None => None,
                }),
                old(app)@,
            ),
            final(self).phase.valid(),
    {
        match grant {
            Some((slot, item, snapshot)) => {
                app.set_actor(
                    ActorKind::Consumer,
                    self.id,
                    ActorState::HoldingLock,
                    Tone::White.rgb(),
                );
                app.set_queue_snapshot(&snapshot);
                app.add_moving_item(item.id, item.color, ItemPosition::at(Place::Slot(slot)));
                self.item = item;
                self.phase = ActorPhase::Moving(slot, 0);
                ActorTask::AwaitTurn
            },
            None => {
                self.stop(app);
                ActorTask::Quit
            },
        }
    }

    /// Goes on once the buffer is unlocked again.
    pub fn committed(&mut self, snapshot: &QueueSnapshot, app: &mut AppState) -> (task: ActorTask)
        requires
            old(self).id < old(app)@.consumers.len(),
            old(self).phase is Committing,
            old(app)@.consumers[old(self).id as int].count < usize::MAX,
        ensures
            (*final(self), final(app)@, task) == old(self).finished(snapshot@, old(app)@),
            final(self).phase.valid(),
    {
        app.remove_moving_item(self.item.id);
        app.set_queue_snapshot(snapshot);
        app.increment_actor_count(ActorKind::Consumer, self.id, self.item.color);
        self.phase = ActorPhase::Turn;
        ActorTask::AwaitTurn
    }
}

/// Items of different producers, and different items of one producer, have
/// different numbers.
pub proof fn law_items_are_told_apart(p: usize, i: u64, q: usize, j: u64)
    requires
        p <= 0xffff_ffff,
        q <= 0xffff_ffff,
        i <= 0xffff_ffff,
        j <= 0xffff_ffff,
        item_number(p, i) == item_number(q, j),
    ensures
        p == q,
        i == j,
{
    let a = p as u64;
    let b = q as u64;
    assert(a == b && i == j) by (bit_vector)
        requires
            a <= 0xffff_ffff,
            b <= 0xffff_ffff,
            i <= 0xffff_ffff,
            j <= 0xffff_ffff,
            (a << 32u64) | i == (b << 32u64) | j,
    ;
}

/// A producer puts an item in only while it holds the buffer, into the slot it
/// was given. It keeps the buffer until then, and never quits while holding
/// it without waking the others.
pub proof fn law_producer_keeps_the_buffer(
    w: ProducerWorker,
    running: bool,
    tint: Rgb,
    board: Board,
)
    requires
        w.phase.valid(),
        !(w.phase is Queueing),
        !(w.phase is Committing),
    ensures
        ({
            let (next, _, task) = w.proceeded(running, tint, board);
            &&& w.phase.holding() ==> (next.phase.holding() <==> running)
            &&& w.phase.holding() && !running ==> task == ActorTask::Abandon
            &&& !w.phase.holding() ==> !next.phase.holding() && !(task is Put) && !(task is Abandon)
            &&& task matches ActorTask::Put(slot, item) ==> {
                &&& w.phase == ActorPhase::Moving(slot, ANIMATION_STEPS)
                &&& next.phase == ActorPhase::Committing(slot)
                &&& item == w.item
            }
        }),
{
}

/// A consumer unlocks the buffer only while it holds it. It keeps it until
/// then, and never quits while holding it without waking the others.
pub proof fn law_consumer_keeps_the_buffer(w: ConsumerWorker, running: bool, board: Board)
    requires
        w.phase.valid(),
        !(w.phase is Queueing),
        !(w.phase is Committing),
    ensures
        ({
            let (next, _, task) = w.proceeded(running, board);
            &&& w.phase.holding() ==> (next.phase.holding() <==> running)
            &&& w.phase.holding() && !running ==> task == ActorTask::Abandon
            &&& !w.phase.holding() ==> !next.phase.holding() && !(task is Unlock)
                && !(task is Abandon)
            &&& task is Unlock ==> w.phase.holding() && next.phase is Committing
        }),
{
}

/// A producer after `n` uninterrupted waits and rests.
pub open spec fn carried(w: ProducerWorker, tint: Rgb, board: Board, n: nat) -> (
    ProducerWorker,
    Board,
)
    decreases n,
{
    if n == 0 {
        (w, board)
    } else {
        let (next, changed, _) = w.proceeded(true, tint, board);
        carried(next, tint, changed, (n - 1) as nat)
    }
}

/// A consumer after `n` uninterrupted waits and rests.
pub open spec fn fetched(w: ConsumerWorker, board: Board, n: nat) -> (ConsumerWorker, Board)
    decreases n,
{
    if n == 0 {
        (w, board)
    } else {
        let (next, changed, _) = w.proceeded(true, board);
        fetched(next, changed, (n - 1) as nat)
    }
}

/// An item that starts moving reaches its slot: without interruption the
/// producer gets from any step of the move to its commit, at the same slot.
pub proof fn law_items_arrive(
    w: ProducerWorker,
    tint: Rgb,
    board: Board,
    slot: usize,
    step: u32,
)
    requires
        w.phase == ActorPhase::Moving(slot, step),
        step <= ANIMATION_STEPS,
    ensures
        carried(w, tint, board, (2 * (ANIMATION_STEPS - step) + 1) as nat).0.phase
            == ActorPhase::Committing(slot),
        carried(w, tint, board, (2 * (ANIMATION_STEPS - step) + 1) as nat).0.item == w.item,
    decreases ANIMATION_STEPS - step,
{
    let n = (2 * (ANIMATION_STEPS - step) + 1) as nat;
    let (w1, b1, _) = w.proceeded(true, tint, board);
    assert(carried(w, tint, board, n) == carried(w1, tint, b1, (n - 1) as nat));
    if step < ANIMATION_STEPS {
        let (w2, b2, _) = w1.proceeded(true, tint, b1);
        assert(carried(w1, tint, b1, (n - 1) as nat) == carried(w2, tint, b2, (n - 2) as nat));
        law_items_arrive(w2, tint, b2, slot, (step + 1) as u32);
    }
}

/// An item that leaves its slot reaches its consumer: without interruption the
/// consumer gets from any step of the move to its commit.
pub proof fn law_items_are_brought(w: ConsumerWorker, board: Board, slot: usize, step: u32)
    requires
        w.phase == ActorPhase::Moving(slot, step),
        step <= ANIMATION_STEPS,
    ensures
        fetched(w, board, (2 * (ANIMATION_STEPS - step) + 1) as nat).0.phase
            == ActorPhase::Committing(slot),
        fetched(w, board, (2 * (ANIMATION_STEPS - step) + 1) as nat).0.item == w.item,
    decreases ANIMATION_STEPS - step,
{
    let n = (2 * (ANIMATION_STEPS - step) + 1) as nat;
    let (w1, b1, _) = w.proceeded(true, board);
    assert(fetched(w, board, n) == fetched(w1, b1, (n - 1) as nat));
    if step < ANIMATION_STEPS {
        let (w2, b2, _) = w1.proceeded(true, b1);
        assert(fetched(w1, b1, (n - 1) as nat) == fetched(w2, b2, (n - 2) as nat));
        law_items_are_brought(w2, b2, slot, (step + 1) as u32);
    }
}

/// When the run is over a producer is gone at its next step, whatever it was
/// waiting for, and is shown stopped. If it held the buffer it wakes the
/// others.
pub proof fn law_producers_leave(w: ProducerWorker, tint: Rgb, board: Board)
    requires
        w.id < board.producers.len(),
    ensures
        w.phase is Turn || w.phase is Thinking || w.phase is Moving || w.phase is Resting ==> {
            let (last, end, task) = w.proceeded(false, tint, board);
            &&& last.phase is Over
            &&& task == (if w.phase.holding() {
                ActorTask::Abandon
            } else {
                ActorTask::Quit
            })
            &&& end.producers[w.id as int].state == ActorState::Stopped
        },
        ({
            let (last, end, task) = w.granted(None, board);
            &&& last.phase is Over
            &&& task == ActorTask::Quit
            &&& end.producers[w.id as int].state == ActorState::Stopped
        }),
{
}

/// When the run is over a consumer is gone at its next step, whatever it was
/// waiting for, and is shown stopped. If it held the buffer it wakes the
/// others.
pub proof fn law_consumers_leave(w: ConsumerWorker, board: Board)
    requires
        w.id < board.consumers.len(),
    ensures
        w.phase is Turn || w.phase is Thinking || w.phase is Moving || w.phase is Resting ==> {
            let (last, end, task) = w.proceeded(false, board);
            &&& last.phase is Over
            &&& task == (if w.phase.holding() {
                ActorTask::Abandon
            } else {
                ActorTask::Quit
            })
            &&& end.consumers[w.id as int].state == ActorState::Stopped
        },
        ({
            let (last, end, task) = w.granted(None, board);
            &&& last.phase is Over
            &&& task == ActorTask::Quit
            &&& end.consumers[w.id as int].state == ActorState::Stopped
        }),
{
}

/// When a producer is done with an item, or gives it up, the item is no longer
/// seen moving.
pub proof fn law_no_item_is_left_behind(w: ProducerWorker, picture: Picture, board: Board, k: int)
    ensures
        0 <= k < w.finished(picture, board).1.moving.len() ==> w.finished(
            picture,
            board,
        ).1.moving[k].id != w.item.id,
        0 <= k < w.abandoned(board).1.moving.len() ==> w.abandoned(board).1.moving[k].id
            != w.item.id,
        0 <= k < w.granted(None, board).1.moving.len() ==> w.granted(None, board).1.moving[k].id
            != w.item.id,
{
    let keep = |item: crate::producer_consumer::board::MovingItemVisual| item.id != w.item.id;
    let rest = board.moving.filter(keep);
    if 0 <= k < rest.len() {
        board.moving.lemma_filter_pred(keep, k);
    }
}

/// When a consumer is done with an item, or gives it up, the item is no longer
/// seen moving.
pub proof fn law_consumers_leave_no_item_behind(
    w: ConsumerWorker,
    picture: Picture,
    board: Board,
    k: int,
)
    ensures
        0 <= k < w.finished(picture, board).1.moving.len() ==> w.finished(
            picture,
            board,
        ).1.moving[k].id != w.item.id,
        0 <= k < w.abandoned(board).1.moving.len() ==> w.abandoned(board).1.moving[k].id
            != w.item.id,
{
    let keep = |item: crate::producer_consumer::board::MovingItemVisual| item.id != w.item.id;
    let rest = board.moving.filter(keep);
    if 0 <= k < rest.len() {
        board.moving.lemma_filter_pred(keep, k);
    }
}

/// A consumer that has unlocked the buffer shows the colour of its item, and is
/// counted once more.
pub proof fn law_consumers_show_their_item(w: ConsumerWorker, picture: Picture, board: Board)
    requires
        w.id < board.consumers.len(),
        board.consumers[w.id as int].count < usize::MAX,
    ensures
        ({
            let actor = w.finished(picture, board).1.consumers[w.id as int];
            &&& actor.color == w.item.color
            &&& actor.state == ActorState::ActiveColor
            &&& actor.count == board.consumers[w.id as int].count + 1
        }),
{
}

} // verus!
