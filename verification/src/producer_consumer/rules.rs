//! The rules of the buffer and of those at its sides, told by what is in the
//! slots and seen on the screen.
use vstd::prelude::*;

use crate::color::Rgb;
use crate::producer_consumer::board::{
    ActorKind,
    ActorState,
    ActorVisual,
    Board,
    ItemPosition,
    MovingItemVisual,
    Place,
};
use crate::producer_consumer::queue::{Buffer, Picture, QueueItem};
use crate::producer_consumer::worker::{ActorPhase, ActorTask, ConsumerWorker, ProducerWorker};

verus! {

/// While nobody holds the buffer a consumer has to wait exactly if there is
/// nothing in it, and a producer exactly if there is an item for each slot.
pub proof fn law_only_empty_or_full_blocks(b: Buffer)
    requires
        b.sound(),
        !b.locked,
    ensures
        b.consumer_blocked() <==> b.contents().len() == 0,
        b.producer_blocked() <==> b.contents().len() == b.slots.len(),
{
}

/// While somebody holds the buffer everybody else has to wait.
pub proof fn law_a_held_buffer_blocks(b: Buffer)
    requires
        b.locked,
    ensures
        b.consumer_blocked(),
        b.producer_blocked(),
{
}

/// The items lie one after the other on the ring, the oldest first: each in
/// its own slot, as many slots after the first, round the end, as there are
/// items before it. The slots that are left are empty.
pub proof fn law_items_lie_on_a_ring(b: Buffer, k: int)
    requires
        b.sound(),
        0 <= k < b.slots.len(),
    ensures
        ({
            let slot = (b.first + k) % b.slots.len() as int;
            &&& b.slot_of(k) == slot
            &&& k < b.contents().len() ==> b.slots[slot] == Some(b.contents()[k])
            &&& k >= b.contents().len() ==> b.slots[slot] is None
        }),
        b.last == (b.first + b.contents().len()) % b.slots.len() as int,
{
    lemma_ring(b.first + k, b.slots.len() as int);
    lemma_ring(b.first + b.count, b.slots.len() as int);
    assert(b.slots[b.slot_of(k)] is Some <==> k < b.count);
}

proof fn lemma_ring(i: int, n: int)
    requires
        0 <= i < 2 * n,
    ensures
        i % n == (if i < n {
            i
        } else {
            i - n
        }),
{
    if i < n {
        vstd::arithmetic::div_mod::lemma_small_mod(i as nat, n as nat);
    } else {
        vstd::arithmetic::div_mod::lemma_mod_add_multiples_vanish(i - n, n);
        vstd::arithmetic::div_mod::lemma_small_mod((i - n) as nat, n as nat);
    }
}

/// Beginning ends the waiting of the one who begins and of nobody else; to a
/// producer it gives nothing but the lock, and a consumer one item.
pub proof fn law_beginning_ends_the_waiting(b: Buffer, running: bool)
    requires
        b.waiting_producers >= 0,
        b.waiting_consumers >= 0,
    ensures
        ({
            let waiting = Buffer { waiting_producers: b.waiting_producers + 1, ..b };
            let begun = waiting.producer_begun(running);
            &&& begun.first == b.first
            &&& begun.last == b.last
            &&& begun.waiting_producers == b.waiting_producers
            &&& begun.waiting_consumers == b.waiting_consumers
            &&& begun.slots == b.slots
            &&& begun.count == b.count
            &&& begun.locked == (b.locked || running)
        }),
        ({
            let waiting = Buffer { waiting_consumers: b.waiting_consumers + 1, ..b };
            let begun = waiting.consumer_begun(running);
            &&& begun.waiting_consumers == b.waiting_consumers
            &&& begun.waiting_producers == b.waiting_producers
            &&& begun.last == b.last
            &&& begun.locked == (b.locked || running)
            &&& begun.count == (if running {
                b.count - 1
            } else {
                b.count
            })
        }),
{
}

/// A commit unlocks the buffer; a producer's leaves one item more, and every
/// slot but its own as it was, a consumer's leaves everything as it was.
pub proof fn law_commits_unlock(b: Buffer, slot: int, item: QueueItem, other: int)
    requires
        0 <= slot < b.slots.len(),
        0 <= other < b.slots.len(),
    ensures
        ({
            let c = b.producer_committed(slot, item);
            &&& !c.locked
            &&& c.count == b.count + 1
            &&& c.first == b.first
            &&& c.slots.len() == b.slots.len()
            &&& c.slots[other] == (if other == slot {
                Some(item)
            } else {
                b.slots[other]
            })
            &&& c.waiting_producers == b.waiting_producers
            &&& c.waiting_consumers == b.waiting_consumers
        }),
        b.unlocked() == (Buffer {
            slots: b.slots,
            first: b.first,
            last: b.last,
            count: b.count,
            waiting_producers: b.waiting_producers,
            waiting_consumers: b.waiting_consumers,
            locked: false,
        }),
{
}

impl Board {
    /// Of the producers none but the one with the number has changed, and that
    /// one has kept its number and kind.
    pub open spec fn same_producers_but(self, after: Board, id: int) -> bool {
        &&& after.producers.len() == self.producers.len()
        &&& after.producers[id].id == self.producers[id].id
        &&& after.producers[id].kind == self.producers[id].kind
        &&& forall|i: int|
            0 <= i < self.producers.len() && i != id ==> #[trigger] after.producers[i]
                == self.producers[i]
    }

    /// Of the consumers none but the one with the number has changed, and that
    /// one has kept its number and kind.
    pub open spec fn same_consumers_but(self, after: Board, id: int) -> bool {
        &&& after.consumers.len() == self.consumers.len()
        &&& after.consumers[id].id == self.consumers[id].id
        &&& after.consumers[id].kind == self.consumers[id].kind
        &&& forall|i: int|
            0 <= i < self.consumers.len() && i != id ==> #[trigger] after.consumers[i]
                == self.consumers[i]
    }

    /// The buffer, its numbers and the moving items are shown as before.
    pub open spec fn same_items(self, after: Board) -> bool {
        &&& after.slots == self.slots
        &&& after.stats == self.stats
        &&& after.moving == self.moving
    }

    /// The buffer is shown as in the picture, slot by slot, with its numbers.
    pub open spec fn shows_picture(self, picture: Picture) -> bool {
        &&& self.slots.len() == picture.slots.len()
        &&& forall|k: int|
            0 <= k < picture.slots.len() ==> (#[trigger] self.slots[k]).item == picture.slots[k]
        &&& self.stats.count == picture.count as usize
        &&& self.stats.waiting_producers == picture.waiting_producers as usize
        &&& self.stats.waiting_consumers == picture.waiting_consumers as usize
    }
}

/// Of an actor that is put into another state only the state and the colour
/// change, and nothing else on the board.
pub proof fn law_one_actor_changes(board: Board, id: int, state: ActorState, color: Rgb)
    ensures
        0 <= id < board.producers.len() ==> {
            let after = board.with_state(ActorKind::Producer, id, state, color);
            &&& board.same_producers_but(after, id)
            &&& after.consumers == board.consumers
            &&& board.same_items(after)
            &&& after.producers[id].state == state
            &&& after.producers[id].color == color
            &&& after.producers[id].count == board.producers[id].count
        },
        0 <= id < board.consumers.len() ==> {
            let after = board.with_state(ActorKind::Consumer, id, state, color);
            &&& board.same_consumers_but(after, id)
            &&& after.producers == board.producers
            &&& board.same_items(after)
            &&& after.consumers[id].state == state
            &&& after.consumers[id].color == color
            &&& after.consumers[id].count == board.consumers[id].count
        },
{
}

/// The actors of a kind are those on its side, and exchanging one exchanges no
/// other.
pub proof fn law_actors_by_kind(board: Board, id: int, actor: ActorVisual)
    ensures
        board.actors(ActorKind::Producer) == board.producers,
        board.actors(ActorKind::Consumer) == board.consumers,
        0 <= id < board.producers.len() ==> {
            let after = board.with_actor(ActorKind::Producer, id, actor);
            &&& after.producers[id] == actor
            &&& forall|i: int|
                0 <= i < board.producers.len() && i != id ==> after.producers[i]
                    == board.producers[i]
            &&& after.consumers == board.consumers
            &&& board.same_items(after)
        },
        0 <= id < board.consumers.len() ==> {
            let after = board.with_actor(ActorKind::Consumer, id, actor);
            &&& after.consumers[id] == actor
            &&& forall|i: int|
                0 <= i < board.consumers.len() && i != id ==> after.consumers[i]
                    == board.consumers[i]
            &&& after.producers == board.producers
            &&& board.same_items(after)
        },
{
}

/// An actor that has handled an item is active in the colour given, and
/// counted once more.
pub proof fn law_one_more_is_counted(board: Board, id: int, color: Rgb)
    ensures
        0 <= id < board.producers.len() && board.producers[id].count < usize::MAX ==> {
            let after = board.with_one_more(ActorKind::Producer, id, color);
            &&& board.same_producers_but(after, id)
            &&& after.consumers == board.consumers
            &&& board.same_items(after)
            &&& after.producers[id].state == ActorState::ActiveColor
            &&& after.producers[id].color == color
            &&& after.producers[id].count == board.producers[id].count + 1
        },
        0 <= id < board.consumers.len() && board.consumers[id].count < usize::MAX ==> {
            let after = board.with_one_more(ActorKind::Consumer, id, color);
            &&& board.same_consumers_but(after, id)
            &&& after.producers == board.producers
            &&& board.same_items(after)
            &&& after.consumers[id].state == ActorState::ActiveColor
            &&& after.consumers[id].color == color
            &&& after.consumers[id].count == board.consumers[id].count + 1
        },
{
}

/// Showing a picture changes the buffer on the board and nothing else there.
pub proof fn law_pictures_are_shown(board: Board, picture: Picture)
    ensures
        board.showing(picture).shows_picture(picture),
        board.showing(picture).producers == board.producers,
        board.showing(picture).consumers == board.consumers,
        board.showing(picture).moving == board.moving,
{
}

/// An item that starts to move comes after those that do already.
pub proof fn law_moving_items_are_added(
    board: Board,
    id: u64,
    color: Rgb,
    position: ItemPosition,
)
    ensures
        ({
            let after = board.with_moving(id, color, position);
            &&& after.moving == board.moving.push(MovingItemVisual { id, color, position })
            &&& after.slots == board.slots
            &&& after.stats == board.stats
            &&& after.producers == board.producers
            &&& after.consumers == board.consumers
        }),
{
}

proof fn lemma_first_with(items: Seq<MovingItemVisual>, id: u64, k: int)
    requires
        0 <= k <= items.len(),
        k < items.len() ==> items[k].id == id,
        forall|j: int| 0 <= j < k ==> (#[trigger] items[j]).id != id,
    ensures
        crate::producer_consumer::board::first_with(items, id) == k,
    decreases items.len(),
{
    if items.len() > 0 && k > 0 {
        assert(items[0].id != id);
        let rest = items.drop_first();
        assert forall|j: int| 0 <= j < k - 1 implies (#[trigger] rest[j]).id != id by {
            assert(rest[j] == items[j + 1]);
        }
        lemma_first_with(rest, id, k - 1);
    }
}

/// Of the moving items the first with the number gets to its new point, in the
/// colour it had; all others stay, and all do if there is none.
pub proof fn law_the_first_of_a_number_moves(
    board: Board,
    id: u64,
    position: ItemPosition,
    k: int,
)
    requires
        0 <= k <= board.moving.len(),
        k < board.moving.len() ==> board.moving[k].id == id,
        forall|j: int| 0 <= j < k ==> (#[trigger] board.moving[j]).id != id,
    ensures
        ({
            let after = board.with_moved(id, position);
            &&& after.moving.len() == board.moving.len()
            &&& k < board.moving.len() ==> after.moving[k] == (MovingItemVisual {
                id,
                color: board.moving[k].color,
                position,
            })
            &&& forall|j: int|
                0 <= j < board.moving.len() && j != k ==> after.moving[j] == board.moving[j]
            &&& after.slots == board.slots
            &&& after.stats == board.stats
            &&& after.producers == board.producers
            &&& after.consumers == board.consumers
        }),
{
    lemma_first_with(board.moving, id, k);
}

/// Taking the items of a number off the screen takes off all of them and no
/// other, and changes nothing else on the board.
pub proof fn law_items_are_taken_off(board: Board, id: u64, item: MovingItemVisual)
    ensures
        board.without_moving(id).moving.contains(item) <==> board.moving.contains(item) && item.id
            != id,
        board.without_moving(id).slots == board.slots,
        board.without_moving(id).stats == board.stats,
        board.without_moving(id).producers == board.producers,
        board.without_moving(id).consumers == board.consumers,
{
    lemma_filter_keeps(board.moving, |i: MovingItemVisual| i.id != id, item);
}

proof fn lemma_filter_keeps(
    items: Seq<MovingItemVisual>,
    keep: spec_fn(MovingItemVisual) -> bool,
    item: MovingItemVisual,
)
    ensures
        items.filter(keep).contains(item) <==> items.contains(item) && keep(item),
    decreases items.len(),
{
    reveal(Seq::filter);
    let all = items.filter(keep);
    if items.len() > 0 {
        let rest = items.drop_last();
        let before = rest.filter(keep);
        lemma_filter_keeps(rest, keep, item);
        if all.contains(item) {
            let k = choose|k: int| 0 <= k < all.len() && all[k] == item;
            if k < before.len() {
                assert(before[k] == item);
                let j = choose|j: int| 0 <= j < rest.len() && rest[j] == item;
                assert(items[j] == item);
            } else {
                assert(items[items.len() - 1] == item);
            }
        }
        if items.contains(item) && keep(item) {
            let j = choose|j: int| 0 <= j < items.len() && items[j] == item;
            if j < rest.len() {
                assert(rest[j] == item);
                let k = choose|k: int| 0 <= k < before.len() && before[k] == item;
                assert(all[k] == item);
            } else {
                assert(all[all.len() - 1] == item);
            }
        }
    }
}

/// When its turn has come a producer makes an item in the colour given, with
/// its own number and the next of its series, is shown active in that colour,
/// and works on it for some time, by chance.
pub proof fn law_a_turn_makes_an_item(w: ProducerWorker, tint: Rgb, board: Board)
    requires
        w.phase is Turn,
        w.id < board.producers.len(),
        w.item_seq < u64::MAX,
    ensures
        ({
            let (next, after, task) = w.proceeded(true, tint, board);
            &&& next.phase is Thinking
            &&& next.id == w.id
            &&& next.item_seq == w.item_seq + 1
            &&& next.item.color == tint
            &&& next.item.producer_id == w.id
            &&& next.item.id == ((w.id as u64) << 32u64) | w.item_seq
            &&& w.id <= 0xffff_ffff && w.item_seq <= 0xffff_ffff ==> next.item.id == 0x1_0000_0000
                * w.id + w.item_seq
            &&& next.rng.state == crate::rng::next_state(crate::rng::next_state(w.rng.state))
            &&& task is Sleep
            &&& task->Sleep_0 == 600 + next.rng.state % 1800
            &&& board.same_producers_but(after, w.id as int)
            &&& after.producers[w.id as int].state == ActorState::ActiveColor
            &&& after.producers[w.id as int].color == tint
            &&& after.producers[w.id as int].count == board.producers[w.id as int].count
            &&& after.consumers == board.consumers
            &&& board.same_items(after)
        }),
{
    let p = w.id as u64;
    let i = w.item_seq;
    assert(p <= 0xffff_ffff && i <= 0xffff_ffff ==> (p << 32u64) | i == 0x1_0000_0000 * p + i)
        by (bit_vector);
}

/// When its item is made a producer is shown waiting, its item beside it, and
/// asks for the buffer.
pub proof fn law_a_made_item_is_brought(w: ProducerWorker, tint: Rgb, board: Board)
    requires
        w.phase is Thinking,
        w.id < board.producers.len(),
    ensures
        ({
            let (next, after, task) = w.proceeded(true, tint, board);
            &&& next.phase is Queueing
            &&& next.id == w.id
            &&& next.item == w.item
            &&& next.item_seq == w.item_seq
            &&& next.rng == w.rng
            &&& task is Begin
            &&& board.same_producers_but(after, w.id as int)
            &&& after.producers[w.id as int].state == ActorState::Waiting
            &&& after.producers[w.id as int].color == (Rgb { r: 0, g: 0, b: 0 })
            &&& after.producers[w.id as int].count == board.producers[w.id as int].count
            &&& after.consumers == board.consumers
            &&& after.slots == board.slots
            &&& after.stats == board.stats
            &&& after.moving == board.moving.push(
                MovingItemVisual {
                    id: w.item.id,
                    color: w.item.color,
                    position: ItemPosition {
                        from: Place::Producer(w.id),
                        to: Place::Producer(w.id),
                        step: 0,
                    },
                },
            )
        }),
{
}

/// A producer that gets the buffer is shown holding it, with the buffer as it
/// is then, and starts to move its item to the slot it was given.
pub proof fn law_a_given_slot_is_headed_for(
    w: ProducerWorker,
    slot: usize,
    picture: Picture,
    board: Board,
)
    requires
        w.id < board.producers.len(),
    ensures
        ({
            let (next, after, task) = w.granted(Some((slot, picture)), board);
            &&& next.phase == ActorPhase::Moving(slot, 0)
            &&& next.id == w.id
            &&& next.item == w.item
            &&& next.item_seq == w.item_seq
            &&& next.rng == w.rng
            &&& task is AwaitTurn
            &&& board.same_producers_but(after, w.id as int)
            &&& after.producers[w.id as int].state == ActorState::HoldingLock
            &&& after.producers[w.id as int].color == (Rgb { r: 255, g: 255, b: 255 })
            &&& after.producers[w.id as int].count == board.producers[w.id as int].count
            &&& after.consumers == board.consumers
            &&& after.moving == board.moving
            &&& after.shows_picture(picture)
        }),
{
}

/// While a producer's item moves it is seen at each of twenty steps from the
/// producer to the slot, resting a twentieth of seven tenths of a second at
/// each but the last, after which it is put in.
pub proof fn law_items_move_to_their_slot(
    w: ProducerWorker,
    tint: Rgb,
    board: Board,
    slot: usize,
    step: u32,
    k: int,
)
    requires
        step <= 20,
        0 <= k <= board.moving.len(),
        k < board.moving.len() ==> board.moving[k].id == w.item.id,
        forall|j: int| 0 <= j < k ==> (#[trigger] board.moving[j]).id != w.item.id,
    ensures
        w.phase == ActorPhase::Moving(slot, step) ==> {
            let (next, after, task) = w.proceeded(true, tint, board);
            &&& next.id == w.id
            &&& next.item == w.item
            &&& next.item_seq == w.item_seq
            &&& next.rng == w.rng
            &&& step < 20 ==> next.phase == ActorPhase::Resting(slot, step) && task
                == ActorTask::Sleep(35)
            &&& step == 20 ==> next.phase == ActorPhase::Committing(slot) && task
                == ActorTask::Put(slot, w.item)
            &&& after.moving.len() == board.moving.len()
            &&& k < board.moving.len() ==> {
                &&& after.moving[k].id == w.item.id
                &&& after.moving[k].color == board.moving[k].color
                &&& after.moving[k].position.from == Place::Producer(w.id)
                &&& after.moving[k].position.to == Place::Slot(slot)
                &&& after.moving[k].position.step == step
            }
            &&& forall|j: int|
                0 <= j < board.moving.len() && j != k ==> after.moving[j] == board.moving[j]
            &&& after.slots == board.slots
            &&& after.stats == board.stats
            &&& after.producers == board.producers
            &&& after.consumers == board.consumers
        },
        w.phase == ActorPhase::Resting(slot, step) && step < 20 ==> {
            let (next, after, task) = w.proceeded(true, tint, board);
            &&& next.phase == ActorPhase::Moving(slot, (step + 1) as u32)
            &&& next.item == w.item
            &&& next.id == w.id
            &&& next.item_seq == w.item_seq
            &&& next.rng == w.rng
            &&& after == board
            &&& task is AwaitTurn
        },
{
    lemma_first_with(board.moving, w.item.id, k);
}

/// A producer whose item is in the buffer is shown active and counted once
/// more, the buffer as it is then, and waits for its next turn.
pub proof fn law_a_put_item_is_counted(w: ProducerWorker, picture: Picture, board: Board)
    requires
        w.id < board.producers.len(),
        board.producers[w.id as int].count < usize::MAX,
    ensures
        ({
            let (next, after, task) = w.finished(picture, board);
            &&& next.phase is Turn
            &&& next.id == w.id
            &&& next.item == w.item
            &&& next.item_seq == w.item_seq
            &&& next.rng == w.rng
            &&& task is AwaitTurn
            &&& board.same_producers_but(after, w.id as int)
            &&& after.producers[w.id as int].state == ActorState::ActiveColor
            &&& after.producers[w.id as int].color == (Rgb { r: 255, g: 255, b: 255 })
            &&& after.producers[w.id as int].count == board.producers[w.id as int].count + 1
            &&& after.consumers == board.consumers
            &&& after.moving == board.moving.filter(|i: MovingItemVisual| i.id != w.item.id)
            &&& after.shows_picture(picture)
        }),
{
}

/// A producer that leaves is shown stopped, in dark grey, and its item not at
/// all if it was on its way.
pub proof fn law_a_leaving_producer_is_grey(w: ProducerWorker, tint: Rgb, board: Board)
    requires
        w.id < board.producers.len(),
    ensures
        ({
            let (next, after, _) = w.proceeded(false, tint, board);
            &&& next.phase is Over
            &&& board.same_producers_but(after, w.id as int)
            &&& after.producers[w.id as int].state == ActorState::Stopped
            &&& after.producers[w.id as int].color == (Rgb { r: 90, g: 90, b: 90 })
            &&& after.producers[w.id as int].count == board.producers[w.id as int].count
            &&& after.consumers == board.consumers
            &&& after.slots == board.slots
            &&& after.stats == board.stats
            &&& after.moving == (if w.phase is Moving || w.phase is Resting {
                board.moving.filter(|i: MovingItemVisual| i.id != w.item.id)
            } else {
                board.moving
            })
        }),
        ({
            let (next, after, task) = w.granted(None, board);
            &&& next.phase is Over
            &&& task is Quit
            &&& board.same_producers_but(after, w.id as int)
            &&& after.producers[w.id as int].state == ActorState::Stopped
            &&& after.producers[w.id as int].color == (Rgb { r: 90, g: 90, b: 90 })
            &&& after.consumers == board.consumers
            &&& after.slots == board.slots
            &&& after.stats == board.stats
            &&& after.moving == board.moving.filter(|i: MovingItemVisual| i.id != w.item.id)
        }),
{
}

/// When its turn has come a consumer works for some time, by chance, and looks
/// as before; then it is shown waiting, and asks for the buffer.
pub proof fn law_consumers_think_and_queue(w: ConsumerWorker, board: Board)
    requires
        w.id < board.consumers.len(),
    ensures
        w.phase is Turn ==> {
            let (next, after, task) = w.proceeded(true, board);
            &&& next.phase is Thinking
            &&& next.id == w.id
            &&& next.item == w.item
            &&& next.rng.state == crate::rng::next_state(w.rng.state)
            &&& task is Sleep
            &&& task->Sleep_0 == 600 + next.rng.state % 1800
            &&& after == board
        },
        w.phase is Thinking ==> {
            let (next, after, task) = w.proceeded(true, board);
            &&& next.phase is Queueing
            &&& next.id == w.id
            &&& next.item == w.item
            &&& next.rng == w.rng
            &&& task is Begin
            &&& board.same_consumers_but(after, w.id as int)
            &&& after.consumers[w.id as int].state == ActorState::Waiting
            &&& after.consumers[w.id as int].color == (Rgb { r: 0, g: 0, b: 0 })
            &&& after.consumers[w.id as int].count == board.consumers[w.id as int].count
            &&& after.producers == board.producers
            &&& board.same_items(after)
        },
{
}

/// A consumer that gets the buffer is shown holding it, with the buffer as it
/// is then, and its item appears at the slot it was in.
pub proof fn law_a_given_item_leaves_its_slot(
    w: ConsumerWorker,
    slot: usize,
    item: QueueItem,
    picture: Picture,
    board: Board,
)
    requires
        w.id < board.consumers.len(),
    ensures
        ({
            let (next, after, task) = w.granted(Some((slot, item, picture)), board);
            &&& next.phase == ActorPhase::Moving(slot, 0)
            &&& next.id == w.id
            &&& next.item == item
            &&& next.rng == w.rng
            &&& task is AwaitTurn
            &&& board.same_consumers_but(after, w.id as int)
            &&& after.consumers[w.id as int].state == ActorState::HoldingLock
            &&& after.consumers[w.id as int].color == (Rgb { r: 255, g: 255, b: 255 })
            &&& after.consumers[w.id as int].count == board.consumers[w.id as int].count
            &&& after.producers == board.producers
            &&& after.shows_picture(picture)
            &&& after.moving == board.moving.push(
                MovingItemVisual {
                    id: item.id,
                    color: item.color,
                    position: ItemPosition {
                        from: Place::Slot(slot),
                        to: Place::Slot(slot),
                        step: 0,
                    },
                },
            )
        }),
{
}

/// While a consumer's item moves it is seen at each of twenty steps from the
/// slot to the consumer, resting a twentieth of seven tenths of a second at
/// each but the last, after which the buffer is unlocked.
pub proof fn law_items_move_to_their_consumer(
    w: ConsumerWorker,
    board: Board,
    slot: usize,
    step: u32,
    k: int,
)
    requires
        step <= 20,
        0 <= k <= board.moving.len(),
        k < board.moving.len() ==> board.moving[k].id == w.item.id,
        forall|j: int| 0 <= j < k ==> (#[trigger] board.moving[j]).id != w.item.id,
    ensures
        w.phase == ActorPhase::Moving(slot, step) ==> {
            let (next, after, task) = w.proceeded(true, board);
            &&& next.id == w.id
            &&& next.item == w.item
            &&& next.rng == w.rng
            &&& step < 20 ==> next.phase == ActorPhase::Resting(slot, step) && task
                == ActorTask::Sleep(35)
            &&& step == 20 ==> next.phase == ActorPhase::Committing(slot) && task is Unlock
            &&& after.moving.len() == board.moving.len()
            &&& k < board.moving.len() ==> {
                &&& after.moving[k].id == w.item.id
                &&& after.moving[k].color == board.moving[k].color
                &&& after.moving[k].position.from == Place::Slot(slot)
                &&& after.moving[k].position.to == Place::Consumer(w.id)
                &&& after.moving[k].position.step == step
            }
            &&& forall|j: int|
                0 <= j < board.moving.len() && j != k ==> after.moving[j] == board.moving[j]
            &&& after.slots == board.slots
            &&& after.stats == board.stats
            &&& after.producers == board.producers
            &&& after.consumers == board.consumers
        },
        w.phase == ActorPhase::Resting(slot, step) && step < 20 ==> {
            let (next, after, task) = w.proceeded(true, board);
            &&& next.phase == ActorPhase::Moving(slot, (step + 1) as u32)
            &&& next.item == w.item
            &&& next.id == w.id
            &&& next.rng == w.rng
            &&& after == board
            &&& task is AwaitTurn
        },
{
    lemma_first_with(board.moving, w.item.id, k);
}

/// A consumer that has its item is shown active in the item's colour and
/// counted once more, the buffer as it is then, and waits for its next turn.
pub proof fn law_a_taken_item_is_counted(w: ConsumerWorker, picture: Picture, board: Board)
    requires
        w.id < board.consumers.len(),
        board.consumers[w.id as int].count < usize::MAX,
    ensures
        ({
            let (next, after, task) = w.finished(picture, board);
            &&& next.phase is Turn
            &&& next.id == w.id
            &&& next.item == w.item
            &&& next.rng == w.rng
            &&& task is AwaitTurn
            &&& board.same_consumers_but(after, w.id as int)
            &&& after.consumers[w.id as int].state == ActorState::ActiveColor
            &&& after.consumers[w.id as int].color == w.item.color
            &&& after.consumers[w.id as int].count == board.consumers[w.id as int].count + 1
            &&& after.producers == board.producers
            &&& after.moving == board.moving.filter(|i: MovingItemVisual| i.id != w.item.id)
            &&& after.shows_picture(picture)
        }),
{
}

/// A consumer that leaves is shown stopped, in dark grey, and its item not at
/// all if it was on its way.
pub proof fn law_a_leaving_consumer_is_grey(w: ConsumerWorker, board: Board)
    requires
        w.id < board.consumers.len(),
    ensures
        ({
            let (next, after, _) = w.proceeded(false, board);
            &&& next.phase is Over
            &&& board.same_consumers_but(after, w.id as int)
            &&& after.consumers[w.id as int].state == ActorState::Stopped
            &&& after.consumers[w.id as int].color == (Rgb { r: 90, g: 90, b: 90 })
            &&& after.consumers[w.id as int].count == board.consumers[w.id as int].count
            &&& after.producers == board.producers
            &&& after.slots == board.slots
            &&& after.stats == board.stats
            &&& after.moving == (if w.phase is Moving || w.phase is Resting {
                board.moving.filter(|i: MovingItemVisual| i.id != w.item.id)
            } else {
                board.moving
            })
        }),
        ({
            let (next, after, task) = w.granted(None, board);
            &&& next.phase is Over
            &&& task is Quit
            &&& board.same_consumers_but(after, w.id as int)
            &&& after.consumers[w.id as int].state == ActorState::Stopped
            &&& after.consumers[w.id as int].color == (Rgb { r: 90, g: 90, b: 90 })
            &&& after.producers == board.producers
            &&& board.same_items(after)
        }),
{
}

/// Two actors of a side have the same colour exactly if their numbers differ by
/// whole rounds of eight.
pub proof fn law_eight_colours_take_turns(one: int, other: int, rounds: int, rest: int)
    requires
        0 <= one,
        0 <= other,
        one - other == 8 * rounds + rest,
        0 <= rest < 8,
    ensures
        crate::producer_consumer::look::palette_color(one)
            == crate::producer_consumer::look::palette_color(other) <==> rest == 0,
{
    assert(rest == 0 <==> one % 8 == other % 8);
}

} // verus!
