//! What a run leaves on record: counts, item numbers, and items on their way.
use vstd::prelude::*;

use crate::producer_consumer::board::{
    ActorKind,
    ActorState,
    Board,
    ItemPosition,
    MovingItemVisual,
};
use crate::producer_consumer::crew::{Crew, Event};
use crate::producer_consumer::queue::QueueItem;
use crate::producer_consumer::worker::{item_number, ActorPhase, ProducerWorker};

verus! {

/// The producer that an item's number names.
pub open spec fn maker(number: u64) -> u64 {
    number >> 32u64
}

/// The item's place in its producer's series, by its number.
pub open spec fn series_place(number: u64) -> u64 {
    number & 0xffff_ffff
}

proof fn lemma_number_parts(producer: usize, seq: u64)
    requires
        producer <= 0xffff_ffff,
        seq <= 0xffff_ffff,
    ensures
        maker(item_number(producer, seq)) == producer,
        series_place(item_number(producer, seq)) == seq,
{
    let p = producer as u64;
    assert(((p << 32u64) | seq) >> 32u64 == p && ((p << 32u64) | seq) & 0xffff_ffff == seq)
        by (bit_vector)
        requires
            p <= 0xffff_ffff,
            seq <= 0xffff_ffff,
    ;
}

impl Board {
    /// An item with the number is seen moving.
    pub open spec fn shows(self, number: u64) -> bool {
        exists|k: int| 0 <= k < self.moving.len() && (#[trigger] self.moving[k]).id == number
    }
}

proof fn lemma_filtered_are_among(
    items: Seq<MovingItemVisual>,
    keep: spec_fn(MovingItemVisual) -> bool,
    k: int,
)
    requires
        0 <= k < items.filter(keep).len(),
    ensures
        exists|j: int| 0 <= j < items.len() && #[trigger] items[j] == items.filter(keep)[k],
        keep(items.filter(keep)[k]),
    decreases items.len(),
{
    reveal(Seq::filter);
    if items.len() > 0 {
        let rest = items.drop_last();
        let kept = rest.filter(keep);
        if k < kept.len() {
            lemma_filtered_are_among(rest, keep, k);
            let j = choose|j: int| 0 <= j < rest.len() && #[trigger] rest[j] == kept[k];
            assert(items[j] == items.filter(keep)[k]);
        } else {
            assert(items[items.len() - 1] == items.filter(keep)[k]);
        }
    }
}

proof fn lemma_shows_after_removal(board: Board, removed: u64, number: u64)
    requires
        board.without_moving(removed).shows(number),
    ensures
        number != removed,
        board.shows(number),
{
    let after = board.without_moving(removed);
    let k = choose|k: int| 0 <= k < after.moving.len() && (#[trigger] after.moving[k]).id == number;
    let keep = |item: MovingItemVisual| item.id != removed;
    lemma_filtered_are_among(board.moving, keep, k);
    let j = choose|j: int|
        0 <= j < board.moving.len() && #[trigger] board.moving[j] == board.moving.filter(keep)[k];
    assert(board.moving[j].id == number);
}

proof fn lemma_shows_after_move(board: Board, moved: u64, position: ItemPosition, number: u64)
    requires
        board.with_moved(moved, position).shows(number),
    ensures
        board.shows(number),
{
    let after = board.with_moved(moved, position);
    let k = choose|k: int| 0 <= k < after.moving.len() && (#[trigger] after.moving[k]).id == number;
    lemma_first_with_bounds(board.moving, moved);
    assert(board.moving[k].id == number);
}

proof fn lemma_first_with_bounds(items: Seq<MovingItemVisual>, id: u64)
    ensures
        0 <= crate::producer_consumer::board::first_with(items, id) <= items.len(),
    decreases items.len(),
{
    if items.len() > 0 {
        lemma_first_with_bounds(items.drop_first(), id);
    }
}

proof fn lemma_shows_after_addition(
    board: Board,
    added: u64,
    color: crate::color::Rgb,
    position: ItemPosition,
    number: u64,
)
    requires
        board.with_moving(added, color, position).shows(number),
    ensures
        number == added || board.shows(number),
{
    let after = board.with_moving(added, color, position);
    let k = choose|k: int| 0 <= k < after.moving.len() && (#[trigger] after.moving[k]).id == number;
    if k < board.moving.len() {
        assert(board.moving[k].id == number);
    }
}

/// Nothing moves on a board that shows what another shows.
proof fn lemma_shows_same(board: Board, other: Board, number: u64)
    requires
        board.moving == other.moving,
        board.shows(number),
    ensures
        other.shows(number),
{
    let k = choose|k: int| 0 <= k < board.moving.len() && (#[trigger] board.moving[k]).id == number;
    assert(other.moving[k].id == number);
}

impl ActorPhase {
    /// A producer's item is on its way to the buffer, or about to be.
    pub open spec fn sends(self) -> bool {
        self is Queueing || self.holding()
    }

    /// A producer has made an item that it has not yet put in.
    pub open spec fn has_made(self) -> bool {
        self is Thinking || self.sends()
    }
}

impl ProducerWorker {
    /// How many items the producer is done with.
    pub open spec fn done(self) -> int {
        if self.phase.has_made() {
            self.item_seq - 1
        } else {
            self.item_seq as int
        }
    }
}

impl Crew {
    /// Each actor is on the board, under its number.
    pub open spec fn seated(self) -> bool {
        &&& self.producers.len() == self.board.producers.len()
        &&& self.consumers.len() == self.board.consumers.len()
        &&& forall|i: int| 0 <= i < self.producers.len() ==> (#[trigger] self.producers[i]).id == i
        &&& forall|i: int| 0 <= i < self.consumers.len() ==> (#[trigger] self.consumers[i]).id == i
    }

    /// A producer sends the item with the number.
    pub open spec fn sent_by(self, i: int, number: u64) -> bool {
        &&& 0 <= i < self.producers.len()
        &&& self.producers[i].phase.sends()
        &&& self.producers[i].item.id == number
    }

    /// A consumer fetches the item with the number.
    pub open spec fn fetched_by(self, j: int, number: u64) -> bool {
        &&& 0 <= j < self.consumers.len()
        &&& self.consumers[j].phase.holding()
        &&& self.consumers[j].item.id == number
    }

    /// Somebody is at work on the item with the number.
    pub open spec fn in_work(self, number: u64) -> bool {
        ||| exists|i: int| #[trigger] self.sent_by(i, number)
        ||| exists|j: int| #[trigger] self.fetched_by(j, number)
    }

    /// Somebody other than the given consumer is at work on the item with the
    /// number.
    pub open spec fn in_others_work(self, number: u64, consumer: int) -> bool {
        ||| exists|i: int| #[trigger] self.sent_by(i, number)
        ||| exists|j: int| j != consumer && #[trigger] self.fetched_by(j, number)
    }

    /// The item with the number was put into the buffer.
    pub open spec fn has_put(self, number: u64) -> bool {
        exists|l: int| 0 <= l < self.put.len() && (#[trigger] self.put[l]).id == number
    }

    /// The board is up to date: whoever has left is shown stopped, and every
    /// item that is seen moving is in work.
    pub open spec fn up_to_date(self) -> bool {
        &&& forall|i: int|
            0 <= i < self.producers.len() && (#[trigger] self.producers[i]).phase is Over
                ==> self.board.producers[i].state == ActorState::Stopped
        &&& forall|j: int|
            0 <= j < self.consumers.len() && (#[trigger] self.consumers[j]).phase is Over
                ==> self.board.consumers[j].state == ActorState::Stopped
        &&& forall|number: u64| #[trigger] self.board.shows(number) ==> self.in_work(number)
    }

    /// Nobody has made more items than can be told apart.
    pub open spec fn few_items(self) -> bool {
        &&& self.producers.len() <= 0x1_0000_0000
        &&& forall|i: int|
            0 <= i < self.producers.len() ==> (#[trigger] self.producers[i]).item_seq
                <= 0x1_0000_0000
    }

    /// Items are numbered: each by its producer and its place in the series,
    /// and no two that were put in alike.
    pub open spec fn numbered(self) -> bool {
        &&& forall|i: int|
            0 <= i < self.producers.len() && (#[trigger] self.producers[i]).phase.has_made() ==> {
                let w = self.producers[i];
                &&& w.item_seq > 0
                &&& w.item.id == item_number(w.id, (w.item_seq - 1) as u64)
                &&& w.item.producer_id == i
            }
        &&& forall|k: int|
            0 <= k < self.put.len() ==> {
                let item = #[trigger] self.put[k];
                &&& item.producer_id < self.producers.len()
                &&& maker(item.id) == item.producer_id
                &&& series_place(item.id) < self.producers[item.producer_id as int].done()
            }
        &&& forall|k: int, l: int|
            #![trigger self.put[k], self.put[l]]
            0 <= k < l < self.put.len() ==> self.put[k].id != self.put[l].id
        &&& forall|j: int|
            0 <= j < self.consumers.len() && (#[trigger] self.consumers[j]).phase.holding()
                ==> self.taken.contains(self.consumers[j].item)
    }
}

/// How often an actor commits in a series of events.
pub open spec fn commits(events: Seq<Event>, kind: ActorKind, id: int) -> int
    decreases events.len(),
{
    if events.len() == 0 {
        0
    } else {
        commits(events.drop_last(), kind, id) + (if is_commit(events.last(), kind, id) {
            1int
        } else {
            0
        })
    }
}

/// The event is a commit of the actor.
pub open spec fn is_commit(event: Event, kind: ActorKind, id: int) -> bool {
    match kind {
        ActorKind::Producer => event == Event::ProducerCommit { id },
        ActorKind::Consumer => event == Event::ConsumerCommit { id },
    }
}

proof fn lemma_commits_bounds(events: Seq<Event>, kind: ActorKind, id: int)
    ensures
        commits(events, kind, id) >= 0,
    decreases events.len(),
{
    if events.len() > 0 {
        lemma_commits_bounds(events.drop_last(), kind, id);
    }
}

/// What a producer's event does to the items in work.
proof fn lemma_producer_keeps_work(c: Crew, event: Event, id: int, number: u64)
    requires
        c.seated(),
        c.up_to_date(),
        c.allows(event),
        event == (Event::ProducerCommit { id }) || (event is ProducerProceed
            && event->ProducerProceed_id == id) || (event is ProducerBegin
            && event->ProducerBegin_id == id),
        c.after(event).board.shows(number),
    ensures
        c.after(event).in_work(number),
{
    let d = c.after(event);
    let before = c.producers[id];
    let next = d.producers[id];
    let board = c.board;
    if before.phase.sends() && !next.phase.sends() {
        assert(d.board.moving == board.without_moving(before.item.id).moving);
        lemma_shows_same(d.board, board.without_moving(before.item.id), number);
        lemma_shows_after_removal(board, before.item.id, number);
    } else if before.phase is Thinking && next.phase is Queueing {
        let position = crate::producer_consumer::board::position_at(
            crate::producer_consumer::board::Place::Producer(before.id),
        );
        let added = board.with_moving(before.item.id, before.item.color, position);
        lemma_shows_same(d.board, added, number);
        lemma_shows_after_addition(board, before.item.id, before.item.color, position, number);
        assert(d.sent_by(id, before.item.id));
    } else if before.phase is Moving {
        let (slot, step) = (before.phase->Moving_0, before.phase->Moving_1);
        let position = ItemPosition {
            from: crate::producer_consumer::board::Place::Producer(before.id),
            to: crate::producer_consumer::board::Place::Slot(slot),
            step,
        };
        lemma_shows_same(d.board, board.with_moved(before.item.id, position), number);
        lemma_shows_after_move(board, before.item.id, position, number);
    } else {
        lemma_shows_same(d.board, board, number);
    }
    if before.item.id != number || !next.phase.sends() {
        assert(c.in_work(number));
        if exists|i: int| #[trigger] c.sent_by(i, number) {
            let i = choose|i: int| #[trigger] c.sent_by(i, number);
            assert(i != id);
            assert(d.sent_by(i, number));
        } else {
            let j = choose|j: int| #[trigger] c.fetched_by(j, number);
            assert(d.fetched_by(j, number));
        }
    } else {
        assert(next.item == before.item);
        assert(d.sent_by(id, number));
    }
}

/// What a consumer's event does to the items in work.
proof fn lemma_consumer_keeps_work(c: Crew, event: Event, id: int, number: u64)
    requires
        c.seated(),
        c.up_to_date(),
        c.allows(event),
        event == (Event::ConsumerCommit { id }) || (exists|running: bool|
            event == (Event::ConsumerProceed { id, running }) || event == (Event::ConsumerBegin {
                id,
                running,
            })),
        c.after(event).board.shows(number),
    ensures
        c.after(event).in_work(number),
{
    let d = c.after(event);
    let before = c.consumers[id];
    let next = d.consumers[id];
    let board = c.board;
    if before.phase.holding() && !next.phase.holding() {
        assert(d.board.moving == board.without_moving(before.item.id).moving);
        lemma_shows_same(d.board, board.without_moving(before.item.id), number);
        lemma_shows_after_removal(board, before.item.id, number);
    } else if before.phase is Queueing && next.phase is Moving {
        let position = crate::producer_consumer::board::position_at(
            crate::producer_consumer::board::Place::Slot(next.phase->Moving_0),
        );
        let added = board.with_moving(next.item.id, next.item.color, position);
        lemma_shows_same(d.board, added, number);
        lemma_shows_after_addition(board, next.item.id, next.item.color, position, number);
        assert(d.fetched_by(id, next.item.id));
    } else if before.phase is Moving {
        let (slot, step) = (before.phase->Moving_0, before.phase->Moving_1);
        let position = ItemPosition {
            from: crate::producer_consumer::board::Place::Slot(slot),
            to: crate::producer_consumer::board::Place::Consumer(before.id),
            step,
        };
        lemma_shows_same(d.board, board.with_moved(before.item.id, position), number);
        lemma_shows_after_move(board, before.item.id, position, number);
    } else {
        lemma_shows_same(d.board, board, number);
    }
    if next.phase.holding() && next.item.id == number {
        assert(d.fetched_by(id, number));
    } else {
        assert(c.in_work(number));
        if exists|i: int| #[trigger] c.sent_by(i, number) {
            let i = choose|i: int| #[trigger] c.sent_by(i, number);
            assert(d.sent_by(i, number));
        } else {
            let j = choose|j: int| #[trigger] c.fetched_by(j, number);
            assert(j != id);
            assert(d.fetched_by(j, number));
        }
    }
}

proof fn lemma_event_keeps_seats(c: Crew, event: Event)
    requires
        c.seated(),
        c.allows(event),
    ensures
        c.after(event).seated(),
        c.after(event).producers.len() == c.producers.len(),
        c.after(event).consumers.len() == c.consumers.len(),
{
}

/// An event keeps the board up to date.
pub proof fn law_events_keep_boards_up_to_date(c: Crew, event: Event)
    requires
        c.seated(),
        c.up_to_date(),
        c.allows(event),
    ensures
        c.after(event).seated(),
        c.after(event).up_to_date(),
{
    let d = c.after(event);
    lemma_event_keeps_seats(c, event);
    assert forall|number: u64| #[trigger] d.board.shows(number) implies d.in_work(number) by {
        match event {
            Event::ProducerProceed { id, .. } => lemma_producer_keeps_work(
                c,
                event,
                id,
                number,
            ),
            Event::ProducerBegin { id, running } => lemma_producer_keeps_work(c, event, id, number),
            Event::ProducerCommit { id } => lemma_producer_keeps_work(c, event, id, number),
            Event::ConsumerProceed { id, running } => lemma_consumer_keeps_work(
                c,
                event,
                id,
                number,
            ),
            Event::ConsumerBegin { id, running } => lemma_consumer_keeps_work(c, event, id, number),
            Event::ConsumerCommit { id } => lemma_consumer_keeps_work(c, event, id, number),
            _ => {
                assert(c.in_work(number));
                if exists|i: int| #[trigger] c.sent_by(i, number) {
                    let i = choose|i: int| #[trigger] c.sent_by(i, number);
                    assert(d.sent_by(i, number));
                } else {
                    let j = choose|j: int| #[trigger] c.fetched_by(j, number);
                    assert(d.fetched_by(j, number));
                }
            },
        }
    }
}

/// The board stays up to date, however the actors are interleaved.
pub proof fn law_boards_stay_up_to_date(c: Crew, events: Seq<Event>)
    requires
        c.seated(),
        c.up_to_date(),
        c.allows_all(events),
    ensures
        c.after_all(events).seated(),
        c.after_all(events).up_to_date(),
        c.after_all(events).producers.len() == c.producers.len(),
        c.after_all(events).consumers.len() == c.consumers.len(),
    decreases events.len(),
{
    if events.len() > 0 {
        law_boards_stay_up_to_date(c, events.drop_last());
        law_events_keep_boards_up_to_date(c.after_all(events.drop_last()), events.last());
        lemma_event_keeps_seats(c.after_all(events.drop_last()), events.last());
    }
}

/// When everybody has left, everybody is shown stopped and no item is seen
/// moving.
pub proof fn law_nothing_moves_at_the_end(c: Crew, i: int)
    requires
        c.seated(),
        c.up_to_date(),
        forall|i: int| 0 <= i < c.producers.len() ==> (#[trigger] c.producers[i]).phase is Over,
        forall|j: int| 0 <= j < c.consumers.len() ==> (#[trigger] c.consumers[j]).phase is Over,
    ensures
        c.board.moving.len() == 0,
        0 <= i < c.board.producers.len() ==> c.board.producers[i].state == ActorState::Stopped,
        0 <= i < c.board.consumers.len() ==> c.board.consumers[i].state == ActorState::Stopped,
{
    if 0 <= i < c.producers.len() {
        assert(c.producers[i].phase is Over);
    }
    if 0 <= i < c.consumers.len() {
        assert(c.consumers[i].phase is Over);
    }
    if c.board.moving.len() > 0 {
        let number = c.board.moving[0].id;
        assert(c.board.shows(number));
        assert(c.in_work(number));
        if exists|i: int| #[trigger] c.sent_by(i, number) {
            let i = choose|i: int| #[trigger] c.sent_by(i, number);
            assert(c.producers[i].phase is Over);
        } else {
            let j = choose|j: int| #[trigger] c.fetched_by(j, number);
            assert(c.consumers[j].phase is Over);
        }
    }
}

proof fn lemma_event_counts(c: Crew, event: Event, kind: ActorKind, id: int)
    requires
        c.seated(),
        c.allows(event),
        0 <= id < c.board.actors(kind).len(),
    ensures
        c.after(event).board.actors(kind)[id].count == (if is_commit(event, kind, id) {
            (c.board.actors(kind)[id].count + 1) as usize
        } else {
            c.board.actors(kind)[id].count
        }),
{
}

/// Over a run an actor's count grows by exactly its commits, as long as they
/// can be counted.
pub proof fn law_counts_are_commits(c: Crew, events: Seq<Event>, kind: ActorKind, id: int)
    requires
        c.seated(),
        c.up_to_date(),
        c.allows_all(events),
        0 <= id < c.board.actors(kind).len(),
        c.board.actors(kind)[id].count + commits(events, kind, id) <= usize::MAX,
    ensures
        c.after_all(events).board.actors(kind)[id].count == c.board.actors(kind)[id].count
            + commits(events, kind, id),
    decreases events.len(),
{
    if events.len() > 0 {
        let before = events.drop_last();
        lemma_commits_bounds(before, kind, id);
        law_counts_are_commits(c, before, kind, id);
        law_boards_stay_up_to_date(c, before);
        lemma_event_counts(c.after_all(before), events.last(), kind, id);
    }
}

/// An event keeps the items numbered, as long as they can be told apart.
pub proof fn law_events_keep_items_numbered(c: Crew, event: Event)
    requires
        c.sound(),
        c.seated(),
        c.numbered(),
        c.allows(event),
        c.after(event).few_items(),
    ensures
        c.few_items(),
        c.after(event).numbered(),
{
    let d = c.after(event);
    lemma_event_keeps_seats(c, event);
    assert forall|i: int| 0 <= i < c.producers.len() implies (#[trigger] c.producers[i]).item_seq
        <= 0x1_0000_0000 by {
        assert(d.producers[i].item_seq <= 0x1_0000_0000);
        assert(c.producers[i].item_seq <= d.producers[i].item_seq);
    }
    assert forall|i: int| 0 <= i < c.producers.len() implies #[trigger] d.producers[i].done()
        >= c.producers[i].done() by {}
    if let Event::ProducerCommit { id } = event {
        let w = c.producers[id];
        assert(w.phase.has_made());
        lemma_number_parts(w.id, (w.item_seq - 1) as u64);
        assert(d.put.last() == w.item);
        assert forall|k: int| 0 <= k < c.put.len() implies (#[trigger] c.put[k]).id != w.item.id by {
            if c.put[k].id == w.item.id {
                assert(c.put[k].producer_id == id);
            }
        }
        assert forall|k: int| 0 <= k < d.put.len() implies {
            let item = #[trigger] d.put[k];
            &&& item.producer_id < d.producers.len()
            &&& maker(item.id) == item.producer_id
            &&& series_place(item.id) < d.producers[item.producer_id as int].done()
        } by {
            if k < c.put.len() {
                assert(d.put[k] == c.put[k]);
            }
        }
        assert forall|k: int, l: int|
            #![trigger d.put[k], d.put[l]]
            0 <= k < l < d.put.len() implies d.put[k].id != d.put[l].id by {
            assert(d.put[k] == c.put[k]);
            if l < c.put.len() {
                assert(d.put[l] == c.put[l]);
            }
        }
    } else {
        assert(d.put == c.put);
    }
    assert forall|j: int|
        0 <= j < d.consumers.len() && (#[trigger] d.consumers[j]).phase.holding() implies d
        .taken.contains(d.consumers[j].item) by {
        lemma_taken_stays(c, event, j);
    }
}

proof fn lemma_taken_stays(c: Crew, event: Event, j: int)
    requires
        c.allows(event),
        c.numbered(),
        0 <= j < c.consumers.len(),
        c.after(event).consumers[j].phase.holding(),
    ensures
        c.after(event).taken.contains(c.after(event).consumers[j].item),
{
    let d = c.after(event);
    let item = d.consumers[j].item;
    if c.consumers[j].phase.holding() {
        assert(c.taken.contains(c.consumers[j].item));
        assert(item == c.consumers[j].item);
        let k = choose|k: int| 0 <= k < c.taken.len() && c.taken[k] == item;
        assert(d.taken[k] == item);
    } else {
        assert(d.taken.last() == item);
        assert(d.taken[d.taken.len() - 1] == item);
    }
}

/// The items stay numbered over a run, as long as they can be told apart.
pub proof fn law_items_stay_numbered(c: Crew, events: Seq<Event>)
    requires
        c.sound(),
        c.seated(),
        c.up_to_date(),
        c.numbered(),
        c.allows_all(events),
        c.after_all(events).few_items(),
    ensures
        c.after_all(events).numbered(),
        c.few_items(),
    decreases events.len(),
{
    if events.len() > 0 {
        let before = events.drop_last();
        let d = c.after_all(before);
        crate::producer_consumer::crew::law_runs_stay_sound(c, before);
        law_boards_stay_up_to_date(c, before);
        lemma_few_items_before(d, events.last());
        law_items_stay_numbered(c, before);
        law_events_keep_items_numbered(d, events.last());
    }
}

proof fn lemma_few_items_before(c: Crew, event: Event)
    requires
        c.seated(),
        c.allows(event),
        c.after(event).few_items(),
    ensures
        c.few_items(),
{
    let d = c.after(event);
    assert forall|i: int| 0 <= i < c.producers.len() implies (#[trigger] c.producers[i]).item_seq
        <= 0x1_0000_0000 by {
        assert(d.producers[i].item_seq <= 0x1_0000_0000);
    }
}

/// No two items put in over a run have the same number, and each carries the
/// number of its producer.
pub proof fn law_items_put_in_are_distinct(c: Crew, events: Seq<Event>, k: int, l: int)
    requires
        c.sound(),
        c.seated(),
        c.up_to_date(),
        c.numbered(),
        c.allows_all(events),
        c.after_all(events).few_items(),
        0 <= k < l < c.after_all(events).put.len(),
    ensures
        c.after_all(events).put[k].id != c.after_all(events).put[l].id,
        maker(c.after_all(events).put[k].id) == c.after_all(events).put[k].producer_id,
        maker(c.after_all(events).put[l].id) == c.after_all(events).put[l].producer_id,
{
    law_items_stay_numbered(c, events);
}

/// A producer that has left leaves none of its items moving but those that it
/// had put in.
pub proof fn law_leaving_producers_clear_up(c: Crew, id: int, k: int)
    requires
        c.sound(),
        c.seated(),
        c.up_to_date(),
        c.numbered(),
        c.few_items(),
        0 <= id < c.producers.len(),
        c.producers[id].phase is Over,
        0 <= k < c.board.moving.len(),
        maker(c.board.moving[k].id) == id,
    ensures
        c.has_put(c.board.moving[k].id),
{
    let number = c.board.moving[k].id;
    assert(c.board.shows(number));
    if exists|i: int| #[trigger] c.sent_by(i, number) {
        let i = choose|i: int| #[trigger] c.sent_by(i, number);
        let w = c.producers[i];
        assert(w.phase.has_made());
        lemma_number_parts(w.id, (w.item_seq - 1) as u64);
    } else {
        let j = choose|j: int| #[trigger] c.fetched_by(j, number);
        let item: QueueItem = c.consumers[j].item;
        assert(c.taken.contains(item));
        let l = choose|l: int| 0 <= l < c.taken.len() && c.taken[l] == item;
        assert(c.put[l] == item);
    }
}

/// A run starts with everybody on the board, the board up to date and nothing
/// to number.
pub proof fn law_records_start_empty(c: Crew)
    requires
        c.board.moving.len() == 0,
        c.put.len() == 0,
        forall|i: int|
            0 <= i < c.producers.len() ==> (#[trigger] c.producers[i]).phase == ActorPhase::Turn,
        forall|i: int|
            0 <= i < c.consumers.len() ==> (#[trigger] c.consumers[i]).phase == ActorPhase::Turn,
    ensures
        c.up_to_date(),
        c.numbered(),
{
}

impl Crew {
    /// A run at its start: an empty buffer, nothing moving, and everybody on
    /// the board and waiting for a turn.
    pub open spec fn fresh(self) -> bool {
        &&& self.buffer.sound()
        &&& self.buffer.count == 0
        &&& self.put == Seq::<QueueItem>::empty()
        &&& self.taken == Seq::<QueueItem>::empty()
        &&& self.board.moving.len() == 0
        &&& self.seated()
        &&& forall|i: int|
            0 <= i < self.producers.len() ==> (#[trigger] self.producers[i]).phase
                == ActorPhase::Turn
        &&& forall|i: int|
            0 <= i < self.consumers.len() ==> (#[trigger] self.consumers[i]).phase
                == ActorPhase::Turn
    }
}

proof fn lemma_fresh_runs(c: Crew, events: Seq<Event>)
    requires
        c.fresh(),
        c.allows_all(events),
    ensures
        c.sound(),
        c.up_to_date(),
        c.numbered(),
        c.after_all(events).sound(),
        c.after_all(events).seated(),
        c.after_all(events).up_to_date(),
        c.after_all(events).producers.len() == c.producers.len(),
        c.after_all(events).consumers.len() == c.consumers.len(),
{
    crate::producer_consumer::crew::law_runs_start_sound(c);
    law_records_start_empty(c);
    crate::producer_consumer::crew::law_runs_stay_sound(c, events);
    law_boards_stay_up_to_date(c, events);
}

/// What a run has of a producer, from its start and however the actors are
/// interleaved. All items put in carry their producer's number, and no two
/// have the same. The producer's count is that of its commits. Once it has
/// left it is shown stopped, and none of its items is moving but those that it
/// had put in.
pub proof fn law_producers_over_a_run(c: Crew, events: Seq<Event>, id: int)
    requires
        c.fresh(),
        c.allows_all(events),
        c.after_all(events).few_items(),
        0 <= id < c.producers.len(),
        c.board.producers[id].count + commits(events, ActorKind::Producer, id) <= usize::MAX,
    ensures
        forall|k: int|
            0 <= k < c.after_all(events).put.len() ==> maker(
                (#[trigger] c.after_all(events).put[k]).id,
            ) == c.after_all(events).put[k].producer_id,
        forall|k: int, l: int|
            #![trigger c.after_all(events).put[k], c.after_all(events).put[l]]
            0 <= k < l < c.after_all(events).put.len() ==> c.after_all(events).put[k].id
                != c.after_all(events).put[l].id,
        c.after_all(events).board.producers[id].count == c.board.producers[id].count + commits(
            events,
            ActorKind::Producer,
            id,
        ),
        c.after_all(events).producers[id].phase is Over ==> c.after_all(events).board.producers[id].state
            == ActorState::Stopped,
        c.after_all(events).producers[id].phase is Over ==> forall|k: int|
            0 <= k < c.after_all(events).board.moving.len() && maker(
                (#[trigger] c.after_all(events).board.moving[k]).id,
            ) == id ==> c.after_all(events).has_put(c.after_all(events).board.moving[k].id),
{
    let d = c.after_all(events);
    lemma_fresh_runs(c, events);
    law_items_stay_numbered(c, events);
    law_counts_are_commits(c, events, ActorKind::Producer, id);
    if d.producers[id].phase is Over {
        assert forall|k: int|
            0 <= k < d.board.moving.len() && maker((#[trigger] d.board.moving[k]).id)
                == id implies d.has_put(d.board.moving[k].id) by {
            law_leaving_producers_clear_up(d, id, k);
        }
    }
}

/// What a run has of a consumer, from its start and however the actors are
/// interleaved. Its count is that of its commits, and after each it shows the
/// colour of its item. Once it has left it is shown stopped, and every item
/// that is moving is in the work of somebody else.
pub proof fn law_consumers_over_a_run(c: Crew, events: Seq<Event>, id: int)
    requires
        c.fresh(),
        c.allows_all(events),
        0 <= id < c.consumers.len(),
        c.board.consumers[id].count + commits(events, ActorKind::Consumer, id) <= usize::MAX,
    ensures
        c.after_all(events).board.consumers[id].count == c.board.consumers[id].count + commits(
            events,
            ActorKind::Consumer,
            id,
        ),
        events.len() > 0 && events.last() == (Event::ConsumerCommit { id }) ==> {
            let actor = c.after_all(events).board.consumers[id];
            &&& actor.color == c.after_all(events).consumers[id].item.color
            &&& actor.state == ActorState::ActiveColor
        },
        c.after_all(events).consumers[id].phase is Over ==> c.after_all(events).board.consumers[id].state
            == ActorState::Stopped,
        c.after_all(events).consumers[id].phase is Over ==> forall|number: u64|
            #[trigger] c.after_all(events).board.shows(number) ==> c.after_all(
                events,
            ).in_others_work(number, id),
{
    let d = c.after_all(events);
    lemma_fresh_runs(c, events);
    law_counts_are_commits(c, events, ActorKind::Consumer, id);
    if events.len() > 0 && events.last() == (Event::ConsumerCommit { id }) {
        let b = c.after_all(events.drop_last());
        lemma_fresh_runs(c, events.drop_last());
        assert(b.consumers[id].id == id);
    }
    if d.consumers[id].phase is Over {
        assert forall|number: u64| #[trigger] d.board.shows(number) implies d.in_others_work(
            number,
            id,
        ) by {
            assert(d.in_work(number));
            if !(exists|i: int| #[trigger] d.sent_by(i, number)) {
                let j = choose|j: int| #[trigger] d.fetched_by(j, number);
                assert(j != id);
            }
        }
    }
}

} // verus!
