//! What a run leaves on record: locks given back, accesses and colours.
use vstd::prelude::*;

use crate::reader_writer::crew::{Crew, Event};
use crate::reader_writer::store::{ThreadKind, ThreadStatus};
use crate::reader_writer::worker::ThreadPhase;

verus! {

impl ThreadPhase {
    /// No access is begun that is not completed.
    pub open spec fn between_accesses(self) -> bool {
        self is Turn || self is Thinking || self is Ready || self is Locking || self
            == ThreadPhase::Releasing(true)
    }
}

/// The thread gets the lock.
pub open spec fn is_grant(event: Event, i: int) -> bool {
    event is Lock && event->Lock_worker == i && event->Lock_running
}

/// The thread gives the lock back.
pub open spec fn is_free(event: Event, i: int) -> bool {
    event is Free && event->Free_worker == i
}

/// How often a thread gets the lock in a series of events.
pub open spec fn grants(events: Seq<Event>, i: int) -> int
    decreases events.len(),
{
    if events.len() == 0 {
        0
    } else {
        grants(events.drop_last(), i) + (if is_grant(events.last(), i) {
            1int
        } else {
            0
        })
    }
}

/// How often a thread gives the lock back in a series of events.
pub open spec fn frees(events: Seq<Event>, i: int) -> int
    decreases events.len(),
{
    if events.len() == 0 {
        0
    } else {
        frees(events.drop_last(), i) + (if is_free(events.last(), i) {
            1int
        } else {
            0
        })
    }
}

impl Crew {
    /// Each thread is in the store's list, at its place.
    pub open spec fn seated(self) -> bool {
        &&& self.workers.len() == self.store.threads.len()
        &&& forall|i: int|
            0 <= i < self.workers.len() ==> {
                let w = #[trigger] self.workers[i];
                &&& self.store.has(w.kind, w.id as int)
                &&& self.store.index_of(w.kind, w.id as int) == i
            }
    }

    /// The event completes an access of the thread: it has kept the lock for
    /// its time, and the run goes on.
    pub open spec fn completes(self, event: Event, i: int) -> bool {
        &&& event is Proceed
        &&& event->Proceed_worker == i
        &&& event->Proceed_running
        &&& self.workers[i].phase is Holding
    }

    /// How many accesses a thread completes in a series of events.
    pub open spec fn accesses(self, events: Seq<Event>, i: int) -> int
        decreases events.len(),
    {
        if events.len() == 0 {
            0
        } else {
            self.accesses(events.drop_last(), i) + (if self.after_all(
                events.drop_last(),
            ).completes(events.last(), i) {
                1int
            } else {
                0
            })
        }
    }

    /// The store is up to date: whoever has left is shown stopped, and whoever
    /// is between two accesses has the colour that it used last.
    pub open spec fn up_to_date(self) -> bool {
        forall|i: int|
            0 <= i < self.workers.len() ==> {
                let w = #[trigger] self.workers[i];
                let thread = self.store.threads[i];
                &&& w.phase is Over ==> thread.status == ThreadStatus::Stopped
                    && thread.target_cell is None
                &&& w.phase.between_accesses() ==> thread.color == w.color
            }
    }
}

/// The thread that an event is about.
spec fn subject(event: Event) -> int {
    match event {
        Event::Proceed { worker, .. } => worker,
        Event::Wait { worker } => worker,
        Event::Lock { worker, .. } => worker,
        Event::Show { worker, .. } => worker,
        Event::Free { worker, .. } => worker,
    }
}

proof fn lemma_event_changes_one_thread(c: Crew, event: Event)
    requires
        c.seated(),
        c.allows(event),
    ensures
        ({
            let d = c.after(event);
            let w = subject(event);
            &&& 0 <= w < c.workers.len()
            &&& d.workers == c.workers.update(w, d.workers[w])
            &&& d.workers[w].kind == c.workers[w].kind
            &&& d.workers[w].id == c.workers[w].id
            &&& d.store.threads == c.store.threads.update(w, d.store.threads[w])
            &&& d.store.threads[w].kind == c.store.threads[w].kind
            &&& d.store.threads[w].id == c.store.threads[w].id
        }),
{
    let d = c.after(event);
    let w = subject(event);
    assert(c.store.has(c.workers[w].kind, c.workers[w].id as int));
    assert(d.workers =~= c.workers.update(w, d.workers[w]));
    assert(d.store.threads =~= c.store.threads.update(w, d.store.threads[w]));
}

proof fn lemma_event_keeps_seats(c: Crew, event: Event)
    requires
        c.seated(),
        c.allows(event),
    ensures
        c.after(event).seated(),
{
    let d = c.after(event);
    let w = subject(event);
    lemma_event_changes_one_thread(c, event);
    let (kind, id) = (c.workers[w].kind, c.workers[w].id as int);
    let thread = d.store.threads[w];
    assert(c.store.has(kind, id));
    assert(c.store.with_thread(kind, id, thread).threads == d.store.threads);
    assert forall|i: int| 0 <= i < d.workers.len() implies {
        let v = #[trigger] d.workers[i];
        &&& d.store.has(v.kind, v.id as int)
        &&& d.store.index_of(v.kind, v.id as int) == i
    } by {
        let v = d.workers[i];
        assert(v.kind == c.workers[i].kind && v.id == c.workers[i].id);
        assert(c.store.has(c.workers[i].kind, c.workers[i].id as int));
        crate::reader_writer::store::law_threads_stay_found(
            c.store,
            kind,
            id,
            thread,
            v.kind,
            v.id as int,
            0,
        );
        let moved = c.store.with_thread(kind, id, thread);
        assert(moved.index_of(v.kind, v.id as int) == d.store.index_of(v.kind, v.id as int));
    }
}

/// An event keeps the store up to date.
pub proof fn law_events_keep_stores_up_to_date(c: Crew, event: Event)
    requires
        c.seated(),
        c.up_to_date(),
        c.allows(event),
    ensures
        c.after(event).seated(),
        c.after(event).up_to_date(),
        c.after(event).workers.len() == c.workers.len(),
{
    let d = c.after(event);
    let w = subject(event);
    lemma_event_keeps_seats(c, event);
    lemma_event_changes_one_thread(c, event);
    assert(c.store.has(c.workers[w].kind, c.workers[w].id as int));
    assert(c.store.index_of(c.workers[w].kind, c.workers[w].id as int) == w);
    assert forall|i: int| 0 <= i < d.workers.len() implies {
        let v = #[trigger] d.workers[i];
        let thread = d.store.threads[i];
        &&& v.phase is Over ==> thread.status == ThreadStatus::Stopped && thread.target_cell is None
        &&& v.phase.between_accesses() ==> thread.color == v.color
    } by {
        assert(c.workers[i].phase.between_accesses() ==> c.store.threads[i].color
            == c.workers[i].color);
        if i != w {
            assert(d.workers[i] == c.workers[i]);
            assert(d.store.threads[i] == c.store.threads[i]);
        }
    }
}

/// The store stays up to date, however the threads are interleaved.
pub proof fn law_stores_stay_up_to_date(c: Crew, events: Seq<Event>)
    requires
        c.seated(),
        c.up_to_date(),
        c.allows_all(events),
    ensures
        c.after_all(events).seated(),
        c.after_all(events).up_to_date(),
        c.after_all(events).workers.len() == c.workers.len(),
    decreases events.len(),
{
    if events.len() > 0 {
        law_stores_stay_up_to_date(c, events.drop_last());
        law_events_keep_stores_up_to_date(c.after_all(events.drop_last()), events.last());
    }
}

/// However the threads of a run are interleaved, one that is bound for the
/// place that goes with what it does always is.
pub proof fn law_places_go_with_statuses(c: Crew, events: Seq<Event>, i: int)
    requires
        c.seated(),
        c.allows_all(events),
        forall|j: int|
            0 <= j < c.workers.len() ==> crate::layout::fits_column(
                #[trigger] c.workers[j].id as int,
            ),
        0 <= i < c.store.threads.len(),
        crate::reader_writer::rules::bound_for(c.store.threads[i]),
    ensures
        c.after_all(events).seated(),
        c.after_all(events).workers.len() == c.workers.len(),
        c.after_all(events).store.threads.len() == c.store.threads.len(),
        forall|j: int|
            0 <= j < c.workers.len() ==> #[trigger] c.after_all(events).workers[j].id
                == c.workers[j].id,
        crate::reader_writer::rules::bound_for(c.after_all(events).store.threads[i]),
    decreases events.len(),
{
    if events.len() > 0 {
        let before = events.drop_last();
        let event = events.last();
        law_places_go_with_statuses(c, before, i);
        let d = c.after_all(before);
        lemma_event_keeps_seats(d, event);
        lemma_event_changes_one_thread(d, event);
        let w = d.workers[subject(event)];
        assert(w.id == c.workers[subject(event)].id);
        match event {
            Event::Proceed { worker, running, seen } => {
                let picture = d.store.coordinator;
                crate::reader_writer::rules::law_place_goes_with_status(
                    w,
                    running,
                    picture,
                    w.color,
                    seen,
                    d.store,
                    i,
                );
            },
            Event::Lock { worker, running, picture, tint, seen } => {
                crate::reader_writer::rules::law_place_goes_with_status(
                    w,
                    running,
                    picture,
                    tint,
                    seen,
                    d.store,
                    i,
                );
            },
            Event::Free { worker, picture, seen } => {
                crate::reader_writer::rules::law_place_goes_with_status(
                    w,
                    true,
                    picture,
                    w.color,
                    seen,
                    d.store,
                    i,
                );
            },
            _ => {},
        }
    }
}

/// With the writers first in the list and the readers after them, and the
/// threads in the same order, each thread is at its place.
pub proof fn law_threads_start_seated(c: Crew, writers: int)
    requires
        c.store.in_order(writers),
        c.workers.len() == c.store.threads.len(),
        forall|i: int|
            0 <= i < c.workers.len() ==> (#[trigger] c.workers[i]).kind == c.store.threads[i].kind
                && c.workers[i].id == c.store.threads[i].id,
    ensures
        c.seated(),
{
    assert forall|i: int| 0 <= i < c.workers.len() implies {
        let w = #[trigger] c.workers[i];
        &&& c.store.has(w.kind, w.id as int)
        &&& c.store.index_of(w.kind, w.id as int) == i
    } by {
        let w = c.workers[i];
        assert(w.kind == c.store.threads[i].kind);
        crate::reader_writer::store::law_threads_are_found(c.store, writers, w.kind, w.id as int);
    }
}

/// The store is up to date when a run starts.
pub proof fn law_records_start_empty(c: Crew)
    requires
        c.workers.len() == c.store.threads.len(),
        forall|i: int|
            0 <= i < c.workers.len() ==> (#[trigger] c.workers[i]).phase == ThreadPhase::Turn
                && c.store.threads[i].color == c.workers[i].color,
    ensures
        c.up_to_date(),
{
}

proof fn lemma_event_counts(c: Crew, event: Event, i: int)
    requires
        c.seated(),
        c.allows(event),
        0 <= i < c.workers.len(),
    ensures
        c.after(event).store.threads[i].count == (if c.completes(event, i) {
            (c.store.threads[i].count + 1) as usize
        } else {
            c.store.threads[i].count
        }),
{
    let w = subject(event);
    lemma_event_changes_one_thread(c, event);
    assert(c.store.has(c.workers[w].kind, c.workers[w].id as int));
    assert(c.store.index_of(c.workers[w].kind, c.workers[w].id as int) == w);
}

proof fn lemma_accesses_bounds(c: Crew, events: Seq<Event>, i: int)
    ensures
        c.accesses(events, i) >= 0,
    decreases events.len(),
{
    if events.len() > 0 {
        lemma_accesses_bounds(c, events.drop_last(), i);
    }
}

/// Over a run a thread's count grows by exactly the accesses it completes, as
/// long as they can be counted.
pub proof fn law_counts_are_accesses(c: Crew, events: Seq<Event>, i: int)
    requires
        c.seated(),
        c.up_to_date(),
        c.allows_all(events),
        0 <= i < c.workers.len(),
        c.store.threads[i].count + c.accesses(events, i) <= usize::MAX,
    ensures
        c.after_all(events).store.threads[i].count == c.store.threads[i].count + c.accesses(
            events,
            i,
        ),
    decreases events.len(),
{
    if events.len() > 0 {
        let before = events.drop_last();
        lemma_accesses_bounds(c, before, i);
        law_counts_are_accesses(c, before, i);
        law_stores_stay_up_to_date(c, before);
        lemma_event_counts(c.after_all(before), events.last(), i);
    }
}

/// A thread gives the lock back exactly once each time it gets it: at any time
/// it has given it back as often as it got it, or once less while it holds it.
pub proof fn law_locks_are_given_back(c: Crew, events: Seq<Event>, i: int)
    requires
        c.allows_all(events),
        0 <= i < c.workers.len(),
        !c.workers[i].phase.holds(),
    ensures
        grants(events, i) == frees(events, i) + (if c.after_all(events).workers[i].phase.holds() {
            1int
        } else {
            0
        }),
        c.after_all(events).workers.len() == c.workers.len(),
    decreases events.len(),
{
    if events.len() > 0 {
        law_locks_are_given_back(c, events.drop_last(), i);
    }
}

/// Of the accesses that a thread begins it completes all, or all but one: the
/// one that it is at, or that the end of the run cut short.
pub proof fn law_one_access_is_cut_short_at_most(c: Crew, events: Seq<Event>, i: int)
    requires
        c.sound(),
        c.allows_all(events),
        0 <= i < c.workers.len(),
        c.workers[i].phase == ThreadPhase::Turn,
    ensures
        0 <= grants(events, i) - c.accesses(events, i) <= 1,
        c.after_all(events).workers[i].phase.between_accesses() ==> grants(events, i) == c.accesses(
            events,
            i,
        ),
        !c.after_all(events).workers[i].phase.between_accesses() && !(c.after_all(
            events,
        ).workers[i].phase is Over) ==> grants(events, i) == c.accesses(events, i) + 1,
    decreases events.len(),
{
    if events.len() > 0 {
        let before = events.drop_last();
        law_one_access_is_cut_short_at_most(c, before, i);
        crate::reader_writer::crew::law_runs_stay_sound(c, before);
        let d = c.after_all(before);
        if is_grant(events.last(), i) && d.workers[i].kind == ThreadKind::Reader {
            crate::reader_writer::crew::law_readers_find_something(
                d,
                i,
                events.last()->Lock_picture,
                events.last()->Lock_tint,
                events.last()->Lock_seen,
            );
        }
    }
}

} // verus!
