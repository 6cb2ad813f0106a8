//! All threads of a run together, with their lock and their store.
use vstd::prelude::*;

use crate::color::Rgb;
use crate::reader_writer::coordinator::{CoordinatorSnapshot, LockCoordinator};
use crate::reader_writer::motion::Sighting;
use crate::reader_writer::store::{DataCell, Store, ThreadKind};
use crate::reader_writer::worker::{ThreadPhase, ThreadWorker};

verus! {

/// A run: the lock, the store, and the threads.
#[verifier::ext_equal]
pub struct Crew {
    pub lock: LockCoordinator,
    pub store: Store,
    pub workers: Seq<ThreadWorker>,
}

/// Something that happens in a run, to the thread at a place in the list.
pub enum Event {
    /// It has waited for its turn, slept, or kept the lock for its time.
    Proceed { worker: int, running: bool, seen: Sighting },
    /// It joins the waiting for the lock.
    Wait { worker: int },
    /// It stops waiting, with the lock if the run goes on.
    Lock { worker: int, running: bool, picture: CoordinatorSnapshot, tint: Rgb, seen: Sighting },
    /// Its use of the store is shown.
    Show { worker: int, picture: CoordinatorSnapshot },
    /// It gives the lock back.
    Free { worker: int, picture: CoordinatorSnapshot, seen: Sighting },
}

impl ThreadPhase {
    /// The lock has been taken and not yet given back.
    pub open spec fn holds(self) -> bool {
        self.has_lock() || self is Releasing
    }
}

/// How many threads of a kind hold the lock.
pub open spec fn holders(workers: Seq<ThreadWorker>, kind: ThreadKind) -> int
    decreases workers.len(),
{
    if workers.len() == 0 {
        0
    } else {
        holders(workers.drop_last(), kind) + (if workers.last().kind == kind
            && workers.last().phase.holds() {
            1int
        } else {
            0
        })
    }
}

proof fn lemma_holders_bounds(workers: Seq<ThreadWorker>, kind: ThreadKind)
    ensures
        0 <= holders(workers, kind) <= workers.len(),
    decreases workers.len(),
{
    if workers.len() > 0 {
        lemma_holders_bounds(workers.drop_last(), kind);
    }
}

proof fn lemma_holders_update(
    workers: Seq<ThreadWorker>,
    i: int,
    w: ThreadWorker,
    kind: ThreadKind,
)
    requires
        0 <= i < workers.len(),
        w.kind == workers[i].kind,
    ensures
        w.kind != kind ==> holders(workers.update(i, w), kind) == holders(workers, kind),
        w.kind == kind ==> holders(workers.update(i, w), kind) == holders(workers, kind) + (
        if w.phase.holds() {
            1int
        } else {
            0
        }) - (if workers[i].phase.holds() {
            1int
        } else {
            0
        }),
    decreases workers.len(),
{
    let updated = workers.update(i, w);
    if i < workers.len() - 1 {
        assert(updated.drop_last() =~= workers.drop_last().update(i, w));
        lemma_holders_update(workers.drop_last(), i, w, kind);
    } else {
        assert(updated.drop_last() =~= workers.drop_last());
    }
}

proof fn lemma_holders_two(workers: Seq<ThreadWorker>, i: int, j: int, kind: ThreadKind)
    requires
        0 <= i < workers.len(),
        0 <= j < workers.len(),
        workers[i].kind == kind,
        workers[i].phase.holds(),
    ensures
        holders(workers, kind) >= 1,
        i != j && workers[j].kind == kind && workers[j].phase.holds() ==> holders(workers, kind)
            >= 2,
    decreases workers.len(),
{
    let rest = workers.drop_last();
    let last = workers.len() - 1;
    lemma_holders_bounds(rest, kind);
    if i < last && j < last {
        lemma_holders_two(rest, i, j, kind);
    } else if i < last {
        lemma_holders_two(rest, i, i, kind);
    } else if j < last && workers[j].kind == kind && workers[j].phase.holds() {
        lemma_holders_two(rest, j, j, kind);
    }
}

impl Crew {
    /// The invariant of a run: the lock counts exactly the threads that hold
    /// it, no count of cells is ahead of the store, and that of a writer that
    /// holds the lock is exact.
    pub open spec fn sound(self) -> bool {
        &&& self.workers.len() <= usize::MAX
        &&& self.lock.sound()
        &&& self.lock.active_readers == holders(self.workers, ThreadKind::Reader)
        &&& self.lock.active_writers == holders(self.workers, ThreadKind::Writer)
        &&& self.lock.data_count <= self.store.cells.len() <= usize::MAX
        &&& self.store.max_cells > 0
        &&& self.store.cells.len() <= self.store.max_cells
        &&& forall|i: int|
            0 <= i < self.workers.len() ==> (#[trigger] self.workers[i]).data_count
                <= self.store.cells.len()
        &&& forall|i: int|
            0 <= i < self.workers.len() && (#[trigger] self.workers[i]).kind == ThreadKind::Writer
                && self.workers[i].phase.holds() ==> self.workers[i].data_count
                == self.store.cells.len()
    }

    /// A thread takes part in an event only in the phase it belongs to, and
    /// takes the lock only when nothing blocks it.
    pub open spec fn allows(self, event: Event) -> bool {
        match event {
            Event::Proceed { worker, running, seen } => {
                &&& 0 <= worker < self.workers.len()
                &&& self.workers[worker].phase is Turn || self.workers[worker].phase is Thinking
                    || self.workers[worker].phase is Ready || self.workers[worker].phase is Holding
            },
            Event::Wait { worker } => {
                &&& 0 <= worker < self.workers.len()
                &&& self.workers[worker].phase is Locking
            },
            Event::Lock { worker, running, picture, tint, seen } => {
                &&& 0 <= worker < self.workers.len()
                &&& self.workers[worker].phase is Locking
                &&& running ==> match self.workers[worker].kind {
                    ThreadKind::Reader => !self.lock.holds_readers(),
                    ThreadKind::Writer => !self.lock.holds_writers(),
                }
            },
            Event::Show { worker, picture } => {
                &&& 0 <= worker < self.workers.len()
                &&& self.workers[worker].phase is Using
            },
            Event::Free { worker, picture, seen } => {
                &&& 0 <= worker < self.workers.len()
                &&& self.workers[worker].phase is Releasing
            },
        }
    }

    /// The run after an event.
    pub open spec fn after(self, event: Event) -> Crew {
        match event {
            Event::Proceed { worker, running, seen } => {
                let (w, store, _) = self.workers[worker].proceeded(running, seen, self.store);
                Crew { store, workers: self.workers.update(worker, w), ..self }
            },
            Event::Wait { worker } => Crew {
                lock: match self.workers[worker].kind {
                    ThreadKind::Reader => self.lock.read_waited(),
                    ThreadKind::Writer => self.lock.write_waited(),
                },
                ..self
            },
            Event::Lock { worker, running, picture, tint, seen } => {
                let (w, store, _) = self.workers[worker].granted(
                    if running {
                        Some(picture)
                    } else {
                        None
                    },
                    tint,
                    seen,
                    self.store,
                );
                Crew {
                    lock: match w.kind {
                        ThreadKind::Reader => self.lock.read_locked(running),
                        ThreadKind::Writer => self.lock.write_locked(running),
                    },
                    store,
                    workers: self.workers.update(worker, w),
                }
            },
            Event::Show { worker, picture } => {
                let (w, store, _) = self.workers[worker].shown(picture, self.store);
                Crew { store, workers: self.workers.update(worker, w), ..self }
            },
            Event::Free { worker, picture, seen } => {
                let (w, store, _) = self.workers[worker].freed(picture, seen, self.store);
                Crew {
                    lock: match w.kind {
                        ThreadKind::Reader => self.lock.read_unlocked(),
                        ThreadKind::Writer => self.lock.write_unlocked(w.data_count),
                    },
                    store,
                    workers: self.workers.update(worker, w),
                }
            },
        }
    }

    /// The run after a series of events.
    pub open spec fn after_all(self, events: Seq<Event>) -> Crew
        decreases events.len(),
    {
        if events.len() == 0 {
            self
        } else {
            self.after_all(events.drop_last()).after(events.last())
        }
    }

    /// Every event of a series is allowed when it happens.
    pub open spec fn allows_all(self, events: Seq<Event>) -> bool
        decreases events.len(),
    {
        events.len() == 0 || self.allows_all(events.drop_last()) && self.after_all(
            events.drop_last(),
        ).allows(events.last())
    }
}

/// A run starts sound: nobody holds the lock and nothing is written.
pub proof fn law_runs_start_sound(c: Crew)
    requires
        c.workers.len() <= usize::MAX,
        c.lock.active_readers == 0,
        c.lock.active_writers == 0,
        c.lock.data_count == 0,
        c.store.cells.len() == 0,
        c.store.max_cells > 0,
        forall|i: int|
            0 <= i < c.workers.len() ==> (#[trigger] c.workers[i]).phase == ThreadPhase::Turn
                && c.workers[i].data_count == 0,
    ensures
        c.sound(),
    decreases c.workers.len(),
{
    if c.workers.len() > 0 {
        let rest = Crew { workers: c.workers.drop_last(), ..c };
        assert forall|i: int| 0 <= i < rest.workers.len() implies (#[trigger] rest.workers[i]).phase
            == ThreadPhase::Turn && rest.workers[i].data_count == 0 by {
            assert(rest.workers[i] == c.workers[i]);
        }
        law_runs_start_sound(rest);
        assert(c.workers.last() == c.workers[c.workers.len() - 1]);
    }
}

/// While a writer holds the lock, no other thread does.
pub proof fn law_writers_are_alone(c: Crew, i: int, j: int)
    requires
        c.sound(),
        0 <= i < c.workers.len(),
        0 <= j < c.workers.len(),
        i != j,
        c.workers[i].kind == ThreadKind::Writer,
        c.workers[i].phase.holds(),
    ensures
        !c.workers[j].phase.holds(),
{
    lemma_holders_two(c.workers, i, j, ThreadKind::Writer);
    if c.workers[j].phase.holds() && c.workers[j].kind == ThreadKind::Reader {
        lemma_holders_two(c.workers, j, j, ThreadKind::Reader);
    }
}

/// Every event keeps a run sound, and loses no cell.
pub proof fn law_events_keep_runs_sound(c: Crew, event: Event)
    requires
        c.sound(),
        c.allows(event),
    ensures
        c.after(event).sound(),
        c.after(event).store.cells.len() >= c.store.cells.len(),
        c.after(event).store.max_cells == c.store.max_cells,
        c.after(event).workers.len() == c.workers.len(),
{
    let d = c.after(event);
    let worker = match event {
        Event::Proceed { worker, .. } => worker,
        Event::Wait { worker } => worker,
        Event::Lock { worker, .. } => worker,
        Event::Show { worker, .. } => worker,
        Event::Free { worker, .. } => worker,
    };
    let before = c.workers[worker];
    let next = d.workers[worker];
    assert(d.workers =~= c.workers.update(worker, next));
    lemma_holders_update(c.workers, worker, next, ThreadKind::Reader);
    lemma_holders_update(c.workers, worker, next, ThreadKind::Writer);
    lemma_holders_bounds(c.workers, ThreadKind::Reader);
    lemma_holders_bounds(d.workers, ThreadKind::Reader);
    if before.phase.holds() {
        lemma_holders_two(c.workers, worker, worker, before.kind);
    }
    assert forall|i: int|
        0 <= i < d.workers.len() && (#[trigger] d.workers[i]).kind == ThreadKind::Writer
            && d.workers[i].phase.holds() implies d.workers[i].data_count
        == d.store.cells.len() by {
        if i != worker {
            assert(d.workers[i] == c.workers[i]);
            lemma_holders_two(c.workers, i, i, ThreadKind::Writer);
        }
    }
}

/// A run stays sound and loses no cell, however its threads are interleaved.
pub proof fn law_runs_stay_sound(c: Crew, events: Seq<Event>)
    requires
        c.sound(),
        c.allows_all(events),
    ensures
        c.after_all(events).sound(),
        c.store.cells.len() <= c.after_all(events).store.cells.len() <= c.store.max_cells,
        c.after_all(events).store.max_cells == c.store.max_cells,
        c.after_all(events).workers.len() == c.workers.len(),
    decreases events.len(),
{
    if events.len() > 0 {
        law_runs_stay_sound(c, events.drop_last());
        law_events_keep_runs_sound(c.after_all(events.drop_last()), events.last());
    }
}

/// A writer gives the lock back with the number of cells there are.
pub proof fn law_writers_report_all_cells(
    c: Crew,
    worker: int,
    picture: CoordinatorSnapshot,
    seen: Sighting,
)
    requires
        c.sound(),
        c.allows(Event::Free { worker, picture, seen }),
        c.workers[worker].kind == ThreadKind::Writer,
    ensures
        c.after(Event::Free { worker, picture, seen }).lock.data_count == c.store.cells.len(),
{
}

/// A writer that gets the lock adds one cell while there is room, and then
/// writes over exactly one.
pub proof fn law_a_writer_touches_one_cell(
    c: Crew,
    worker: int,
    picture: CoordinatorSnapshot,
    tint: Rgb,
    seen: Sighting,
)
    requires
        c.sound(),
        c.store.countable(),
        c.allows(Event::Lock { worker, running: true, picture, tint, seen }),
        c.workers[worker].kind == ThreadKind::Writer,
    ensures
        ({
            let d = c.after(Event::Lock { worker, running: true, picture, tint, seen });
            let color = d.workers[worker].color;
            if c.store.cells.len() < c.store.max_cells {
                d.store.cells == c.store.cells.push(
                    DataCell { color, read_count: 0, write_count: 1 },
                )
            } else {
                exists|t: int|
                    0 <= t < c.store.cells.len() && d.store.cells
                        == #[trigger] c.store.cells.update(
                        t,
                        DataCell {
                            color,
                            read_count: c.store.cells[t].read_count,
                            write_count: (c.store.cells[t].write_count + 1) as usize,
                        },
                    ) && c.store.cells[t].write_count < usize::MAX
            }
        }),
{
    let w = c.workers[worker];
    let n = c.store.cells.len() as usize;
    if n == c.store.max_cells {
        if n > 1 {
            vstd::arithmetic::div_mod::lemma_mod_bound(
                (crate::rng::next_state(w.rng.state) as usize) as int,
                n as int,
            );
        }
        let t = w.rng.pick(n);
        let d = c.after(Event::Lock { worker, running: true, picture, tint, seen });
        assert(d.store.cells == c.store.cells.update(
            t,
            DataCell {
                color: d.workers[worker].color,
                read_count: c.store.cells[t].read_count,
                write_count: (c.store.cells[t].write_count + 1) as usize,
            },
        ));
    }
}

/// A reader that gets the lock counts one more read of exactly one cell, whose
/// colour it takes on.
pub proof fn law_a_reader_touches_one_cell(
    c: Crew,
    worker: int,
    picture: CoordinatorSnapshot,
    tint: Rgb,
    seen: Sighting,
)
    requires
        c.sound(),
        c.store.countable(),
        c.allows(Event::Lock { worker, running: true, picture, tint, seen }),
        c.workers[worker].kind == ThreadKind::Reader,
    ensures
        ({
            let d = c.after(Event::Lock { worker, running: true, picture, tint, seen });
            exists|t: int|
                0 <= t < c.store.cells.len() && d.store.cells == #[trigger] c.store.cells.update(
                    t,
                    DataCell {
                        color: c.store.cells[t].color,
                        read_count: (c.store.cells[t].read_count + 1) as usize,
                        write_count: c.store.cells[t].write_count,
                    },
                ) && c.store.cells[t].read_count < usize::MAX && d.workers[worker].color
                    == c.store.cells[t].color
        }),
{
    let w = c.workers[worker];
    let n = c.store.cells.len() as usize;
    if n > 1 {
        vstd::arithmetic::div_mod::lemma_mod_bound(
            (crate::rng::next_state(w.rng.state) as usize) as int,
            n as int,
        );
    }
    let t = w.rng.pick(n);
    let d = c.after(Event::Lock { worker, running: true, picture, tint, seen });
    assert(d.store.cells == c.store.cells.update(
        t,
        DataCell {
            color: c.store.cells[t].color,
            read_count: (c.store.cells[t].read_count + 1) as usize,
            write_count: c.store.cells[t].write_count,
        },
    ));
}

/// Nothing but getting the lock changes any cell.
pub proof fn law_cells_wait_for_the_lock(c: Crew, event: Event)
    requires
        c.allows(event),
        !(event is Lock && event->Lock_running),
    ensures
        c.after(event).store.cells == c.store.cells,
{
}

/// A reader that gets the lock always finds something to read.
pub proof fn law_readers_find_something(
    c: Crew,
    worker: int,
    picture: CoordinatorSnapshot,
    tint: Rgb,
    seen: Sighting,
)
    requires
        c.sound(),
        c.allows(Event::Lock { worker, running: true, picture, tint, seen }),
        c.workers[worker].kind == ThreadKind::Reader,
    ensures
        c.store.cells.len() > 0,
        c.after(Event::Lock { worker, running: true, picture, tint, seen }).workers[worker].phase
            == ThreadPhase::Using,
{
}

} // verus!
