//! What the threads of readers and writers do, step by step.
//!
//! A worker asks for one task at a time and is told how it ended; every change
//! to the store in between is made here.
use vstd::prelude::*;

use crate::color::{Rgb, Shade};
use crate::reader_writer::config::{access_duration, random_wait_duration, TimingProfile};
use crate::reader_writer::coordinator::CoordinatorSnapshot;
use crate::reader_writer::look::Colors;
use crate::reader_writer::motion::Sighting;
use crate::reader_writer::store::{
    AppState,
    Store,
    ThreadKind,
    ThreadStatus,
    MOVE_DURATION,
    STOP_DURATION,
};
use crate::rng::SmallRng;
use crate::timing::Seconds;

verus! {

/// What a worker has to do before it goes on.
#[derive(Clone, Copy, Debug, PartialEq, Eq, Structural)]
pub enum ThreadTask {
    /// Wait until the run is not paused.
    AwaitTurn,
    /// Sleep for some milliseconds.
    Sleep(u64),
    /// Join the waiting for the lock, and take it.
    Lock,
    /// Take a picture of the lock.
    Publish,
    /// Keep the lock for some time.
    Hold(Seconds),
    /// Give the lock back, with so many cells written, and take a picture.
    Unlock(usize),
    /// Leave.
    Quit,
}

/// Where a worker stands.
#[derive(Clone, Copy, Debug, PartialEq, Eq, Structural)]
pub enum ThreadPhase {
    /// Waiting for its turn.
    Turn,
    /// Busy by itself.
    Thinking,
    /// Waiting for its turn to use the store.
    Ready,
    /// Waiting for the lock.
    Locking,
    /// It has the lock and has used the store, which is to be shown.
    Using,
    /// It has the lock and keeps it for a while.
    Holding,
    /// It gives the lock back, to go on or to leave.
    Releasing(bool),
    /// Finished.
    Over,
}

impl ThreadPhase {
    /// The worker has the lock.
    pub open spec fn has_lock(self) -> bool {
        self is Using || self is Holding
    }
}

/// A reader's or writer's thread.
#[derive(Clone, Copy, Debug)]
pub struct ThreadWorker {
    pub kind: ThreadKind,
    pub id: usize,
    pub rng: SmallRng,
    pub timing: TimingProfile,
    /// The colour it last read or wrote.
    pub color: Rgb,
    /// How many cells there were when it last wrote.
    pub data_count: usize,
    pub phase: ThreadPhase,
}

impl Store {
    /// Counters of the cells have room.
    pub open spec fn countable(self) -> bool {
        forall|i: int|
            0 <= i < self.cells.len() ==> (#[trigger] self.cells[i]).write_count < usize::MAX
                && self.cells[i].read_count < usize::MAX
    }
}

impl ThreadWorker {
    /// The worker's thread is in the store's list.
    pub open spec fn belongs(self, store: Store) -> bool {
        &&& store.has(self.kind, self.id as int)
        &&& crate::layout::fits_column(self.id as int)
        &&& self.timing.valid()
    }

    /// The worker in another phase.
    pub open spec fn at(self, phase: ThreadPhase) -> ThreadWorker {
        ThreadWorker { phase, ..self }
    }

    /// The store after the worker's thread has gone home for good.
    pub open spec fn stopped_in(self, store: Store, seen: Sighting) -> Store {
        store.with_motion(
            self.kind,
            self.id as int,
            ThreadStatus::Stopped,
            None,
            self.kind.home(self.id as int),
            STOP_DURATION,
            seen,
        )
    }

    /// The outcome of leaving.
    pub open spec fn left(self, store: Store, seen: Sighting) -> (ThreadWorker, Store, ThreadTask) {
        (self.at(ThreadPhase::Over), self.stopped_in(store, seen), ThreadTask::Quit)
    }

    /// What follows when the worker has waited for its turn, slept or kept the
    /// lock: the worker, the store and the next task.
    pub open spec fn proceeded(self, running: bool, seen: Sighting, store: Store) -> (
        ThreadWorker,
        Store,
        ThreadTask,
    ) {
        let id = self.id as int;
        match self.phase {
            ThreadPhase::Turn if running => (
                ThreadWorker { rng: self.rng.drawn(), phase: ThreadPhase::Thinking, ..self },
                store.with_motion(
                    self.kind,
                    id,
                    ThreadStatus::Thinking,
                    None,
                    self.kind.home(id),
                    MOVE_DURATION,
                    seen,
                ),
                ThreadTask::Sleep(self.timing.wait_ms(self.rng) as u64),
            ),
            ThreadPhase::Thinking if running => (
                self.at(ThreadPhase::Ready),
                store,
                ThreadTask::AwaitTurn,
            ),
            ThreadPhase::Ready if running => (
                self.at(ThreadPhase::Locking),
                store.with_motion(
                    self.kind,
                    id,
                    ThreadStatus::Waiting,
                    None,
                    self.kind.waiting_place(id),
                    MOVE_DURATION,
                    seen,
                ),
                ThreadTask::Lock,
            ),
            ThreadPhase::Holding => (
                self.at(ThreadPhase::Releasing(running)),
                if running {
                    store.with_access_done(
                        self.kind,
                        id,
                        self.color,
                        self.kind.home(id),
                        ThreadStatus::Thinking,
                        seen,
                    )
                } else {
                    store
                },
                ThreadTask::Unlock(self.data_count),
            ),
            _ => self.left(store, seen),
        }
    }

    /// The colour that a writer writes next, before it is dimmed: its own, with
    /// what is drawn once the cell is chosen.
    pub open spec fn next_shade(self, store: Store) -> Shade {
        Shade {
            color: crate::reader_writer::look::writer_palette_color(self.id as int),
            least: 70,
            draw: crate::rng::next_state(store.write_target_rng(self.rng).state),
        }
    }

    /// What follows when a writer has the lock, and a colour to write.
    pub open spec fn wrote(self, tint: Rgb, seen: Sighting, store: Store) -> (
        ThreadWorker,
        Store,
        ThreadTask,
    ) {
        let id = self.id as int;
        let target = store.write_target(self.rng);
        let rng = store.write_target_rng(self.rng);
        let written = store.with_written(target, tint);
        (
            ThreadWorker {
                rng: rng.drawn(),
                color: tint,
                data_count: written.cells.len() as usize,
                phase: ThreadPhase::Using,
                ..self
            },
            written.with_motion(
                self.kind,
                id,
                ThreadStatus::Writing,
                Some(target as usize),
                self.kind.access_place(id),
                MOVE_DURATION,
                seen,
            ),
            ThreadTask::Publish,
        )
    }

    /// What follows when a reader has the lock. With nothing to read it gives
    /// the lock back at once.
    pub open spec fn read(self, seen: Sighting, store: Store) -> (ThreadWorker, Store, ThreadTask) {
        let id = self.id as int;
        let target = self.rng.pick(store.cells.len() as usize);
        if store.cells.len() == 0 {
            (
                self.at(ThreadPhase::Releasing(true)),
                store,
                ThreadTask::Unlock(self.data_count),
            )
        } else {
            (
                ThreadWorker {
                    rng: self.rng.picked(store.cells.len() as usize),
                    color: store.cells[target].color,
                    phase: ThreadPhase::Using,
                    ..self
                },
                store.with_read(target).with_motion(
                    self.kind,
                    id,
                    ThreadStatus::Reading,
                    Some(target as usize),
                    self.kind.access_place(id),
                    MOVE_DURATION,
                    seen,
                ),
                ThreadTask::Publish,
            )
        }
    }

    /// What follows when the worker has the lock, or the run is over instead.
    pub open spec fn granted(
        self,
        picture: Option<CoordinatorSnapshot>,
        tint: Rgb,
        seen: Sighting,
        store: Store,
    ) -> (ThreadWorker, Store, ThreadTask) {
        match picture {
            Some(p) => match self.kind {
                ThreadKind::Writer => self.wrote(tint, seen, store.with_picture(p)),
                ThreadKind::Reader => self.read(seen, store.with_picture(p)),
            },
            None => self.left(store, seen),
        }
    }

    /// What follows when the use of the store was shown.
    pub open spec fn shown(self, picture: CoordinatorSnapshot, store: Store) -> (
        ThreadWorker,
        Store,
        ThreadTask,
    ) {
        (
            self.at(ThreadPhase::Holding),
            store.with_picture(picture),
            ThreadTask::Hold(crate::reader_writer::config::access_time(self.timing)),
        )
    }

    /// What follows when the lock was given back.
    pub open spec fn freed(self, picture: CoordinatorSnapshot, seen: Sighting, store: Store) -> (
        ThreadWorker,
        Store,
        ThreadTask,
    ) {
        if self.phase == ThreadPhase::Releasing(true) {
            (
                self.at(ThreadPhase::Turn),
                store.with_picture(picture),
                ThreadTask::AwaitTurn,
            )
        } else {
            self.left(store.with_picture(picture), seen)
        }
    }

    /// A thread at its start, to wait for its first turn.
    pub fn new(kind: ThreadKind, id: usize, timing: TimingProfile) -> (w: Self)
        requires
            0xC0FFEE00 + id * 131 <= u64::MAX,
        ensures
            w.kind == kind,
            w.id == id,
            w.timing == timing,
            w.rng.state == (match kind {
                ThreadKind::Writer => ((0xC0FFEE00 + id * 101) as u64) | 1,
                ThreadKind::Reader => ((0xBAD5EED0 + id * 131) as u64) | 1,
            }),
            w.rng.live(),
            w.color == (match kind {
                ThreadKind::Writer => crate::reader_writer::look::writer_palette_color(id as int),
                ThreadKind::Reader => crate::reader_writer::look::reader_palette_color(id as int),
            }),
            w.data_count == 0,
            w.phase == ThreadPhase::Turn,
    {
        let (seed, color): (u64, Rgb) = match kind {
            ThreadKind::Writer => (0xC0FFEE00 + id as u64 * 101, Colors::writer_palette(id)),
            ThreadKind::Reader => (0xBAD5EED0 + id as u64 * 131, Colors::reader_palette(id)),
        };
        ThreadWorker {
            kind,
            id,
            rng: SmallRng::seeded(seed),
            timing,
            color,
            data_count: 0,
            phase: ThreadPhase::Turn,
        }
    }

    fn leave(&mut self, seen: Sighting, app: &mut AppState) -> (task: ThreadTask)
        requires
            old(self).belongs(old(app)@),
        ensures
            (*final(self), final(app)@, task) == old(self).left(old(app)@, seen),
            final(self).belongs(final(app)@),
    {
        self.phase = ThreadPhase::Over;
        let home = self.kind.home_pos(self.id);
        app.set_thread_motion(
            self.kind,
            self.id,
            ThreadStatus::Stopped,
            None,
            home,
            STOP_DURATION,
            seen,
        );
        ThreadTask::Quit
    }

    /// Goes on after a wait for its turn, a sleep or the time it keeps the
    /// lock, `running` saying whether the run still goes on.
    pub fn proceed(&mut self, running: bool, seen: Sighting, app: &mut AppState) -> (task: ThreadTask)
        requires
            old(self).belongs(old(app)@),
            old(self).phase is Turn || old(self).phase is Thinking || old(self).phase is Ready
                || old(self).phase is Holding,
            old(self).phase is Holding && running ==> old(app)@.thread(
                old(self).kind,
                old(self).id as int,
            ).count < usize::MAX,
        ensures
            (*final(self), final(app)@, task) == old(self).proceeded(running, seen, old(app)@),
            final(self).belongs(final(app)@),
    {
        match self.phase {
            ThreadPhase::Turn => {
                if !running {
                    return self.leave(seen, app);
                }
                let home = self.kind.home_pos(self.id);
                app.set_thread_motion(
                    self.kind,
                    self.id,
                    ThreadStatus::Thinking,
                    None,
                    home,
                    MOVE_DURATION,
                    seen,
                );
                self.phase = ThreadPhase::Thinking;
                let ms: u64 = random_wait_duration(&mut self.rng, self.timing);
                ThreadTask::Sleep(ms)
            },
            ThreadPhase::Thinking => {
                if !running {
                    return self.leave(seen, app);
                }
                self.phase = ThreadPhase::Ready;
                ThreadTask::AwaitTurn
            },
            ThreadPhase::Ready => {
                if !running {
                    return self.leave(seen, app);
                }
                let place = self.kind.wait_pos(self.id);
                app.set_thread_motion(
                    self.kind,
                    self.id,
                    ThreadStatus::Waiting,
                    None,
                    place,
                    MOVE_DURATION,
                    seen,
                );
                self.phase = ThreadPhase::Locking;
                ThreadTask::Lock
            },
            ThreadPhase::Holding => {
                if running {
                    let home = self.kind.home_pos(self.id);
                    app.finish_access(
                        self.kind,
                        self.id,
                        self.color,
                        home,
                        ThreadStatus::Thinking,
                        seen,
                    );
                }
                self.phase = ThreadPhase::Releasing(running);
                ThreadTask::Unlock(self.data_count)
            },
            _ => self.leave(seen, app),
        }
    }

    /// The colour that the worker writes if it gets the lock, to be dimmed by
    /// whoever can. Only a writer's is ever used.
    pub fn shade(&self, app: &AppState) -> (s: Shade)
        ensures
            s == self.next_shade(app@),
            s.least == 70,
            s.color == crate::reader_writer::look::writer_palette_color(self.id as int),
            s.draw == crate::rng::next_state(app@.write_target_rng(self.rng).state),
    {
        let mut rng: SmallRng = self.rng;
        let _ = app.choose_write_cell(&mut rng);
        let draw: u64 = rng.next_u64();
        Shade { color: Colors::writer_palette(self.id), least: 70, draw }
    }

    fn write(&mut self, tint: Rgb, seen: Sighting, app: &mut AppState) -> (task: ThreadTask)
        requires
            old(self).belongs(old(app)@),
            old(app)@.countable(),
        ensures
            (*final(self), final(app)@, task) == old(self).wrote(tint, seen, old(app)@),
            final(self).belongs(final(app)@),
    {
        let target: usize = app.choose_write_cell(&mut self.rng);
        let _ = self.rng.next_u64();
        app.write_cell(target, tint);
        self.color = tint;
        self.data_count = app.cells.len();
        let place = self.kind.access_pos(self.id);
        app.set_thread_motion(
            self.kind,
            self.id,
            ThreadStatus::Writing,
            Some(target),
            place,
            MOVE_DURATION,
            seen,
        );
        self.phase = ThreadPhase::Using;
        ThreadTask::Publish
    }

    fn read_some(&mut self, seen: Sighting, app: &mut AppState) -> (task: ThreadTask)
        requires
            old(self).belongs(old(app)@),
            old(app)@.countable(),
        ensures
            (*final(self), final(app)@, task) == old(self).read(seen, old(app)@),
            final(self).belongs(final(app)@),
    {
        if app.cells.len() == 0 {
            self.phase = ThreadPhase::Releasing(true);
            return ThreadTask::Unlock(self.data_count);
        }
        let target: usize = self.rng.next_usize(app.cells.len());
        self.color = app.read_cell(target);
        let place = self.kind.access_pos(self.id);
        app.set_thread_motion(
            self.kind,
            self.id,
            ThreadStatus::Reading,
            Some(target),
            place,
            MOVE_DURATION,
            seen,
        );
        self.phase = ThreadPhase::Using;
        ThreadTask::Publish
    }

    /// Goes on with the lock and a picture of it, or without if the run is
    /// over. A writer writes `tint` into a cell, a reader reads one.
    pub fn locked(
        &mut self,
        picture: Option<CoordinatorSnapshot>,
        tint: Rgb,
        seen: Sighting,
        app: &mut AppState,
    ) -> (task: ThreadTask)
        requires
            old(self).belongs(old(app)@),
            old(self).phase is Locking,
            old(app)@.countable(),
        ensures
            (*final(self), final(app)@, task) == old(self).granted(picture, tint, seen, old(app)@),
            final(self).belongs(final(app)@),
    {
        match picture {
            Some(p) => {
                app.publish_snapshot(p);
                match self.kind {
                    ThreadKind::Writer => self.write(tint, seen, app),
                    ThreadKind::Reader => self.read_some(seen, app),
                }
            },
            None => self.leave(seen, app),
        }
    }

    /// Goes on once its use of the store is shown.
    pub fn published(&mut self, picture: CoordinatorSnapshot, app: &mut AppState) -> (task:
        ThreadTask)
        requires
            old(self).phase is Using,
        ensures
            (*final(self), final(app)@, task) == old(self).shown(picture, old(app)@),
    {
        app.publish_snapshot(picture);
        self.phase = ThreadPhase::Holding;
        ThreadTask::Hold(access_duration(self.timing))
    }

    /// Goes on once the lock is given back.
    pub fn released(
        &mut self,
        picture: CoordinatorSnapshot,
        seen: Sighting,
        app: &mut AppState,
    ) -> (task: ThreadTask)
        requires
            old(self).belongs(old(app)@),
            old(self).phase is Releasing,
        ensures
            (*final(self), final(app)@, task) == old(self).freed(picture, seen, old(app)@),
            final(self).belongs(final(app)@),
    {
        app.publish_snapshot(picture);
        match self.phase {
            ThreadPhase::Releasing(true) => {
                self.phase = ThreadPhase::Turn;
                ThreadTask::AwaitTurn
            },
            _ => self.leave(seen, app),
        }
    }
}

/// A worker that has the lock gives it back before anything else, and a worker
/// that has not never gives it back: locks and unlocks come in pairs, and
/// nobody quits with the lock.
pub proof fn law_locks_come_in_pairs(
    w: ThreadWorker,
    running: bool,
    picture: CoordinatorSnapshot,
    tint: Rgb,
    seen: Sighting,
    store: Store,
)
    ensures
        ({
            let (next, _, task) = w.proceeded(running, seen, store);
            &&& !next.phase.has_lock()
            &&& w.phase is Holding <==> task is Unlock
            &&& task is Unlock <==> next.phase is Releasing
            &&& task is Lock <==> next.phase is Locking
        }),
        ({
            let (next, _, task) = w.granted(Some(picture), tint, seen, store);
            &&& next.phase.has_lock() || task is Unlock
            &&& task is Unlock <==> next.phase is Releasing
            &&& !(task is Quit)
        }),
        ({
            let (next, _, task) = w.granted(None, tint, seen, store);
            &&& next.phase is Over
            &&& task is Quit
        }),
        ({
            let (next, _, task) = w.shown(picture, store);
            &&& next.phase is Holding
            &&& task is Hold
        }),
        ({
            let (next, _, task) = w.freed(picture, seen, store);
            &&& !next.phase.has_lock()
            &&& !(task is Unlock)
            &&& !(task is Lock)
        }),
{
}

/// Cells change only at the moment a worker gets the lock, and a reader
/// changes no more than how often a cell was read.
pub proof fn law_cells_change_under_the_lock(
    w: ThreadWorker,
    running: bool,
    picture: CoordinatorSnapshot,
    tint: Rgb,
    seen: Sighting,
    store: Store,
    i: int,
)
    ensures
        w.proceeded(running, seen, store).1.cells == store.cells,
        w.granted(None, tint, seen, store).1.cells == store.cells,
        w.shown(picture, store).1.cells == store.cells,
        w.freed(picture, seen, store).1.cells == store.cells,
        ({
            let after = w.granted(Some(picture), tint, seen, store).1;
            w.kind == ThreadKind::Reader ==> {
                &&& after.cells.len() == store.cells.len()
                &&& 0 <= i < store.cells.len() ==> after.cells[i].color == store.cells[i].color
                    && after.cells[i].write_count == store.cells[i].write_count
            }
        }),
{
}

/// A writer that gets the lock leaves its colour in the cell it points at, and
/// knows how many cells there are then.
pub proof fn law_writers_write(
    w: ThreadWorker,
    picture: CoordinatorSnapshot,
    tint: Rgb,
    seen: Sighting,
    store: Store,
)
    requires
        w.kind == ThreadKind::Writer,
        store.has(w.kind, w.id as int),
        store.cells_sound(),
        store.max_cells > 0,
        store.countable(),
    ensures
        ({
            let (next, after, _) = w.granted(Some(picture), tint, seen, store);
            let cell = after.thread(w.kind, w.id as int).target_cell;
            &&& after.cells_sound()
            &&& after.cells.len() >= store.cells.len()
            &&& cell is Some
            &&& cell->Some_0 < after.cells.len()
            &&& after.cells[cell->Some_0 as int].color == next.color
            &&& next.data_count == after.cells.len()
            &&& next.data_count > 0
        }),
{
    let shown = store.with_picture(picture);
    crate::reader_writer::store::law_writing_keeps_cells(shown, w.rng, tint);
}

/// A reader that gets the lock takes on the colour of the cell it points at.
pub proof fn law_readers_read(
    w: ThreadWorker,
    picture: CoordinatorSnapshot,
    tint: Rgb,
    seen: Sighting,
    store: Store,
)
    requires
        w.kind == ThreadKind::Reader,
        store.has(w.kind, w.id as int),
        0 < store.cells.len() <= usize::MAX,
    ensures
        ({
            let (next, after, _) = w.granted(Some(picture), tint, seen, store);
            let cell = after.thread(w.kind, w.id as int).target_cell;
            &&& next.phase.has_lock()
            &&& cell is Some
            &&& cell->Some_0 < store.cells.len()
            &&& next.color == store.cells[cell->Some_0 as int].color
        }),
{
    let n = store.cells.len() as usize;
    if n > 1 {
        vstd::arithmetic::div_mod::lemma_mod_bound(
            (crate::rng::next_state(w.rng.state) as usize) as int,
            n as int,
        );
    }
    let used = store.with_picture(picture).with_read(w.rng.pick(n));
    let moved = w.granted(Some(picture), tint, seen, store).1.threads[store.index_of(
        w.kind,
        w.id as int,
    )];
    crate::reader_writer::store::law_threads_stay_found(used, w.kind, w.id as int, moved, w.kind, w.id as int, 0);
}

/// When the run is over a worker is gone after two more tasks at most, and its
/// thread is shown stopped.
pub proof fn law_workers_leave(
    w: ThreadWorker,
    picture: CoordinatorSnapshot,
    seen: Sighting,
    later: Sighting,
    store: Store,
)
    requires
        store.has(w.kind, w.id as int),
        w.phase is Turn || w.phase is Thinking || w.phase is Ready || w.phase is Holding,
    ensures
        ({
            let (next, after, _) = w.proceeded(false, seen, store);
            let (last, end, task) = if w.phase is Holding {
                next.freed(picture, later, after)
            } else {
                w.proceeded(false, seen, store)
            };
            &&& last.phase is Over
            &&& task is Quit
            &&& end.thread(w.kind, w.id as int).status == ThreadStatus::Stopped
            &&& end.thread(w.kind, w.id as int).motion.to == w.kind.home(w.id as int)
        }),
{
    let (_, after, _) = w.proceeded(false, seen, store);
    let (kind, id) = (w.kind, w.id as int);
    if w.phase is Holding {
        let shown = store.with_picture(picture);
        let gone = w.stopped_in(shown, later).threads[shown.index_of(kind, id)];
        crate::reader_writer::store::law_threads_stay_found(shown, kind, id, gone, kind, id, 0);
    } else {
        let gone = after.threads[store.index_of(kind, id)];
        crate::reader_writer::store::law_threads_stay_found(store, kind, id, gone, kind, id, 0);
    }
}

} // verus!
