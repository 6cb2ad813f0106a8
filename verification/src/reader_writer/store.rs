//! The shared store and the threads around it, as the screen shows them.
use vstd::prelude::*;

use crate::color::Rgb;
use crate::layout::Point;
use crate::reader_writer::config::{LockPolicy, ReaderWriterConfig};
use crate::reader_writer::coordinator::CoordinatorSnapshot;
use crate::reader_writer::look::{Colors, DATA_COLS, DATA_ROWS};
use crate::reader_writer::motion::{Motion, Origin, Sighting};
use crate::rng::SmallRng;

verus! {

/// Nanoseconds that a thread takes to get somewhere.
pub const MOVE_DURATION: u64 = 220_000_000;

/// Nanoseconds that a thread takes to get home at the end.
pub const STOP_DURATION: u64 = 120_000_000;

/// Whether a thread reads or writes.
#[derive(Clone, Copy, Debug, PartialEq, Eq, Structural)]
pub enum ThreadKind {
    Reader,
    Writer,
}

/// What a thread is doing.
#[derive(Clone, Copy, Debug, PartialEq, Eq, Structural)]
pub enum ThreadStatus {
    Thinking,
    Waiting,
    Reading,
    Writing,
    Stopped,
}

/// A thread.
#[derive(Clone, Copy, Debug, PartialEq, Eq)]
pub struct ThreadVisual {
    pub kind: ThreadKind,
    pub id: usize,
    pub count: usize,
    pub color: Rgb,
    pub status: ThreadStatus,
    pub target_cell: Option<usize>,
    pub motion: Motion,
}

/// A cell of the store.
#[derive(Clone, Copy, Debug, PartialEq, Eq, Structural)]
pub struct DataCell {
    pub color: Rgb,
    pub read_count: usize,
    pub write_count: usize,
}

/// The store, the threads, and a picture of the lock.
#[derive(Debug)]
pub struct AppState {
    pub policy: LockPolicy,
    pub max_cells: usize,
    pub cells: Vec<DataCell>,
    pub threads: Vec<ThreadVisual>,
    pub coordinator: CoordinatorSnapshot,
}

/// The state that the screen shows, as a mathematical value.
#[verifier::ext_equal]
pub struct Store {
    pub policy: LockPolicy,
    pub max_cells: usize,
    pub cells: Seq<DataCell>,
    pub threads: Seq<ThreadVisual>,
    pub coordinator: CoordinatorSnapshot,
}

impl View for AppState {
    type V = Store;

    open spec fn view(&self) -> Store {
        Store {
            policy: self.policy,
            max_cells: self.max_cells,
            cells: self.cells@,
            threads: self.threads@,
            coordinator: self.coordinator,
        }
    }
}

/// The first reader with a number among threads, or how many threads there are
/// if there is none.
pub open spec fn first_reader(threads: Seq<ThreadVisual>, id: int) -> int
    decreases threads.len(),
{
    if threads.len() == 0 {
        0
    } else if threads[0].kind == ThreadKind::Reader && threads[0].id == id {
        0
    } else {
        1 + first_reader(threads.drop_first(), id)
    }
}

/// A thread at the start of a run.
pub open spec fn fresh_thread(kind: ThreadKind, id: int, now: u64) -> ThreadVisual {
    let home = kind.home(id);
    ThreadVisual {
        kind,
        id: id as usize,
        count: 0,
        color: match kind {
            ThreadKind::Writer => crate::reader_writer::look::writer_palette_color(id),
            ThreadKind::Reader => crate::reader_writer::look::reader_palette_color(id),
        },
        status: ThreadStatus::Thinking,
        target_cell: None,
        motion: Motion {
            from: Origin::Landmark(home),
            to: home,
            started_at: now,
            duration: 1_000_000,
        },
    }
}

impl Store {
    /// Where a thread stands in the list: writers by their number, readers
    /// where they are found.
    pub open spec fn index_of(self, kind: ThreadKind, id: int) -> int {
        match kind {
            ThreadKind::Writer => id,
            ThreadKind::Reader => first_reader(self.threads, id),
        }
    }

    /// The thread is in the list.
    pub open spec fn has(self, kind: ThreadKind, id: int) -> bool {
        &&& 0 <= self.index_of(kind, id) < self.threads.len()
        &&& self.threads[self.index_of(kind, id)].kind == kind
        &&& self.threads[self.index_of(kind, id)].id == id
    }

    /// A thread of the list.
    pub open spec fn thread(self, kind: ThreadKind, id: int) -> ThreadVisual {
        self.threads[self.index_of(kind, id)]
    }

    /// The writers come first in the list, then the readers, each by number.
    pub open spec fn in_order(self, writers: int) -> bool {
        &&& 0 <= writers <= self.threads.len()
        &&& forall|i: int|
            0 <= i < writers ==> (#[trigger] self.threads[i]).kind == ThreadKind::Writer
                && self.threads[i].id == i
        &&& forall|i: int|
            writers <= i < self.threads.len() ==> (#[trigger] self.threads[i]).kind
                == ThreadKind::Reader && self.threads[i].id == i - writers
    }

    /// The store with one thread exchanged.
    pub open spec fn with_thread(
        self,
        kind: ThreadKind,
        id: int,
        thread: ThreadVisual,
    ) -> Store {
        Store { threads: self.threads.update(self.index_of(kind, id), thread), ..self }
    }

    /// The store after a thread was sent somewhere in another status, from where
    /// it is seen.
    pub open spec fn with_motion(
        self,
        kind: ThreadKind,
        id: int,
        status: ThreadStatus,
        target_cell: Option<usize>,
        destination: Point,
        duration: u64,
        seen: Sighting,
    ) -> Store {
        self.with_thread(
            kind,
            id,
            ThreadVisual {
                status,
                target_cell,
                motion: crate::reader_writer::motion::departing(seen, destination, duration),
                ..self.thread(kind, id)
            },
        )
    }

    /// The store after a thread has finished an access: it is counted, the
    /// thread takes on a colour and goes home from where it is seen.
    pub open spec fn with_access_done(
        self,
        kind: ThreadKind,
        id: int,
        color: Rgb,
        home: Point,
        status: ThreadStatus,
        seen: Sighting,
    ) -> Store {
        self.with_thread(
            kind,
            id,
            ThreadVisual {
                status,
                target_cell: None,
                count: (self.thread(kind, id).count + 1) as usize,
                color,
                motion: crate::reader_writer::motion::departing(seen, home, MOVE_DURATION),
                ..self.thread(kind, id)
            },
        )
    }

    /// The cell that a writer writes: the next free one, or one by chance.
    pub open spec fn write_target(self, rng: SmallRng) -> int {
        if self.cells.len() < self.max_cells {
            self.cells.len() as int
        } else {
            rng.pick(self.cells.len() as usize)
        }
    }

    /// The generator after a writer has chosen its cell.
    pub open spec fn write_target_rng(self, rng: SmallRng) -> SmallRng {
        if self.cells.len() < self.max_cells {
            rng
        } else {
            rng.picked(self.cells.len() as usize)
        }
    }

    /// The store after a cell was written: a written cell is written over,
    /// else a cell is added while there is room.
    pub open spec fn with_written(self, target: int, color: Rgb) -> Store {
        if target < self.cells.len() {
            Store {
                cells: self.cells.update(
                    target,
                    DataCell {
                        color,
                        write_count: (self.cells[target].write_count + 1) as usize,
                        ..self.cells[target]
                    },
                ),
                ..self
            }
        } else if self.cells.len() < self.max_cells {
            Store {
                cells: self.cells.push(DataCell { color, read_count: 0, write_count: 1 }),
                ..self
            }
        } else {
            self
        }
    }

    /// The store after a cell was read.
    pub open spec fn with_read(self, target: int) -> Store {
        Store {
            cells: self.cells.update(
                target,
                DataCell {
                    read_count: (self.cells[target].read_count + 1) as usize,
                    ..self.cells[target]
                },
            ),
            ..self
        }
    }

    /// The store with another picture of the lock.
    pub open spec fn with_picture(self, coordinator: CoordinatorSnapshot) -> Store {
        Store { coordinator, ..self }
    }

    /// The invariant of the cells: there is room for them, and each has been
    /// written.
    pub open spec fn cells_sound(self) -> bool {
        &&& self.cells.len() <= self.max_cells
        &&& forall|i: int| 0 <= i < self.cells.len() ==> (#[trigger] self.cells[i]).write_count > 0
    }
}

proof fn lemma_first_reader_in_order(threads: Seq<ThreadVisual>, writers: int, shift: int, id: int)
    requires
        0 <= writers <= threads.len(),
        0 <= shift <= id,
        writers > 0 ==> shift == 0,
        writers + id - shift < threads.len(),
        forall|i: int|
            0 <= i < writers ==> (#[trigger] threads[i]).kind == ThreadKind::Writer,
        forall|i: int|
            writers <= i < threads.len() ==> (#[trigger] threads[i]).kind == ThreadKind::Reader
                && threads[i].id == i - writers + shift,
    ensures
        first_reader(threads, id) == writers + id - shift,
    decreases threads.len(),
{
    let rest = threads.drop_first();
    assert forall|i: int| 0 <= i < rest.len() implies #[trigger] rest[i] == threads[i + 1] by {}
    if writers > 0 {
        assert(threads[0].kind == ThreadKind::Writer);
        lemma_first_reader_in_order(rest, writers - 1, 0, id);
    } else if shift < id {
        lemma_first_reader_in_order(rest, 0, shift + 1, id);
    }
}

/// With the writers first and the readers after them, every thread is found
/// under its kind and number.
pub proof fn law_threads_are_found(s: Store, writers: int, kind: ThreadKind, id: int)
    requires
        s.in_order(writers),
        0 <= id,
        match kind {
            ThreadKind::Writer => id < writers,
            ThreadKind::Reader => writers + id < s.threads.len(),
        },
    ensures
        s.has(kind, id),
        kind == ThreadKind::Reader ==> s.index_of(kind, id) == writers + id,
{
    if kind == ThreadKind::Reader {
        lemma_first_reader_in_order(s.threads, writers, 0, id);
    }
}

proof fn lemma_first_reader_after_update(
    threads: Seq<ThreadVisual>,
    i: int,
    thread: ThreadVisual,
    id: int,
)
    requires
        0 <= i < threads.len(),
        thread.kind == threads[i].kind,
        thread.id == threads[i].id,
    ensures
        first_reader(threads.update(i, thread), id) == first_reader(threads, id),
    decreases threads.len(),
{
    let rest = threads.drop_first();
    let updated = threads.update(i, thread);
    if i == 0 {
        assert(updated.drop_first() =~= rest);
    } else {
        assert(updated.drop_first() =~= rest.update(i - 1, thread));
        lemma_first_reader_after_update(rest, i - 1, thread, id);
    }
}

/// A change to one thread that keeps its kind and number leaves every thread
/// to be found where it was, and the order of the list as it was.
pub proof fn law_threads_stay_found(
    s: Store,
    kind: ThreadKind,
    id: int,
    thread: ThreadVisual,
    other_kind: ThreadKind,
    other_id: int,
    writers: int,
)
    requires
        s.has(kind, id),
        thread.kind == kind,
        thread.id == id,
    ensures
        s.with_thread(kind, id, thread).thread(kind, id) == thread,
        s.with_thread(kind, id, thread).index_of(other_kind, other_id) == s.index_of(
            other_kind,
            other_id,
        ),
        s.has(other_kind, other_id) ==> s.with_thread(kind, id, thread).has(other_kind, other_id),
        s.in_order(writers) ==> s.with_thread(kind, id, thread).in_order(writers),
{
    let i = s.index_of(kind, id);
    lemma_first_reader_after_update(s.threads, i, thread, id);
    lemma_first_reader_after_update(s.threads, i, thread, other_id);
}

/// Writing a chosen cell keeps the store sound, never loses a cell, and leaves
/// something to read, as long as the store has any room at all.
pub proof fn law_writing_keeps_cells(s: Store, rng: SmallRng, color: Rgb)
    requires
        s.cells_sound(),
        s.max_cells > 0,
        forall|i: int|
            0 <= i < s.cells.len() ==> (#[trigger] s.cells[i]).write_count < usize::MAX,
    ensures
        s.with_written(s.write_target(rng), color).cells_sound(),
        s.with_written(s.write_target(rng), color).cells.len() >= s.cells.len(),
        s.with_written(s.write_target(rng), color).cells.len() > 0,
        s.with_written(s.write_target(rng), color).cells[s.write_target(rng)].color == color,
{
    let target = s.write_target(rng);
    if s.cells.len() == s.max_cells {
        let n = s.cells.len() as usize;
        if n > 1 {
            vstd::arithmetic::div_mod::lemma_mod_bound(
                (crate::rng::next_state(rng.state) as usize) as int,
                n as int,
            );
        }
        assert(0 <= target < s.cells.len());
    }
    let t = s.with_written(target, color);
    assert forall|i: int| 0 <= i < t.cells.len() implies (#[trigger] t.cells[i]).write_count > 0 by {
        if i < s.cells.len() {
            assert(s.cells[i].write_count > 0);
        }
    }
}

/// Reading a cell changes nothing but how often it was read.
pub proof fn law_reading_changes_no_data(s: Store, target: int, other: int)
    requires
        0 <= target < s.cells.len(),
        0 <= other < s.cells.len(),
    ensures
        s.with_read(target).cells.len() == s.cells.len(),
        s.with_read(target).cells[other].color == s.cells[other].color,
        s.with_read(target).cells[other].write_count == s.cells[other].write_count,
        other != target ==> s.with_read(target).cells[other] == s.cells[other],
{
}

impl AppState {
    /// An empty store, with all threads at home: the writers, then the readers.
    pub fn new(config: &ReaderWriterConfig, now: u64) -> (app: Self)
        requires
            crate::layout::fits_column(config.writer_count as int),
            crate::layout::fits_column(config.reader_count as int),
        ensures
            app@ == (Store {
                policy: config.policy,
                max_cells: 200,
                cells: Seq::empty(),
                threads: Seq::new(
                    config.writer_count as nat,
                    |i: int| fresh_thread(ThreadKind::Writer, i, now),
                ) + Seq::new(
                    config.reader_count as nat,
                    |i: int| fresh_thread(ThreadKind::Reader, i, now),
                ),
                coordinator: CoordinatorSnapshot {
                    active_readers: 0,
                    active_writers: 0,
                    waiting_readers: 0,
                    waiting_writers: 0,
                    data_count: 0,
                },
            }),
            app@.in_order(config.writer_count as int),
            app@.cells_sound(),
            app.cells@.len() == 0,
            app.threads@.len() == config.writer_count + config.reader_count,
            forall|i: int|
                0 <= i < config.writer_count ==> {
                    let t = #[trigger] app.threads@[i];
                    &&& t.kind == ThreadKind::Writer
                    &&& t.id == i
                    &&& t.count == 0
                    &&& t.status == ThreadStatus::Thinking
                    &&& t.target_cell is None
                    &&& t.color == crate::reader_writer::look::writer_palette_color(i)
                    &&& t.motion.duration == 1_000_000
                    &&& t.motion.to.x == 120
                    &&& t.motion.to.y == 220 + 54 * i
                    &&& t.motion.from == Origin::Landmark(t.motion.to)
                    &&& t.motion.started_at == now
                },
            forall|i: int|
                config.writer_count <= i < config.writer_count + config.reader_count ==> {
                    let t = #[trigger] app.threads@[i];
                    &&& t.kind == ThreadKind::Reader
                    &&& t.id == i - config.writer_count
                    &&& t.count == 0
                    &&& t.status == ThreadStatus::Thinking
                    &&& t.target_cell is None
                    &&& t.color == crate::reader_writer::look::reader_palette_color(
                        i - config.writer_count,
                    )
                    &&& t.motion.duration == 1_000_000
                    &&& t.motion.to.x == 860
                    &&& t.motion.to.y == 220 + 54 * (i - config.writer_count)
                    &&& t.motion.from == Origin::Landmark(t.motion.to)
                    &&& t.motion.started_at == now
                },
    {
        let mut threads: Vec<ThreadVisual> = Vec::new();
        let ghost writers = Seq::new(
            config.writer_count as nat,
            |i: int| fresh_thread(ThreadKind::Writer, i, now),
        );
        let ghost readers = Seq::new(
            config.reader_count as nat,
            |i: int| fresh_thread(ThreadKind::Reader, i, now),
        );
        let mut id: usize = 0;
        while id < config.writer_count
            invariant
                id <= config.writer_count,
                crate::layout::fits_column(config.writer_count as int),
                writers == Seq::new(
                    config.writer_count as nat,
                    |i: int| fresh_thread(ThreadKind::Writer, i, now),
                ),
                threads@ == writers.take(id as int),
            decreases config.writer_count - id,
        {
            let home = ThreadKind::Writer.home_pos(id);
            threads.push(
                ThreadVisual {
                    kind: ThreadKind::Writer,
                    id,
                    count: 0,
                    color: Colors::writer_palette(id),
                    status: ThreadStatus::Thinking,
                    target_cell: None,
                    motion: Motion::stationary(home, now),
                },
            );
            id = id + 1;
            assert(threads@ =~= writers.take(id as int));
        }
        assert(writers.take(id as int) =~= writers);
        id = 0;
        while id < config.reader_count
            invariant
                id <= config.reader_count,
                crate::layout::fits_column(config.reader_count as int),
                writers.len() == config.writer_count,
                readers == Seq::new(
                    config.reader_count as nat,
                    |i: int| fresh_thread(ThreadKind::Reader, i, now),
                ),
                threads@ == writers + readers.take(id as int),
            decreases config.reader_count - id,
        {
            let home = ThreadKind::Reader.home_pos(id);
            threads.push(
                ThreadVisual {
                    kind: ThreadKind::Reader,
                    id,
                    count: 0,
                    color: Colors::reader_palette(id),
                    status: ThreadStatus::Thinking,
                    target_cell: None,
                    motion: Motion::stationary(home, now),
                },
            );
            id = id + 1;
            assert(threads@ =~= writers + readers.take(id as int));
        }
        assert(readers.take(id as int) =~= readers);
        AppState {
            policy: config.policy,
            max_cells: DATA_COLS * DATA_ROWS,
            cells: Vec::new(),
            threads,
            coordinator: CoordinatorSnapshot {
                active_readers: 0,
                active_writers: 0,
                waiting_readers: 0,
                waiting_writers: 0,
                data_count: 0,
            },
        }
    }

    /// Where a thread stands in the list.
    pub fn thread_index(&self, kind: ThreadKind, id: usize) -> (index: usize)
        requires
            self@.has(kind, id as int),
        ensures
            index == self@.index_of(kind, id as int),
            index < self.threads@.len(),
            self.threads@[index as int].kind == kind,
            self.threads@[index as int].id == id,
    {
        match kind {
            ThreadKind::Writer => id,
            ThreadKind::Reader => {
                let mut i: usize = 0;
                assert(self.threads@.skip(0) =~= self.threads@);
                while i < self.threads.len()
                    invariant
                        i <= self.threads@.len(),
                        kind == ThreadKind::Reader,
                        self@.has(kind, id as int),
                        first_reader(self.threads@, id as int) == i + first_reader(
                            self.threads@.skip(i as int),
                            id as int,
                        ),
                    decreases self.threads@.len() - i,
                {
                    let thread: ThreadVisual = self.threads[i];
                    assert(self.threads@.skip(i as int)[0] == thread);
                    if thread.kind == ThreadKind::Reader && thread.id == id {
                        return i;
                    }
                    assert(self.threads@.skip(i as int).drop_first() =~= self.threads@.skip(i + 1));
                    i = i + 1;
                }
                i
            },
        }
    }

    /// Sends a thread somewhere from where it is seen, in another status.
    pub fn set_thread_motion(
        &mut self,
        kind: ThreadKind,
        id: usize,
        status: ThreadStatus,
        target_cell: Option<usize>,
        destination: Point,
        duration: u64,
        seen: Sighting,
    )
        requires
            old(self)@.has(kind, id as int),
        ensures
            final(self)@ == old(self)@.with_motion(
                kind,
                id as int,
                status,
                target_cell,
                destination,
                duration,
                seen,
            ),
            forall|k: ThreadKind, i: int| old(self)@.has(k, i) ==> #[trigger] final(self)@.has(k, i),
    {
        let index: usize = self.thread_index(kind, id);
        let mut thread: ThreadVisual = self.threads[index];
        thread.status = status;
        thread.target_cell = target_cell;
        thread.motion = Motion::departure(seen, destination, duration);
        self.threads.set(index, thread);
        assert(self@ =~= old(self)@.with_thread(kind, id as int, thread));
        assert forall|k: ThreadKind, i: int| old(self)@.has(k, i) implies #[trigger] self@.has(
            k,
            i,
        ) by {
            law_threads_stay_found(old(self)@, kind, id as int, thread, k, i, 0);
        }
    }

    /// Counts a finished access and sends the thread home from where it is seen.
    pub fn finish_access(
        &mut self,
        kind: ThreadKind,
        id: usize,
        new_color: Rgb,
        home: Point,
        status: ThreadStatus,
        seen: Sighting,
    )
        requires
            old(self)@.has(kind, id as int),
            old(self)@.thread(kind, id as int).count < usize::MAX,
        ensures
            final(self)@ == old(self)@.with_access_done(
                kind,
                id as int,
                new_color,
                home,
                status,
                seen,
            ),
            forall|k: ThreadKind, i: int| old(self)@.has(k, i) ==> #[trigger] final(self)@.has(k, i),
    {
        let index: usize = self.thread_index(kind, id);
        let mut thread: ThreadVisual = self.threads[index];
        thread.status = status;
        thread.target_cell = None;
        thread.count = thread.count + 1;
        thread.color = new_color;
        thread.motion = Motion::departure(seen, home, MOVE_DURATION);
        self.threads.set(index, thread);
        assert(self@ =~= old(self)@.with_thread(kind, id as int, thread));
        assert forall|k: ThreadKind, i: int| old(self)@.has(k, i) implies #[trigger] self@.has(
            k,
            i,
        ) by {
            law_threads_stay_found(old(self)@, kind, id as int, thread, k, i, 0);
        }
    }

    /// The cell that a writer writes: the next free one, or one by chance.
    pub fn choose_write_cell(&self, rng: &mut SmallRng) -> (target: usize)
        ensures
            target == self@.write_target(*old(rng)),
            *final(rng) == self@.write_target_rng(*old(rng)),
            self.cells@.len() < self.max_cells ==> target == self.cells@.len() && *final(rng)
                == *old(rng),
            self.cells@.len() >= self.max_cells && self.cells@.len() > 0 ==> target
                < self.cells@.len(),
            self.cells@.len() >= self.max_cells && self.cells@.len() > 1 ==> final(rng).state
                == crate::rng::next_state(old(rng).state) && target == final(rng).state as usize
                % self.cells@.len() as usize,
    {
        if self.cells.len() < self.max_cells {
            self.cells.len()
        } else {
            rng.next_usize(self.cells.len())
        }
    }

    /// Writes a colour into a cell.
    pub fn write_cell(&mut self, target: usize, color: Rgb)
        requires
            target < old(self)@.cells.len() ==> old(self)@.cells[target as int].write_count
                < usize::MAX,
        ensures
            final(self)@ == old(self)@.with_written(target as int, color),
    {
        if target < self.cells.len() {
            let mut cell: DataCell = self.cells[target];
            cell.color = color;
            cell.write_count = cell.write_count + 1;
            self.cells.set(target, cell);
        } else if self.cells.len() < self.max_cells {
            self.cells.push(DataCell { color, read_count: 0, write_count: 1 });
        }
    }

    /// Reads the colour of a cell.
    pub fn read_cell(&mut self, target: usize) -> (color: Rgb)
        requires
            target < old(self)@.cells.len(),
            old(self)@.cells[target as int].read_count < usize::MAX,
        ensures
            color == old(self)@.cells[target as int].color,
            final(self)@ == old(self)@.with_read(target as int),
    {
        let mut cell: DataCell = self.cells[target];
        cell.read_count = cell.read_count + 1;
        self.cells.set(target, cell);
        cell.color
    }

    /// Shows a picture of the lock.
    pub fn publish_snapshot(&mut self, snapshot: CoordinatorSnapshot)
        ensures
            final(self)@ == old(self)@.with_picture(snapshot),
            final(self).coordinator == snapshot,
            final(self).cells@ == old(self).cells@,
            final(self).threads@ == old(self).threads@,
            final(self).policy == old(self).policy,
            final(self).max_cells == old(self).max_cells,
    {
        self.coordinator = snapshot;
    }
}

} // verus!
