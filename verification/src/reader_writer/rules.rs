//! The rules of the lock and of those who use it, told by who is active, who
//! waits, and what is seen on the screen.
use vstd::prelude::*;

use crate::color::Rgb;
use crate::layout::Point;
use crate::reader_writer::config::LockPolicy;
use crate::reader_writer::coordinator::{CoordinatorSnapshot, LockCoordinator};
use crate::reader_writer::motion::{Motion, Origin, Sighting};
use crate::reader_writer::store::{DataCell, Store, ThreadKind, ThreadStatus, ThreadVisual};
use crate::reader_writer::worker::{ThreadPhase, ThreadTask, ThreadWorker};
use crate::rng::SmallRng;

verus! {

/// Readers share: once there is something to read, and no writer is active or
/// waits, a reader is not held back, whatever the policy, whosever turn it is
/// and however many readers are active or wait.
pub proof fn law_readers_share(c: LockCoordinator)
    requires
        c.data_count > 0,
        c.active_writers == 0,
        c.waiting_writers == 0,
    ensures
        !c.holds_readers(),
{
}

/// Once there is something to read, a reader has to wait exactly for an active
/// writer and, where writers come first, for a waiting one: always under
/// writer priority, never under reader priority, and under the fair policy
/// when it is the writers' turn.
pub proof fn law_what_holds_readers(c: LockCoordinator)
    requires
        c.data_count > 0,
    ensures
        c.policy == LockPolicy::ReaderPriority ==> (c.holds_readers() <==> c.active_writers > 0),
        c.policy == LockPolicy::WriterPriority ==> (c.holds_readers() <==> c.active_writers > 0
            || c.waiting_writers > 0),
        c.policy == LockPolicy::Fair ==> (c.holds_readers() <==> c.active_writers > 0 || (
        c.waiting_writers > 0 && c.writer_turn)),
{
}

/// A writer has to wait exactly for anybody active and, where readers come
/// first and there is something to read, for a waiting reader: always under
/// reader priority, never under writer priority, and under the fair policy
/// when it is not the writers' turn.
pub proof fn law_what_holds_writers(c: LockCoordinator)
    ensures
        c.active_writers > 0 || c.active_readers > 0 ==> c.holds_writers(),
        c.active_writers == 0 && c.active_readers == 0 ==> {
            &&& c.data_count == 0 ==> !c.holds_writers()
            &&& c.waiting_readers == 0 ==> !c.holds_writers()
            &&& c.data_count > 0 && c.waiting_readers > 0 ==> match c.policy {
                LockPolicy::ReaderPriority => c.holds_writers(),
                LockPolicy::WriterPriority => !c.holds_writers(),
                LockPolicy::Fair => c.holds_writers() <==> !c.writer_turn,
            }
        },
{
}

/// However many readers take the lock one after the other while no writer
/// waits, none of them is held back, and all are active together.
pub proof fn law_any_number_of_readers(c: LockCoordinator, n: nat)
    requires
        c.data_count > 0,
        c.active_writers == 0,
        c.waiting_writers == 0,
        c.active_readers + n <= usize::MAX,
        c.waiting_readers < usize::MAX,
    ensures
        c.joined(n).active_readers == c.active_readers + n,
        c.joined(n).waiting_readers == c.waiting_readers,
        c.joined(n).active_writers == 0,
        c.joined(n).waiting_writers == 0,
        c.joined(n).data_count == c.data_count,
        !c.joined(n).holds_readers(),
    decreases n,
{
    if n > 0 {
        law_any_number_of_readers(c, (n - 1) as nat);
    }
}

impl LockCoordinator {
    /// The lock after so many readers have joined the waiting and taken it.
    pub open spec fn joined(self, n: nat) -> LockCoordinator
        decreases n,
    {
        if n == 0 {
            self
        } else {
            self.joined((n - 1) as nat).read_waited().read_locked(true)
        }
    }
}

/// A reader that joins is one more of those who wait; when it takes the lock
/// it is one fewer of them and one more active, and when it gives it back, one
/// fewer active. Writers and cells are left alone.
pub proof fn law_readers_are_counted(c: LockCoordinator)
    requires
        c.waiting_readers < usize::MAX,
        c.active_readers < usize::MAX,
    ensures
        c.read_waited().waiting_readers == c.waiting_readers + 1,
        c.read_waited().active_readers == c.active_readers,
        c.read_waited().writer_turn == c.writer_turn,
        c.waiting_readers > 0 ==> c.read_locked(true).waiting_readers == c.waiting_readers - 1,
        c.waiting_readers > 0 ==> c.read_locked(false).waiting_readers == c.waiting_readers - 1,
        c.waiting_readers == 0 ==> c.read_locked(true).waiting_readers == 0 && c.read_locked(
            false,
        ).waiting_readers == 0,
        c.read_locked(true).active_readers == c.active_readers + 1,
        c.read_locked(false).active_readers == c.active_readers,
        c.read_locked(false).writer_turn == c.writer_turn,
        c.active_readers > 0 ==> c.read_unlocked().active_readers == c.active_readers - 1,
        c.active_readers == 0 ==> c.read_unlocked().active_readers == 0,
        c.read_unlocked().waiting_readers == c.waiting_readers,
        forall|d: LockCoordinator|
            d == c.read_waited() || d == c.read_locked(true) || d == c.read_locked(false) || d
                == c.read_unlocked() ==> #[trigger] d.active_writers == c.active_writers
                && d.waiting_writers == c.waiting_writers && d.data_count == c.data_count
                && d.policy == c.policy,
{
}

/// A writer that joins is one more of those who wait; when it takes the lock it
/// is one fewer of them and the active one, and when it gives it back nobody
/// writes and there are as many cells as it says. Readers are left alone.
pub proof fn law_writers_are_counted(c: LockCoordinator, data_count: usize)
    requires
        c.waiting_writers < usize::MAX,
    ensures
        c.write_waited().waiting_writers == c.waiting_writers + 1,
        c.write_waited().active_writers == c.active_writers,
        c.write_waited().data_count == c.data_count,
        c.write_waited().writer_turn == c.writer_turn,
        c.waiting_writers > 0 ==> c.write_locked(true).waiting_writers == c.waiting_writers - 1,
        c.waiting_writers > 0 ==> c.write_locked(false).waiting_writers == c.waiting_writers - 1,
        c.waiting_writers == 0 ==> c.write_locked(true).waiting_writers == 0 && c.write_locked(
            false,
        ).waiting_writers == 0,
        c.write_locked(true).active_writers == 1,
        c.write_locked(false).active_writers == c.active_writers,
        c.write_locked(true).data_count == c.data_count,
        c.write_locked(false).data_count == c.data_count,
        c.write_locked(false).writer_turn == c.writer_turn,
        c.write_unlocked(data_count).active_writers == 0,
        c.write_unlocked(data_count).waiting_writers == c.waiting_writers,
        c.write_unlocked(data_count).data_count == data_count,
        forall|d: LockCoordinator|
            d == c.write_waited() || d == c.write_locked(true) || d == c.write_locked(false) || d
                == c.write_unlocked(data_count) ==> #[trigger] d.active_readers == c.active_readers
                && d.waiting_readers == c.waiting_readers && d.policy == c.policy,
{
}

/// The turn changes under the fair policy alone: it is the writers' once a
/// writer has the lock, or the last reader leaves waiting writers behind, and
/// the readers' once a reader has the lock, or a writer leaves waiting readers
/// behind.
pub proof fn law_turns_change_hands(c: LockCoordinator, data_count: usize)
    ensures
        c.policy != LockPolicy::Fair ==> {
            &&& c.read_locked(true).writer_turn == c.writer_turn
            &&& c.read_unlocked().writer_turn == c.writer_turn
            &&& c.write_locked(true).writer_turn == c.writer_turn
            &&& c.write_unlocked(data_count).writer_turn == c.writer_turn
        },
        c.policy == LockPolicy::Fair ==> {
            &&& !c.read_locked(true).writer_turn
            &&& c.write_locked(true).writer_turn
            &&& c.active_readers <= 1 && c.waiting_writers > 0 ==> c.read_unlocked().writer_turn
            &&& c.active_readers > 1 || c.waiting_writers == 0 ==> c.read_unlocked().writer_turn
                == c.writer_turn
            &&& c.waiting_readers > 0 ==> !c.write_unlocked(data_count).writer_turn
            &&& c.waiting_readers == 0 ==> c.write_unlocked(data_count).writer_turn == c.writer_turn
        },
{
}

/// Whom the lock calls when it is given back. A reader calls all readers, and a
/// writer when it is the last to leave. A writer calls those whom the policy
/// prefers if any of them waits, and else the others; under the fair policy it
/// calls whoever waits.
pub proof fn law_whom_the_lock_calls(c: LockCoordinator)
    ensures
        c.read_wake().readers,
        c.read_wake().writer <==> c.active_readers <= 1,
        c.policy == LockPolicy::ReaderPriority ==> (c.write_wake().readers <==> c.waiting_readers
            > 0) && (c.write_wake().writer <==> c.waiting_readers == 0),
        c.policy == LockPolicy::WriterPriority ==> (c.write_wake().writer <==> c.waiting_writers
            > 0) && (c.write_wake().readers <==> c.waiting_writers == 0),
        c.policy == LockPolicy::Fair ==> (c.write_wake().readers <==> c.waiting_readers > 0) && (
        c.write_wake().writer <==> c.waiting_writers > 0),
{
}

/// Each thread has three places of its own on the way to the store, which lies
/// between writers and readers: it rests farthest off, waits nearer, and uses
/// the store from beside it, at the same height.
pub proof fn law_places_lie_on_the_way(id: int)
    requires
        crate::layout::fits_column(id),
    ensures
        ThreadKind::Writer.home(id).x < ThreadKind::Writer.waiting_place(id).x
            < ThreadKind::Writer.access_place(id).x < 390,
        390 + 218 < ThreadKind::Reader.access_place(id).x < ThreadKind::Reader.waiting_place(id).x
            < ThreadKind::Reader.home(id).x,
        forall|kind: ThreadKind|
            (#[trigger] kind.home(id)).y == kind.waiting_place(id).y == kind.access_place(id).y,
{
}

/// Threads of one kind keep apart: each has its own height, below those with
/// lower numbers.
pub proof fn law_threads_keep_apart(kind: ThreadKind, id: int, other: int)
    requires
        crate::layout::fits_column(id),
        crate::layout::fits_column(other),
        id < other,
    ensures
        kind.home(other).y >= kind.home(id).y + 54,
        kind.waiting_place(other).y >= kind.waiting_place(id).y + 54,
        kind.access_place(other).y >= kind.access_place(id).y + 54,
{
}

/// Where a thread is bound for by its kind, its number and what it does: home
/// when it thinks or has stopped, the waiting place when it waits, and beside
/// the store when it reads or writes.
pub open spec fn bound_for(t: ThreadVisual) -> bool {
    &&& t.motion.to.y == 220 + 54 * t.id
    &&& match (t.kind, t.status) {
        (ThreadKind::Writer, ThreadStatus::Thinking) => t.motion.to.x == 120,
        (ThreadKind::Writer, ThreadStatus::Stopped) => t.motion.to.x == 120,
        (ThreadKind::Writer, ThreadStatus::Waiting) => t.motion.to.x == 270,
        (ThreadKind::Writer, ThreadStatus::Writing) => t.motion.to.x == 345,
        (ThreadKind::Writer, ThreadStatus::Reading) => false,
        (ThreadKind::Reader, ThreadStatus::Thinking) => t.motion.to.x == 860,
        (ThreadKind::Reader, ThreadStatus::Stopped) => t.motion.to.x == 860,
        (ThreadKind::Reader, ThreadStatus::Waiting) => t.motion.to.x == 710,
        (ThreadKind::Reader, ThreadStatus::Reading) => t.motion.to.x == 640,
        (ThreadKind::Reader, ThreadStatus::Writing) => false,
    }
}

/// Where a thread stands in the list, with so many writers first.
pub open spec fn seat(kind: ThreadKind, id: int, writers: int) -> int {
    match kind {
        ThreadKind::Writer => id,
        ThreadKind::Reader => writers + id,
    }
}

impl Store {
    /// The list has the writers first, and the thread is in it.
    pub open spec fn seats(self, kind: ThreadKind, id: int, writers: int) -> bool {
        &&& self.in_order(writers)
        &&& crate::layout::fits_column(id)
        &&& match kind {
            ThreadKind::Writer => id < writers,
            ThreadKind::Reader => writers + id < self.threads.len(),
        }
    }

    /// Nothing but the thread at a seat has changed, and the cells and the
    /// picture of the lock if they did; the thread has kept its kind and
    /// number.
    pub open spec fn others_alone(self, after: Store, at: int) -> bool {
        &&& after.policy == self.policy
        &&& after.max_cells == self.max_cells
        &&& after.threads.len() == self.threads.len()
        &&& after.threads[at].kind == self.threads[at].kind
        &&& after.threads[at].id == self.threads[at].id
        &&& forall|i: int|
            0 <= i < self.threads.len() && i != at ==> #[trigger] after.threads[i]
                == self.threads[i]
    }

    /// The thread at a seat has left from where it was seen, in a status, for a
    /// place at the height of its number, over so many nanoseconds.
    pub open spec fn sent(
        self,
        at: int,
        status: ThreadStatus,
        x: int,
        duration: int,
        seen: Sighting,
    ) -> bool {
        let t = self.threads[at];
        &&& t.status == status
        &&& t.motion.from == Origin::Seen(seen.x, seen.y)
        &&& t.motion.started_at == seen.at
        &&& t.motion.duration == duration
        &&& t.motion.to.x == x
        &&& t.motion.to.y == 220 + 54 * t.id
    }
}

/// A thread that is sent somewhere leaves from where it is seen, when it is
/// seen, and keeps its colour and count; nothing else in the store changes.
pub proof fn law_one_thread_is_sent(
    s: Store,
    kind: ThreadKind,
    id: int,
    status: ThreadStatus,
    cell: Option<usize>,
    to: Point,
    duration: u64,
    seen: Sighting,
    writers: int,
)
    requires
        s.seats(kind, id, writers),
    ensures
        ({
            let at = seat(kind, id, writers);
            let after = s.with_motion(kind, id, status, cell, to, duration, seen);
            &&& s.others_alone(after, at)
            &&& after.threads[at].status == status
            &&& after.threads[at].target_cell == cell
            &&& after.threads[at].count == s.threads[at].count
            &&& after.threads[at].color == s.threads[at].color
            &&& after.threads[at].motion == (Motion {
                from: Origin::Seen(seen.x, seen.y),
                to,
                started_at: seen.at,
                duration,
            })
            &&& after.cells == s.cells
            &&& after.coordinator == s.coordinator
        }),
{
    crate::reader_writer::store::law_threads_are_found(s, writers, kind, id);
}

/// A thread that has used the store is counted once more, takes on the colour
/// given, points at no cell and leaves for the place given.
pub proof fn law_one_access_is_counted(
    s: Store,
    kind: ThreadKind,
    id: int,
    color: Rgb,
    home: Point,
    status: ThreadStatus,
    seen: Sighting,
    writers: int,
)
    requires
        s.seats(kind, id, writers),
        s.threads[seat(kind, id, writers)].count < usize::MAX,
    ensures
        ({
            let at = seat(kind, id, writers);
            let after = s.with_access_done(kind, id, color, home, status, seen);
            &&& s.others_alone(after, at)
            &&& after.threads[at].status == status
            &&& after.threads[at].target_cell is None
            &&& after.threads[at].count == s.threads[at].count + 1
            &&& after.threads[at].color == color
            &&& after.threads[at].motion == (Motion {
                from: Origin::Seen(seen.x, seen.y),
                to: home,
                started_at: seen.at,
                duration: 220_000_000,
            })
            &&& after.cells == s.cells
            &&& after.coordinator == s.coordinator
        }),
{
    crate::reader_writer::store::law_threads_are_found(s, writers, kind, id);
}

/// While there is room each write adds a cell behind the others; a full store
/// has one of its cells written over, by chance.
pub proof fn law_cells_fill_in_order(s: Store, rng: SmallRng)
    requires
        s.cells.len() <= usize::MAX,
    ensures
        s.cells.len() < s.max_cells ==> s.write_target(rng) == s.cells.len() && s.write_target_rng(
            rng,
        ) == rng,
        s.cells.len() >= s.max_cells && s.cells.len() > 0 ==> 0 <= s.write_target(rng)
            < s.cells.len(),
        s.cells.len() >= s.max_cells && s.cells.len() > 1 ==> s.write_target(rng)
            == crate::rng::next_state(rng.state) as usize % s.cells.len() as usize
            && s.write_target_rng(rng).state == crate::rng::next_state(rng.state),
{
}

/// A write leaves its colour in its cell and counts there once, keeps how often
/// the cell was read, and changes no other cell; a new cell has been written
/// once and not read.
pub proof fn law_one_cell_is_written(s: Store, target: int, color: Rgb, other: int)
    requires
        0 <= target,
        0 <= other < s.cells.len(),
        target < s.cells.len() ==> s.cells[target].write_count < usize::MAX,
    ensures
        ({
            let after = s.with_written(target, color);
            &&& target < s.cells.len() ==> {
                &&& after.cells.len() == s.cells.len()
                &&& after.cells[target].color == color
                &&& after.cells[target].write_count == s.cells[target].write_count + 1
                &&& after.cells[target].read_count == s.cells[target].read_count
            }
            &&& target >= s.cells.len() && s.cells.len() < s.max_cells ==> {
                &&& after.cells.len() == s.cells.len() + 1
                &&& after.cells.last() == (DataCell { color, read_count: 0, write_count: 1 })
            }
            &&& target >= s.cells.len() && s.cells.len() >= s.max_cells ==> after == s
            &&& other != target ==> after.cells[other] == s.cells[other]
            &&& after.threads == s.threads
            &&& after.coordinator == s.coordinator
            &&& after.policy == s.policy
            &&& after.max_cells == s.max_cells
        }),
{
}

/// A read counts once at its cell, and changes nothing else.
pub proof fn law_one_cell_is_read(s: Store, target: int, other: int)
    requires
        0 <= target < s.cells.len(),
        0 <= other < s.cells.len(),
        s.cells[target].read_count < usize::MAX,
    ensures
        ({
            let after = s.with_read(target);
            &&& after.cells.len() == s.cells.len()
            &&& after.cells[target].read_count == s.cells[target].read_count + 1
            &&& after.cells[target].color == s.cells[target].color
            &&& after.cells[target].write_count == s.cells[target].write_count
            &&& other != target ==> after.cells[other] == s.cells[other]
            &&& after.threads == s.threads
            &&& after.coordinator == s.coordinator
            &&& after.policy == s.policy
            &&& after.max_cells == s.max_cells
        }),
{
}

/// When its turn has come a thread thinks at home for some time, by chance;
/// then it waits for its turn at the store, where it is; then it waits for the
/// lock at its waiting place.
pub proof fn law_threads_think_and_queue(
    w: ThreadWorker,
    seen: Sighting,
    s: Store,
    writers: int,
)
    requires
        s.seats(w.kind, w.id as int, writers),
        w.timing.valid(),
    ensures
        ({
            let at = seat(w.kind, w.id as int, writers);
            let (next, after, task) = w.proceeded(true, seen, s);
            &&& w.phase is Turn ==> {
                &&& next.phase is Thinking
                &&& next.rng.state == crate::rng::next_state(w.rng.state)
                &&& task is Sleep
                &&& w.timing.wait_range_tenths > 0 ==> task->Sleep_0 == 100 * (
                w.timing.wait_min_tenths + next.rng.state % w.timing.wait_range_tenths)
                &&& w.timing.wait_range_tenths == 0 ==> task->Sleep_0 == 100
                    * w.timing.wait_min_tenths
                &&& s.others_alone(after, at)
                &&& after.cells == s.cells
                &&& after.coordinator == s.coordinator
                &&& after.threads[at].target_cell is None
                &&& after.threads[at].count == s.threads[at].count
                &&& after.threads[at].color == s.threads[at].color
                &&& w.kind == ThreadKind::Writer ==> after.sent(
                    at,
                    ThreadStatus::Thinking,
                    120,
                    220_000_000,
                    seen,
                )
                &&& w.kind == ThreadKind::Reader ==> after.sent(
                    at,
                    ThreadStatus::Thinking,
                    860,
                    220_000_000,
                    seen,
                )
            }
            &&& w.phase is Thinking ==> {
                &&& next.phase is Ready
                &&& next.rng == w.rng
                &&& task is AwaitTurn
                &&& after == s
            }
            &&& w.phase is Ready ==> {
                &&& next.phase is Locking
                &&& next.rng == w.rng
                &&& task is Lock
                &&& s.others_alone(after, at)
                &&& after.cells == s.cells
                &&& after.coordinator == s.coordinator
                &&& after.threads[at].target_cell is None
                &&& after.threads[at].count == s.threads[at].count
                &&& after.threads[at].color == s.threads[at].color
                &&& w.kind == ThreadKind::Writer ==> after.sent(
                    at,
                    ThreadStatus::Waiting,
                    270,
                    220_000_000,
                    seen,
                )
                &&& w.kind == ThreadKind::Reader ==> after.sent(
                    at,
                    ThreadStatus::Waiting,
                    710,
                    220_000_000,
                    seen,
                )
            }
            &&& w.phase is Turn || w.phase is Thinking || w.phase is Ready ==> {
                &&& next.kind == w.kind
                &&& next.id == w.id
                &&& next.timing == w.timing
                &&& next.color == w.color
                &&& next.data_count == w.data_count
            }
        }),
{
    crate::reader_writer::store::law_threads_are_found(s, writers, w.kind, w.id as int);
}

/// A thread that has kept the lock for its time goes home, thinking, in the
/// colour it read or wrote, counted once more; either way it gives the lock
/// back.
pub proof fn law_threads_go_home_after_use(
    w: ThreadWorker,
    running: bool,
    seen: Sighting,
    s: Store,
    writers: int,
)
    requires
        s.seats(w.kind, w.id as int, writers),
        w.phase is Holding,
        s.threads[seat(w.kind, w.id as int, writers)].count < usize::MAX,
    ensures
        ({
            let at = seat(w.kind, w.id as int, writers);
            let (next, after, task) = w.proceeded(running, seen, s);
            &&& next.phase == ThreadPhase::Releasing(running)
            &&& next.kind == w.kind
            &&& next.id == w.id
            &&& next.timing == w.timing
            &&& next.rng == w.rng
            &&& next.color == w.color
            &&& next.data_count == w.data_count
            &&& task == ThreadTask::Unlock(w.data_count)
            &&& !running ==> after == s
            &&& running ==> {
                &&& s.others_alone(after, at)
                &&& after.cells == s.cells
                &&& after.coordinator == s.coordinator
                &&& after.threads[at].target_cell is None
                &&& after.threads[at].count == s.threads[at].count + 1
                &&& after.threads[at].color == w.color
                &&& w.kind == ThreadKind::Writer ==> after.sent(
                    at,
                    ThreadStatus::Thinking,
                    120,
                    220_000_000,
                    seen,
                )
                &&& w.kind == ThreadKind::Reader ==> after.sent(
                    at,
                    ThreadStatus::Thinking,
                    860,
                    220_000_000,
                    seen,
                )
            }
        }),
{
    crate::reader_writer::store::law_threads_are_found(s, writers, w.kind, w.id as int);
}

/// A thread that leaves, before it had the lock or after it gave it back, goes
/// home faster than otherwise and stops there.
pub proof fn law_leaving_threads_go_home(
    w: ThreadWorker,
    picture: CoordinatorSnapshot,
    tint: Rgb,
    seen: Sighting,
    s: Store,
    writers: int,
)
    requires
        s.seats(w.kind, w.id as int, writers),
    ensures
        ({
            let at = seat(w.kind, w.id as int, writers);
            let home = if w.kind == ThreadKind::Writer {
                120int
            } else {
                860
            };
            &&& w.phase is Turn || w.phase is Thinking || w.phase is Ready ==> {
                let (next, after, task) = w.proceeded(false, seen, s);
                &&& next.phase is Over
                &&& task is Quit
                &&& s.others_alone(after, at)
                &&& after.cells == s.cells
                &&& after.coordinator == s.coordinator
                &&& after.threads[at].target_cell is None
                &&& after.threads[at].count == s.threads[at].count
                &&& after.threads[at].color == s.threads[at].color
                &&& after.sent(at, ThreadStatus::Stopped, home, 120_000_000, seen)
            }
            &&& {
                let (next, after, task) = w.granted(None, tint, seen, s);
                &&& next.phase is Over
                &&& task is Quit
                &&& s.others_alone(after, at)
                &&& after.cells == s.cells
                &&& after.coordinator == s.coordinator
                &&& after.threads[at].target_cell is None
                &&& after.threads[at].count == s.threads[at].count
                &&& after.sent(at, ThreadStatus::Stopped, home, 120_000_000, seen)
            }
            &&& w.phase == ThreadPhase::Releasing(false) ==> {
                let (next, after, task) = w.freed(picture, seen, s);
                &&& next.phase is Over
                &&& task is Quit
                &&& s.others_alone(after, at)
                &&& after.cells == s.cells
                &&& after.coordinator == picture
                &&& after.threads[at].target_cell is None
                &&& after.threads[at].count == s.threads[at].count
                &&& after.sent(at, ThreadStatus::Stopped, home, 120_000_000, seen)
            }
        }),
{
    crate::reader_writer::store::law_threads_are_found(s, writers, w.kind, w.id as int);
    crate::reader_writer::store::law_threads_are_found(
        s.with_picture(picture),
        writers,
        w.kind,
        w.id as int,
    );
}

/// A thread whose use of the store is shown keeps the lock for the time of an
/// access, a hundredth of a second at least; one that has given it back waits
/// for its next turn. Each shows the picture of the lock it is given.
pub proof fn law_uses_are_shown_and_end(
    w: ThreadWorker,
    picture: CoordinatorSnapshot,
    seen: Sighting,
    s: Store,
)
    ensures
        ({
            let (next, after, task) = w.shown(picture, s);
            &&& next.phase is Holding
            &&& next.kind == w.kind
            &&& next.id == w.id
            &&& next.timing == w.timing
            &&& next.color == w.color
            &&& next.data_count == w.data_count
            &&& next.rng == w.rng
            &&& task is Hold
            &&& 100 * w.timing.access.numer >= w.timing.access.denom ==> task->Hold_0
                == w.timing.access
            &&& 100 * w.timing.access.numer < w.timing.access.denom ==> task->Hold_0.numer == 1
                && task->Hold_0.denom == 100
            &&& after.coordinator == picture
            &&& after.cells == s.cells
            &&& after.threads == s.threads
        }),
        w.phase == ThreadPhase::Releasing(true) ==> {
            let (next, after, task) = w.freed(picture, seen, s);
            &&& next.phase is Turn
            &&& next.kind == w.kind
            &&& next.id == w.id
            &&& next.timing == w.timing
            &&& next.data_count == w.data_count
            &&& next.color == w.color
            &&& next.rng == w.rng
            &&& task is AwaitTurn
            &&& after.coordinator == picture
            &&& after.cells == s.cells
            &&& after.threads == s.threads
        },
{
}

/// A writer that gets the lock goes to the store and writes its colour there:
/// into a new cell behind the others while there is room, and else over one.
pub proof fn law_writers_add_or_write_over(
    w: ThreadWorker,
    picture: CoordinatorSnapshot,
    tint: Rgb,
    seen: Sighting,
    s: Store,
    writers: int,
    other: int,
)
    requires
        w.kind == ThreadKind::Writer,
        s.seats(w.kind, w.id as int, writers),
        s.cells.len() <= s.max_cells,
        s.max_cells > 0,
        s.countable(),
    ensures
        ({
            let at = w.id as int;
            let (next, after, task) = w.granted(Some(picture), tint, seen, s);
            let cell = after.threads[at].target_cell;
            &&& next.phase is Using
            &&& next.kind == w.kind
            &&& next.id == w.id
            &&& next.timing == w.timing
            &&& next.color == tint
            &&& next.data_count == after.cells.len()
            &&& task is Publish
            &&& after.coordinator == picture
            &&& s.others_alone(after, at)
            &&& after.threads[at].count == s.threads[at].count
            &&& after.threads[at].color == s.threads[at].color
            &&& after.sent(at, ThreadStatus::Writing, 345, 220_000_000, seen)
            &&& cell is Some
            &&& s.cells.len() < s.max_cells ==> {
                &&& cell->0 == s.cells.len()
                &&& after.cells == s.cells.push(
                    DataCell { color: tint, read_count: 0, write_count: 1 },
                )
                &&& next.rng.state == crate::rng::next_state(w.rng.state)
            }
            &&& s.cells.len() == s.max_cells ==> {
                &&& cell->0 < s.cells.len()
                &&& after.cells.len() == s.cells.len()
                &&& after.cells[cell->0 as int].color == tint
                &&& after.cells[cell->0 as int].write_count == s.cells[cell->0 as int].write_count
                    + 1
                &&& after.cells[cell->0 as int].read_count == s.cells[cell->0 as int].read_count
                &&& 0 <= other < s.cells.len() && other != cell->0 ==> after.cells[other]
                    == s.cells[other]
                &&& s.cells.len() > 1 ==> cell->0 == crate::rng::next_state(w.rng.state) as usize
                    % s.cells.len() as usize && next.rng.state == crate::rng::next_state(
                    crate::rng::next_state(w.rng.state),
                )
            }
        }),
{
    crate::reader_writer::store::law_threads_are_found(s, writers, w.kind, w.id as int);
    let shown = s.with_picture(picture);
    let target = shown.write_target(w.rng);
    law_cells_fill_in_order(shown, w.rng);
    assert(0 <= target <= s.cells.len());
    assert(target < s.cells.len() ==> s.cells[target].write_count < usize::MAX);
}

/// A reader that gets the lock goes to the store and reads one of the cells, by
/// chance, whose colour it remembers; with nothing to read it gives the lock
/// back at once, and stays where it is.
pub proof fn law_readers_read_one_cell(
    w: ThreadWorker,
    picture: CoordinatorSnapshot,
    tint: Rgb,
    seen: Sighting,
    s: Store,
    writers: int,
    other: int,
)
    requires
        w.kind == ThreadKind::Reader,
        s.seats(w.kind, w.id as int, writers),
        s.cells.len() <= usize::MAX,
        s.countable(),
    ensures
        ({
            let at = writers + w.id;
            let (next, after, task) = w.granted(Some(picture), tint, seen, s);
            let cell = after.threads[at].target_cell;
            &&& next.kind == w.kind
            &&& next.id == w.id
            &&& next.timing == w.timing
            &&& next.data_count == w.data_count
            &&& after.coordinator == picture
            &&& after.cells.len() == s.cells.len()
            &&& s.cells.len() == 0 ==> {
                &&& next.phase == ThreadPhase::Releasing(true)
                &&& next.rng == w.rng
                &&& next.color == w.color
                &&& task == ThreadTask::Unlock(w.data_count)
                &&& after.threads == s.threads
            }
            &&& s.cells.len() > 0 ==> {
                &&& next.phase is Using
                &&& task is Publish
                &&& s.others_alone(after, at)
                &&& after.threads[at].count == s.threads[at].count
                &&& after.threads[at].color == s.threads[at].color
                &&& after.sent(at, ThreadStatus::Reading, 640, 220_000_000, seen)
                &&& cell is Some
                &&& cell->0 < s.cells.len()
                &&& next.color == s.cells[cell->0 as int].color
                &&& after.cells[cell->0 as int].read_count == s.cells[cell->0 as int].read_count
                    + 1
                &&& after.cells[cell->0 as int].color == s.cells[cell->0 as int].color
                &&& after.cells[cell->0 as int].write_count == s.cells[cell->0 as int].write_count
                &&& 0 <= other < s.cells.len() && other != cell->0 ==> after.cells[other]
                    == s.cells[other]
                &&& s.cells.len() > 1 ==> {
                    &&& next.rng.state == crate::rng::next_state(w.rng.state)
                    &&& cell->0 == next.rng.state as usize % s.cells.len() as usize
                }
                &&& s.cells.len() == 1 ==> cell->0 == 0 && next.rng == w.rng
            }
        }),
{
    crate::reader_writer::store::law_threads_are_found(s, writers, w.kind, w.id as int);
    let target = w.rng.pick(s.cells.len() as usize);
    if s.cells.len() > 0 {
        assert(0 <= target < s.cells.len());
        assert(s.cells[target].read_count < usize::MAX);
    }
}

/// The place goes with the status: whatever a worker does next, if every thread
/// was bound for the place that goes with what it does, every thread still is.
pub proof fn law_place_goes_with_status(
    w: ThreadWorker,
    running: bool,
    picture: CoordinatorSnapshot,
    tint: Rgb,
    seen: Sighting,
    s: Store,
    i: int,
)
    requires
        s.has(w.kind, w.id as int),
        crate::layout::fits_column(w.id as int),
        0 <= i < s.threads.len(),
        bound_for(s.threads[i]),
    ensures
        bound_for(w.proceeded(running, seen, s).1.threads[i]),
        bound_for(w.granted(Some(picture), tint, seen, s).1.threads[i]),
        bound_for(w.granted(None, tint, seen, s).1.threads[i]),
        bound_for(w.shown(picture, s).1.threads[i]),
        bound_for(w.freed(picture, seen, s).1.threads[i]),
{
}

/// At the start of a run every thread is bound for the place that goes with
/// what it does.
pub proof fn law_threads_start_in_place(kind: ThreadKind, id: int, now: u64)
    requires
        crate::layout::fits_column(id),
        id <= usize::MAX,
    ensures
        bound_for(crate::reader_writer::store::fresh_thread(kind, id, now)),
{
}

/// The cells of the store lie in ten columns, twenty pixels wide and high and
/// two apart: different cells do not touch, and the two hundred that there are
/// lie within the store.
pub proof fn law_cells_keep_apart(i: int, j: int)
    requires
        crate::layout::fits_column(i),
        crate::layout::fits_column(j),
        i < j,
    ensures
        ({
            let a = crate::reader_writer::look::cell_area(i);
            let b = crate::reader_writer::look::cell_area(j);
            &&& a.width == 20 && a.height == 20
            &&& b.corner.y >= a.corner.y + 22 || (b.corner.y == a.corner.y && b.corner.x
                >= a.corner.x + 22)
            &&& 390 <= a.corner.x && a.corner.x + a.width <= 390 + 218
            &&& 160 <= a.corner.y
            &&& i < 200 ==> a.corner.y + a.height <= 160 + 438
            &&& i + 10 == j ==> b.corner.x == a.corner.x && b.corner.y == a.corner.y + 22
        }),
{
}

/// Two threads of a kind have the same colour at first exactly if their numbers
/// differ by whole rounds of nine.
pub proof fn law_nine_colours_take_turns(one: int, other: int, rounds: int, rest: int)
    requires
        0 <= one,
        0 <= other,
        one - other == 9 * rounds + rest,
        0 <= rest < 9,
    ensures
        crate::reader_writer::look::writer_palette_color(one)
            == crate::reader_writer::look::writer_palette_color(other) <==> rest == 0,
        crate::reader_writer::look::reader_palette_color(one)
            == crate::reader_writer::look::reader_palette_color(other) <==> rest == 0,
{
    assert(rest == 0 <==> one % 9 == other % 9);
}

} // verus!
