use sync_demos::color::Rgb;
use sync_demos::layout::Point;
use sync_demos::reader_writer::config::{
    access_duration, random_wait_duration, LockPolicy, ReaderWriterConfig,
};
use sync_demos::reader_writer::coordinator::{CoordinatorSnapshot, LockCoordinator, Wake};
use sync_demos::reader_writer::look::{
    cell_center, cell_rect, data_grid_rect, reader_access_pos, reader_home_pos, reader_wait_pos,
    writer_access_pos, writer_home_pos, writer_wait_pos, Area, Colors,
};
use sync_demos::reader_writer::motion::{Motion, Origin, Progress, Sighting};
use sync_demos::reader_writer::store::{AppState, DataCell, ThreadKind, ThreadStatus};
use sync_demos::reader_writer::worker::{ThreadPhase, ThreadTask, ThreadWorker};
use sync_demos::rng::SmallRng;
use sync_demos::timing::Seconds;

const TINT: Rgb = Rgb { r: 198, g: 62, b: 58 };

const POLICIES: [LockPolicy; 3] =
    [LockPolicy::ReaderPriority, LockPolicy::WriterPriority, LockPolicy::Fair];

fn config(words: &[&str]) -> ReaderWriterConfig {
    let args: Vec<String> = words.iter().map(|w| w.to_string()).collect();
    ReaderWriterConfig::from_args(&args)
}

fn seeded(policy: LockPolicy) -> LockCoordinator {
    let mut c = LockCoordinator::new(policy);
    c.write_wait();
    assert!(c.write_lock(true));
    c.write_unlock(1);
    c.writer_turn = false;
    c
}

fn seen(at: u64) -> Sighting {
    Sighting { at, x: 1, y: 2 }
}

fn picture() -> CoordinatorSnapshot {
    LockCoordinator::new(LockPolicy::Fair).snapshot()
}

#[test]
fn reader_writer_defaults() {
    let c = config(&[]);
    assert_eq!((c.reader_count, c.writer_count), (6, 6));
    assert_eq!((c.policy, c.starved), (LockPolicy::Fair, false));
    assert_eq!(c.title(), "Reader-Writer (Fair priority, 6 readers, 6 writers)");
    assert_eq!(c.summary(), "6 readers, 6 writers, Fair priority");
}

#[test]
fn reader_writer_arguments() {
    let c = config(&["2", "1"]);
    assert_eq!((c.reader_count, c.writer_count, c.policy), (2, 1, LockPolicy::Fair));
    let c = config(&["6", "6", "r"]);
    assert_eq!((c.policy, c.starved), (LockPolicy::ReaderPriority, false));
    let c = config(&["6", "6", "w", "s"]);
    assert_eq!((c.policy, c.starved), (LockPolicy::WriterPriority, true));
    assert_eq!(c.title(), "Reader-Writer (Writer priority, 6 readers, 6 writers)");
    assert_eq!(config(&["6", "6", "R", "S"]).policy, LockPolicy::Fair);
    assert!(!config(&["6", "6", "R", "S"]).starved);
    assert_eq!(config(&["6", "6", "W", "s"]).policy, LockPolicy::Fair);
    assert!(config(&["6", "6", "W", "s"]).starved);
    assert_eq!(config(&["6", "6", "fair", "no"]).policy, LockPolicy::Fair);
    assert!(!config(&["6", "6", "fair", "no"]).starved);
}

#[test]
fn thread_counts_are_clamped() {
    assert_eq!(config(&["0", "10"]).reader_count, 1);
    assert_eq!(config(&["0", "10"]).writer_count, 9);
    assert_eq!(config(&["-1", "x"]).reader_count, 6);
    assert_eq!(config(&["-1", "x"]).writer_count, 6);
    assert_eq!(config(&["99999999999999999999999"]).reader_count, 6);
}

#[test]
fn flags_name_policies() {
    assert_eq!(LockPolicy::from_flag("r"), LockPolicy::ReaderPriority);
    assert_eq!(LockPolicy::from_flag("w"), LockPolicy::WriterPriority);
    for other in ["", "f", "fair", "R", "W", "rr", "reader", "writer", "x"] {
        assert_eq!(LockPolicy::from_flag(other), LockPolicy::Fair);
    }
    assert_eq!(LockPolicy::ReaderPriority.label(), "Reader priority");
    assert_eq!(LockPolicy::WriterPriority.label(), "Writer priority");
    assert_eq!(LockPolicy::Fair.label(), "Fair priority");
}

#[test]
fn the_pace_depends_on_the_settings() {
    let t = config(&["3", "2"]).timing();
    assert_eq!((t.wait_min_tenths, t.wait_range_tenths), (20, 50));
    assert_eq!(t.access, Seconds { numer: 1, denom: 5 });
    let t = config(&["3", "2", "r", "s"]).timing();
    assert_eq!((t.wait_min_tenths, t.wait_range_tenths), (0, 20));
    assert_eq!(t.access, Seconds { numer: 20, denom: 5 });
    for policy in ["w", "f"] {
        let t = config(&["3", "2", policy, "s"]).timing();
        assert_eq!((t.wait_min_tenths, t.wait_range_tenths), (2, 10));
        assert_eq!(t.access, Seconds { numer: 1, denom: 5 });
    }
    let nobody = ReaderWriterConfig {
        reader_count: 0,
        writer_count: 0,
        policy: LockPolicy::Fair,
        starved: false,
    };
    assert_eq!(nobody.timing().access, Seconds { numer: 1, denom: 1 });
}

#[test]
fn waits_and_accesses_have_lengths() {
    let mut t = config(&["3", "2"]).timing();
    let mut rng = SmallRng::seeded(0xC0FFEE00);
    assert_eq!(random_wait_duration(&mut rng, t), 6300);
    for _ in 0..100 {
        let ms = random_wait_duration(&mut rng, t);
        assert!((2000..7000).contains(&ms));
        assert_eq!(ms % 100, 0);
    }
    assert_eq!(access_duration(t), Seconds { numer: 1, denom: 5 });
    t.access = Seconds { numer: 1, denom: 100 };
    assert_eq!(access_duration(t), Seconds { numer: 1, denom: 100 });
    t.access = Seconds { numer: 1, denom: 101 };
    assert_eq!(access_duration(t), Seconds { numer: 1, denom: 100 });
    t.wait_range_tenths = 0;
    assert_eq!(random_wait_duration(&mut rng, t), 2000);
}

#[test]
fn threads_start_one_after_the_other() {
    let c = config(&["2", "3"]);
    assert_eq!(ReaderWriterConfig::writer_delay_ms(0), 0);
    assert_eq!(ReaderWriterConfig::writer_delay_ms(2), 180);
    assert_eq!(c.reader_delay_ms(0), 360);
    assert_eq!(c.reader_delay_ms(1), 450);
}

#[test]
fn readers_wait_for_the_first_write() {
    for policy in POLICIES {
        let mut c = LockCoordinator::new(policy);
        c.read_wait();
        assert!(c.reader_blocked());
        c.write_wait();
        assert!(!c.writer_blocked());
        assert!(c.write_lock(true));
        assert!(c.reader_blocked() && c.writer_blocked());
        c.write_unlock(1);
        assert!(!c.reader_blocked());
    }
}

#[test]
fn readers_share_and_writers_do_not() {
    for policy in POLICIES {
        let mut c = seeded(policy);
        c.read_wait();
        assert!(!c.reader_blocked());
        assert!(c.read_lock(true));
        assert!(c.writer_blocked());
        c.read_wait();
        assert!(!c.reader_blocked());
        assert!(c.read_lock(true));
        assert_eq!(c.snapshot().active_readers, 2);
        assert_eq!(c.read_unlock(), Wake { readers: true, writer: false });
        assert!(c.writer_blocked());
        assert_eq!(c.read_unlock(), Wake { readers: true, writer: true });
        c.write_wait();
        assert!(!c.writer_blocked());
        assert!(c.write_lock(true));
        assert!(c.reader_blocked() && c.writer_blocked());
    }
}

#[test]
fn readers_come_first_under_reader_priority() {
    let mut c = seeded(LockPolicy::ReaderPriority);
    c.read_wait();
    c.write_wait();
    assert!(!c.reader_blocked());
    assert!(c.writer_blocked());
    assert!(c.read_lock(true));
    c.read_unlock();
    assert!(!c.writer_blocked());
    assert!(c.write_lock(true));
    c.read_wait();
    c.write_wait();
    assert_eq!(c.write_unlock(1), Wake { readers: true, writer: false });
    c.waiting_readers = 0;
    assert_eq!(c.write_unlock(1), Wake { readers: false, writer: true });
}

#[test]
fn writers_come_first_under_writer_priority() {
    let mut c = seeded(LockPolicy::WriterPriority);
    c.read_wait();
    c.write_wait();
    assert!(c.reader_blocked());
    assert!(!c.writer_blocked());
    assert!(c.write_lock(true));
    c.write_wait();
    assert_eq!(c.write_unlock(1), Wake { readers: false, writer: true });
    c.waiting_writers = 0;
    assert_eq!(c.write_unlock(1), Wake { readers: true, writer: false });
}

#[test]
fn sides_take_turns_under_the_fair_policy() {
    let mut c = seeded(LockPolicy::Fair);
    for _ in 0..5 {
        c.read_wait();
        c.write_wait();
        assert!(!c.reader_blocked() && c.writer_blocked());
        assert!(c.read_lock(true));
        c.read_wait();
        assert_eq!(c.read_unlock(), Wake { readers: true, writer: true });
        assert!(c.reader_blocked() && !c.writer_blocked());
        assert!(c.write_lock(true));
        assert_eq!(c.write_unlock(1), Wake { readers: true, writer: false });
        assert!(!c.reader_blocked());
        assert!(c.read_lock(true));
        c.read_unlock();
    }
}

#[test]
fn leaving_gives_up_no_lock() {
    for policy in POLICIES {
        let before = seeded(policy);
        let mut c = before;
        c.read_wait();
        assert!(!c.read_lock(false));
        assert_eq!(c, before);
        c.write_wait();
        assert!(!c.write_lock(false));
        assert_eq!(c, before);
    }
}

#[test]
fn somebody_can_always_go_on() {
    for policy in POLICIES {
        for turn in [false, true] {
            for (readers, writers) in [(0, 1), (1, 0), (1, 1), (3, 2)] {
                let mut c = seeded(policy);
                c.writer_turn = turn;
                c.waiting_readers = readers;
                c.waiting_writers = writers;
                assert!((readers > 0 && !c.reader_blocked()) || (writers > 0 && !c.writer_blocked()));
            }
        }
    }
}

#[test]
fn motions_take_their_time() {
    let to = Point { x: 0, y: 250 };
    let m = Motion::departure(Sighting { at: 5_000_000, x: 1, y: 2 }, to, 200_000_000);
    assert_eq!((m.from, m.to, m.started_at), (Origin::Seen(1, 2), to, 5_000_000));
    let whole = 200_000_000;
    for (now, elapsed) in [
        (0, 0),
        (5_000_000, 0),
        (55_000_000, 50_000_000),
        (204_999_999, 199_999_999),
        (205_000_000, whole),
        (u64::MAX, whole),
    ] {
        assert_eq!(m.progress(now), Progress { elapsed, whole });
    }
}

#[test]
fn short_motions_take_a_millisecond() {
    let s = Motion::stationary(Point { x: 3, y: -4 }, 7);
    assert_eq!((s.from, s.to), (Origin::Landmark(Point { x: 3, y: -4 }), Point { x: 3, y: -4 }));
    assert_eq!((s.started_at, s.duration), (7, 1_000_000));
    let m = Motion { duration: 0, ..s };
    assert_eq!(m.progress(250_007), Progress { elapsed: 250_000, whole: 1_000_000 });
    assert_eq!(m.progress(9_000_000), Progress { elapsed: 1_000_000, whole: 1_000_000 });
}

#[test]
fn threads_start_at_home() {
    let app = AppState::new(&config(&["3", "2", "w"]), 5);
    assert_eq!((app.policy, app.max_cells), (LockPolicy::WriterPriority, 200));
    assert!(app.cells.is_empty());
    assert_eq!(app.threads.len(), 5);
    assert_eq!((app.threads[1].kind, app.threads[1].id), (ThreadKind::Writer, 1));
    assert_eq!((app.threads[4].kind, app.threads[4].id), (ThreadKind::Reader, 2));
    assert_eq!(app.threads[1].color, Colors::writer_palette(1));
    assert_eq!(app.threads[4].color, Colors::reader_palette(2));
    assert_eq!(app.threads[4].status, ThreadStatus::Thinking);
    assert_eq!(app.threads[4].motion, Motion::stationary(reader_home_pos(2), 5));
    assert_eq!(app.coordinator, picture());
    for id in 0..2 {
        assert_eq!(app.thread_index(ThreadKind::Writer, id), id);
    }
    for id in 0..3 {
        assert_eq!(app.thread_index(ThreadKind::Reader, id), 2 + id);
    }
}

#[test]
fn threads_are_sent_from_where_they_are() {
    let mut app = AppState::new(&config(&["1", "1"]), 0);
    app.set_thread_motion(ThreadKind::Reader, 0, ThreadStatus::Reading, Some(3),
        reader_access_pos(0), 220_000_000, Sighting { at: 111, x: 70, y: 80 });
    let t = app.threads[1];
    assert_eq!(t.motion, Motion {
        from: Origin::Seen(70, 80),
        to: Point { x: 640, y: 220 },
        started_at: 111,
        duration: 220_000_000,
    });
    assert_eq!((t.status, t.target_cell, t.count), (ThreadStatus::Reading, Some(3), 0));
    let red = Rgb { r: 255, g: 0, b: 0 };
    app.finish_access(ThreadKind::Reader, 0, red, reader_home_pos(0), ThreadStatus::Thinking, seen(500));
    let t = app.threads[1];
    assert_eq!((t.count, t.color, t.status, t.target_cell), (1, red, ThreadStatus::Thinking, None));
    assert_eq!((t.motion.from, t.motion.started_at), (Origin::Seen(1, 2), 500));
    assert_eq!((t.motion.to, t.motion.duration), (Point { x: 860, y: 220 }, 220_000_000));
    assert_eq!(app.threads[0].count, 0);
}

#[test]
fn cells_are_added_and_written_over() {
    let mut app = AppState::new(&config(&["1", "1"]), 0);
    app.max_cells = 2;
    let mut rng = SmallRng::seeded(1);
    let a = Rgb { r: 1, g: 1, b: 1 };
    let b = Rgb { r: 2, g: 2, b: 2 };
    for expected in 0..2 {
        let target = app.choose_write_cell(&mut rng);
        assert_eq!(target, expected);
        app.write_cell(target, a);
    }
    assert_eq!(rng.state, 1);
    let target = app.choose_write_cell(&mut rng);
    assert_eq!(target, 1082269761 % 2);
    assert_eq!(rng.state, 1082269761);
    app.write_cell(target, b);
    assert_eq!(app.cells[target], DataCell { color: b, read_count: 0, write_count: 2 });
    assert_eq!(app.cells.len(), 2);
    app.write_cell(7, b);
    assert_eq!(app.cells.len(), 2);
    assert_eq!(app.read_cell(target), b);
    assert_eq!(app.cells[target], DataCell { color: b, read_count: 1, write_count: 2 });
    assert_eq!(app.store_line(), "Shared Data Store  2/2");
    assert_eq!(app.cell_color(target), b);
    assert_eq!(app.cell_color(5), Rgb { r: 240, g: 240, b: 240 });
}

#[test]
fn a_writer_and_a_reader_use_the_store() {
    let settings = config(&["1", "1"]);
    let mut app = AppState::new(&settings, 0);
    let mut lock = LockCoordinator::new(settings.policy);
    let mut w = ThreadWorker::new(ThreadKind::Writer, 0, settings.timing());
    assert_eq!(w.proceed(true, seen(10), &mut app), ThreadTask::Sleep(6300));
    assert_eq!(w.proceed(true, seen(20), &mut app), ThreadTask::AwaitTurn);
    assert_eq!(w.proceed(true, seen(30), &mut app), ThreadTask::Lock);
    assert_eq!(app.threads[0].status, ThreadStatus::Waiting);
    lock.write_wait();
    assert!(lock.write_lock(true));
    let shade = w.shade(&app);
    assert_eq!(shade.color, Colors::writer_palette(0));
    assert_eq!((shade.least, shade.draw), (70, 18262102329373002174));
    assert_eq!(w.locked(Some(lock.snapshot()), TINT, seen(40), &mut app), ThreadTask::Publish);
    let color = TINT;
    assert_eq!(app.cells[0], DataCell { color, read_count: 0, write_count: 1 });
    assert_eq!((app.threads[0].status, app.threads[0].target_cell), (ThreadStatus::Writing, Some(0)));
    assert_eq!(app.coordinator.active_writers, 1);
    assert_eq!(w.published(lock.snapshot(), &mut app), ThreadTask::Hold(Seconds { numer: 1, denom: 2 }));
    assert_eq!(w.proceed(true, seen(50), &mut app), ThreadTask::Unlock(1));
    assert_eq!((app.threads[0].count, app.threads[0].color), (1, color));
    lock.write_unlock(1);
    assert_eq!(w.released(lock.snapshot(), seen(60), &mut app), ThreadTask::AwaitTurn);
    assert_eq!(w.phase, ThreadPhase::Turn);
    assert_eq!(app.coordinator.data_count, 1);

    let mut r = ThreadWorker::new(ThreadKind::Reader, 0, settings.timing());
    assert_eq!(r.proceed(true, seen(70), &mut app), ThreadTask::Sleep(4600));
    r.proceed(true, seen(80), &mut app);
    assert_eq!(r.proceed(true, seen(90), &mut app), ThreadTask::Lock);
    lock.read_wait();
    assert!(!lock.reader_blocked());
    assert!(lock.read_lock(true));
    assert_eq!(r.locked(Some(lock.snapshot()), TINT, seen(100), &mut app), ThreadTask::Publish);
    assert_eq!(app.cells[0], DataCell { color, read_count: 1, write_count: 1 });
    assert_eq!((app.threads[1].status, app.threads[1].target_cell), (ThreadStatus::Reading, Some(0)));
    r.published(lock.snapshot(), &mut app);
    assert_eq!(r.proceed(true, seen(110), &mut app), ThreadTask::Unlock(0));
    assert_eq!(app.threads[1].color, color);
}

#[test]
fn a_reader_of_nothing_gives_the_lock_back() {
    let settings = config(&["1", "1"]);
    let mut app = AppState::new(&settings, 0);
    let mut r = ThreadWorker::new(ThreadKind::Reader, 0, settings.timing());
    r.proceed(true, seen(1), &mut app);
    r.proceed(true, seen(2), &mut app);
    r.proceed(true, seen(3), &mut app);
    assert_eq!(r.locked(Some(picture()), TINT, seen(4), &mut app), ThreadTask::Unlock(0));
    assert_eq!(r.released(picture(), seen(5), &mut app), ThreadTask::AwaitTurn);
}

#[test]
fn threads_stop_when_the_run_is_over() {
    let settings = config(&["1", "1"]);
    let mut app = AppState::new(&settings, 0);
    for early in 0..4 {
        let mut w = ThreadWorker::new(ThreadKind::Writer, 0, settings.timing());
        for now in 0..early.min(3) {
            w.proceed(true, seen(now), &mut app);
        }
        if early == 3 {
            assert_eq!(w.locked(None, TINT, seen(9), &mut app), ThreadTask::Quit);
        } else {
            assert_eq!(w.proceed(false, seen(9), &mut app), ThreadTask::Quit);
        }
        assert_eq!(w.phase, ThreadPhase::Over);
        assert_eq!(app.threads[0].status, ThreadStatus::Stopped);
        assert_eq!(app.threads[0].motion.duration, 120_000_000);
        assert_eq!(app.threads[0].motion.to, writer_home_pos(0));
    }
    let mut w = ThreadWorker::new(ThreadKind::Writer, 0, settings.timing());
    for now in 0..3 {
        w.proceed(true, seen(now), &mut app);
    }
    w.locked(Some(picture()), TINT, seen(4), &mut app);
    w.published(picture(), &mut app);
    assert_eq!(w.proceed(false, seen(5), &mut app), ThreadTask::Unlock(1));
    assert_eq!(app.threads[0].count, 0);
    assert_eq!(w.released(picture(), seen(6), &mut app), ThreadTask::Quit);
    assert_eq!(app.threads[0].status, ThreadStatus::Stopped);
}

#[test]
fn many_threads_exclude_each_other() {
    for policy in POLICIES {
        let settings = ReaderWriterConfig { reader_count: 3, writer_count: 2, policy, starved: true };
        let mut app = AppState::new(&settings, 0);
        let mut lock = LockCoordinator::new(policy);
        let mut workers: Vec<(ThreadWorker, ThreadTask, bool)> = Vec::new();
        for id in 0..2 {
            let w = ThreadWorker::new(ThreadKind::Writer, id, settings.timing());
            workers.push((w, ThreadTask::AwaitTurn, false));
        }
        for id in 0..3 {
            let w = ThreadWorker::new(ThreadKind::Reader, id, settings.timing());
            workers.push((w, ThreadTask::AwaitTurn, false));
        }
        let mut rng = SmallRng::seeded(31);
        let mut grants = [0_usize; 5];
        let mut frees = [0_usize; 5];
        let mut accesses = [0_usize; 5];
        for now in 0..5000_u64 {
            let running = now < 4000;
            let before: Vec<DataCell> = app.cells.clone();
            let i = rng.next_usize(5);
            let (w, task, waiting) = &mut workers[i];
            *task = match *task {
                ThreadTask::AwaitTurn | ThreadTask::Sleep(_) => w.proceed(running, seen(now), &mut app),
                ThreadTask::Hold(_) => {
                    accesses[i] += running as usize;
                    w.proceed(running, seen(now), &mut app)
                }
                ThreadTask::Lock => {
                    let reads = w.kind == ThreadKind::Reader;
                    if !*waiting {
                        if reads { lock.read_wait() } else { lock.write_wait() }
                        *waiting = true;
                    }
                    if running && if reads { lock.reader_blocked() } else { lock.writer_blocked() } {
                        continue;
                    }
                    let locked = if reads { lock.read_lock(running) } else { lock.write_lock(running) };
                    *waiting = false;
                    grants[i] += locked as usize;
                    let task = w.locked(locked.then_some(lock.snapshot()), TINT, seen(now), &mut app);
                    if locked {
                        let changed = (0..before.len()).filter(|k| before[*k] != app.cells[*k]).count();
                        assert_eq!(changed + app.cells.len() - before.len(), 1);
                    }
                    task
                }
                ThreadTask::Publish => w.published(lock.snapshot(), &mut app),
                ThreadTask::Unlock(count) => {
                    if w.kind == ThreadKind::Reader {
                        lock.read_unlock();
                    } else {
                        assert_eq!(count, app.cells.len());
                        lock.write_unlock(count);
                    }
                    frees[i] += 1;
                    w.released(lock.snapshot(), seen(now), &mut app)
                }
                ThreadTask::Quit => ThreadTask::Quit,
            };
            assert!(app.cells.len() >= before.len());
            let holds = |w: &ThreadWorker| {
                matches!(w.phase, ThreadPhase::Using | ThreadPhase::Holding | ThreadPhase::Releasing(_))
            };
            let writers = workers.iter().filter(|(w, _, _)| w.kind == ThreadKind::Writer && holds(w)).count();
            let readers = workers.iter().filter(|(w, _, _)| w.kind == ThreadKind::Reader && holds(w)).count();
            assert!(writers == 0 || (writers == 1 && readers == 0));
            assert_eq!((lock.active_writers, lock.active_readers), (writers, readers));
            assert!(lock.data_count <= app.cells.len() && app.cells.len() <= 200);
        }
        for i in 0..5 {
            assert_eq!(grants[i], frees[i]);
            assert!(grants[i] - accesses[i] <= 1);
            assert_eq!(app.threads[i].count, accesses[i]);
            assert_eq!(app.threads[i].status, ThreadStatus::Stopped);
            assert_eq!(app.threads[i].target_cell, None);
        }
        assert!(accesses.iter().sum::<usize>() > 0);
    }
}

#[test]
fn threads_have_words_colours_and_places() {
    assert_eq!(ThreadKind::Reader.label(), "Reader");
    assert_eq!(ThreadKind::Writer.label(), "Writer");
    for (status, label, color) in [
        (ThreadStatus::Thinking, "Thinking", Rgb { r: 107, g: 114, b: 128 }),
        (ThreadStatus::Waiting, "Waiting", Rgb { r: 234, g: 88, b: 12 }),
        (ThreadStatus::Reading, "Reading", Rgb { r: 37, g: 99, b: 235 }),
        (ThreadStatus::Writing, "Writing", Rgb { r: 220, g: 38, b: 38 }),
        (ThreadStatus::Stopped, "Stopped", Rgb { r: 80, g: 80, b: 80 }),
    ] {
        assert_eq!(status.label(), label);
        assert_eq!(status.color(), color);
    }
    let app = AppState::new(&config(&["1", "1"]), 0);
    assert_eq!((app.threads[0].name(), app.threads[0].name_offset()), ("Writer 1".to_string(), -70));
    assert_eq!((app.threads[1].name(), app.threads[1].name_offset()), ("Reader 1".to_string(), 70));
    assert_eq!(app.threads[0].arrow_color(), Rgb { r: 30, g: 30, b: 30 });
    assert_eq!(app.threads[1].arrow_color(), Rgb { r: 50, g: 50, b: 50 });
    assert_eq!(writer_home_pos(0), Point { x: 120, y: 220 });
    assert_eq!(writer_wait_pos(1), Point { x: 270, y: 274 });
    assert_eq!(writer_access_pos(2), Point { x: 345, y: 328 });
    assert_eq!(reader_home_pos(8), Point { x: 860, y: 652 });
    assert_eq!(reader_wait_pos(0), Point { x: 710, y: 220 });
    assert_eq!(reader_access_pos(0), Point { x: 640, y: 220 });
    assert_eq!(Colors::writer_palette(0), Rgb { r: 199, g: 62, b: 58 });
    assert_eq!(Colors::writer_palette(17), Rgb { r: 38, g: 156, b: 156 });
    assert_eq!(Colors::reader_palette(0), Rgb { r: 63, g: 133, b: 191 });
    assert_eq!(Colors::reader_palette(10), Rgb { r: 84, g: 171, b: 138 });
}

#[test]
fn cells_lie_on_a_grid() {
    assert_eq!(cell_rect(0), Area { corner: Point { x: 390, y: 160 }, width: 20, height: 20 });
    assert_eq!(cell_rect(9).corner, Point { x: 588, y: 160 });
    assert_eq!(cell_rect(10).corner, Point { x: 390, y: 182 });
    assert_eq!(cell_rect(199).corner, Point { x: 588, y: 578 });
    assert_eq!(cell_center(11), Point { x: 422, y: 192 });
    assert_eq!(data_grid_rect(), Area { corner: Point { x: 390, y: 160 }, width: 218, height: 438 });
}

#[test]
fn the_lock_is_shown() {
    let mut c = seeded(LockPolicy::Fair);
    c.read_wait();
    c.read_lock(true);
    c.write_wait();
    c.data_count = 12;
    let s = c.snapshot();
    assert_eq!(s.line(), "Cells: 12   Active readers: 1   Active writers: 0   Waiting readers: 0   Waiting writers: 1");
    assert_eq!(s.border_color(), Rgb { r: 0, g: 0, b: 0 });
    assert_eq!(s.reader_badge(), Some((1, Rgb { r: 22, g: 163, b: 74 })));
    c.read_unlock();
    c.write_lock(true);
    assert_eq!(c.snapshot().border_color(), Rgb { r: 220, g: 38, b: 38 });
    assert_eq!(c.snapshot().reader_badge(), None);
}
