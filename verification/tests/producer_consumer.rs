use sync_demos::color::Rgb;
use sync_demos::producer_consumer::board::{
    ActorKind, ActorState, AppState, ItemPosition, Place, QueueStats,
};
use sync_demos::producer_consumer::config::{ProducerConsumerConfig, CAPACITY, MAX_ACTORS};
use sync_demos::producer_consumer::look::{
    consumer_center, consumer_item_target, producer_center, producer_item_origin, slot_label,
    Colors,
};
use sync_demos::producer_consumer::queue::{BoundedQueue, Call, QueueItem, QueueWake};
use sync_demos::producer_consumer::worker::{
    random_wait_duration, step_ms, ActorPhase, ActorTask, ConsumerWorker, ProducerWorker,
};
use sync_demos::layout::Point;
use sync_demos::rng::SmallRng;

const WHITE: Rgb = Rgb { r: 255, g: 255, b: 255 };
const BLACK: Rgb = Rgb { r: 0, g: 0, b: 0 };
const TINT: Rgb = Rgb { r: 166, g: 50, b: 48 };

fn config(words: &[&str]) -> (usize, usize) {
    let args: Vec<String> = words.iter().map(|w| w.to_string()).collect();
    let c = ProducerConsumerConfig::from_args(&args);
    (c.producer_count, c.consumer_count)
}

fn item(id: u64) -> QueueItem {
    QueueItem { id, color: WHITE, producer_id: 0 }
}

fn put(q: &mut BoundedQueue, id: u64) -> usize {
    q.producer_wait();
    assert!(!q.producer_blocked());
    let (slot, _) = q.producer_begin(true).unwrap();
    q.producer_commit(slot, item(id));
    slot
}

fn take(q: &mut BoundedQueue) -> (usize, u64) {
    q.consumer_wait();
    assert!(!q.consumer_blocked());
    let (slot, item, _) = q.consumer_begin(true).unwrap();
    q.consumer_commit();
    (slot, item.id)
}

#[test]
fn actor_counts_by_arguments() {
    assert_eq!(config(&[]), (5, 5));
    assert_eq!(config(&["2", "1"]), (2, 1));
    assert_eq!(config(&["5", "5"]), (5, 5));
    assert_eq!(config(&["3"]), (3, 5));
    assert_eq!(config(&["8", "8"]), (8, 8));
}

#[test]
fn bad_actor_counts_mean_eight() {
    for words in [
        ["0", "3"],
        ["3", "0"],
        ["-1", "3"],
        ["3", "-1"],
        ["9", "3"],
        ["3", "9"],
        ["many", "3"],
        ["3", "99999999999"],
        ["99999999999", "3"],
    ] {
        assert_eq!(config(&words), (MAX_ACTORS, MAX_ACTORS), "{words:?}");
    }
    assert_eq!(config(&["3", "many"]), (3, 5));
}

#[test]
fn actors_start_one_after_the_other() {
    let c = ProducerConsumerConfig { producer_count: 3, consumer_count: 2 };
    assert_eq!(ProducerConsumerConfig::producer_delay_ms(0), 0);
    assert_eq!(ProducerConsumerConfig::producer_delay_ms(2), 220);
    assert_eq!(c.consumer_delay_ms(0), 440);
    assert_eq!(c.consumer_delay_ms(1), 550);
    assert_eq!(c.title(), "Producer-Consumer (3 producers, 2 consumers)");
    assert_eq!(c.summary(), "3 producers  \u{00b7}  2 consumers");
}

#[test]
fn items_leave_in_the_order_they_came() {
    let mut q = BoundedQueue::new(3);
    let mut next_out = 0;
    let mut next_in = 0;
    for round in 0..40 {
        if round % 5 != 4 && !q.producer_blocked() {
            assert_eq!(put(&mut q, next_in), next_in as usize % 3);
            next_in += 1;
        } else if !q.consumer_blocked() {
            assert_eq!(take(&mut q), (next_out as usize % 3, next_out));
            next_out += 1;
        }
        assert_eq!(q.count as u64, next_in - next_out);
    }
    while !q.consumer_blocked() {
        assert_eq!(take(&mut q).1, next_out);
        next_out += 1;
    }
    assert_eq!(next_in, next_out);
    assert!(next_in > 3);
}

#[test]
fn a_full_buffer_blocks_producers() {
    let mut q = BoundedQueue::new(CAPACITY);
    assert!(q.consumer_blocked());
    for id in 0..8 {
        put(&mut q, id);
    }
    assert!(q.producer_blocked());
    assert!(!q.consumer_blocked());
    take(&mut q);
    assert!(!q.producer_blocked());
}

#[test]
fn a_buffer_has_one_holder() {
    let mut q = BoundedQueue::new(4);
    put(&mut q, 1);
    q.producer_wait();
    let (slot, picture) = q.producer_begin(true).unwrap();
    assert_eq!((slot, picture.count, picture.waiting_producers), (1, 1, 0));
    assert!(q.producer_blocked() && q.consumer_blocked());
    q.consumer_wait();
    q.producer_wait();
    assert_eq!(q.last, slot);
    let picture = q.producer_commit(slot, item(2));
    assert_eq!((picture.count, picture.waiting_producers, picture.waiting_consumers), (2, 1, 1));
    assert_eq!(picture.slots[1], Some(item(2)));
    let (slot, taken, picture) = q.consumer_begin(true).unwrap();
    assert_eq!((slot, taken.id, picture.count), (0, 1, 1));
    assert_eq!(picture.slots[0], None);
    assert!(q.producer_blocked() && q.consumer_blocked());
    q.consumer_commit();
    assert!(!q.producer_blocked() && !q.consumer_blocked());
}

#[test]
fn the_waiting_leave_when_the_run_is_over() {
    let mut q = BoundedQueue::new(2);
    q.producer_wait();
    q.consumer_wait();
    assert_eq!((q.waiting_producers, q.waiting_consumers), (1, 1));
    assert!(q.producer_begin(false).is_none());
    assert!(q.consumer_begin(false).is_none());
    assert_eq!((q.waiting_producers, q.waiting_consumers), (0, 0));
    assert!(!q.producer_blocked());
}

#[test]
fn the_board_starts_with_everybody_waiting() {
    let app = AppState::new(&ProducerConsumerConfig { producer_count: 2, consumer_count: 3 });
    assert_eq!(app.queue_slots.len(), 8);
    assert_eq!((app.producers.len(), app.consumers.len()), (2, 3));
    for (id, actor) in app.consumers.iter().enumerate() {
        assert_eq!(actor.kind, ActorKind::Consumer);
        assert_eq!((actor.id, actor.count), (id, 0));
        assert_eq!((actor.state, actor.color), (ActorState::Waiting, BLACK));
    }
    assert!(app.moving_items.is_empty());
}

#[test]
fn the_board_keeps_track() {
    let mut app = AppState::new(&ProducerConsumerConfig { producer_count: 2, consumer_count: 3 });
    app.set_actor(ActorKind::Producer, 1, ActorState::HoldingLock, WHITE);
    assert_eq!(app.producers[1].state, ActorState::HoldingLock);
    app.increment_actor_count(ActorKind::Consumer, 2, WHITE);
    assert_eq!((app.consumers[2].count, app.consumers[2].state), (1, ActorState::ActiveColor));
    app.actor_mut(ActorKind::Producer, 0).count = 9;
    assert_eq!(app.producers[0].count, 9);
    assert_eq!(app.producers[1].count, 0);

    let mut q = BoundedQueue::new(8);
    put(&mut q, 5);
    q.consumer_wait();
    app.set_queue_snapshot(&q.snapshot());
    assert_eq!(app.queue_slots[0].item, Some(item(5)));
    assert_eq!((app.queue_stats.count, app.queue_stats.waiting_consumers), (1, 1));

    let here = ItemPosition::at(Place::Producer(0));
    let there = ItemPosition { from: Place::Producer(0), to: Place::Slot(3), step: 4 };
    for id in [1, 2, 2, 3] {
        app.add_moving_item(id, WHITE, here);
    }
    app.move_item(2, there);
    assert_eq!(app.moving_items[1].position, there);
    assert_eq!(app.moving_items[2].position, here);
    app.move_item(77, there);
    app.remove_moving_item(2);
    let ids: Vec<u64> = app.moving_items.iter().map(|m| m.id).collect();
    assert_eq!(ids, vec![1, 3]);
}

#[test]
fn waits_are_drawn() {
    let mut rng = SmallRng::seeded(0xBEEF1000);
    assert_eq!(random_wait_duration(&mut rng), 1761);
    for _ in 0..100 {
        let ms = random_wait_duration(&mut rng);
        assert!((600..2400).contains(&ms));
    }
    assert_eq!(step_ms(700), 35);
    assert_eq!(step_ms(19), 1);
    assert_eq!(step_ms(0), 1);
}

#[test]
fn an_item_travels_through_the_buffer() {
    let mut app = AppState::new(&ProducerConsumerConfig { producer_count: 1, consumer_count: 1 });
    let mut q = BoundedQueue::new(CAPACITY);
    let mut p = ProducerWorker::new(0);

    let shade = p.shade();
    assert_eq!(shade.color, Colors::producer_palette(0));
    assert_eq!((shade.least, shade.draw), (75, 4525851616443219009));
    assert_eq!(p.proceed(true, TINT, &mut app), ActorTask::Sleep(1361));
    let color = TINT;
    assert_eq!(p.item, QueueItem { id: 0, color, producer_id: 0 });
    assert_eq!((app.producers[0].state, app.producers[0].color), (ActorState::ActiveColor, color));

    assert_eq!(p.proceed(true, TINT, &mut app), ActorTask::Begin);
    assert_eq!((app.producers[0].state, app.producers[0].color), (ActorState::Waiting, BLACK));
    assert_eq!(app.moving_items.len(), 1);

    q.producer_wait();
    let grant = q.producer_begin(true);
    assert_eq!(p.slot_given(grant, &mut app), ActorTask::AwaitTurn);
    assert_eq!((app.producers[0].state, app.producers[0].color), (ActorState::HoldingLock, WHITE));
    for step in 0..20 {
        assert_eq!(p.proceed(true, TINT, &mut app), ActorTask::Sleep(35));
        let at = app.moving_items[0].position;
        assert_eq!(at, ItemPosition { from: Place::Producer(0), to: Place::Slot(0), step });
        assert_eq!(p.proceed(true, TINT, &mut app), ActorTask::AwaitTurn);
    }
    let task = p.proceed(true, TINT, &mut app);
    assert_eq!(task, ActorTask::Put(0, p.item));
    let picture = q.producer_commit(0, p.item);
    assert_eq!(p.committed(&picture, &mut app), ActorTask::AwaitTurn);
    assert_eq!(p.phase, ActorPhase::Turn);
    assert!(app.moving_items.is_empty());
    assert_eq!((app.producers[0].count, app.producers[0].color), (1, WHITE));
    assert_eq!(app.queue_stats.count, 1);
    assert_eq!(p.item_seq, 1);

    let mut c = ConsumerWorker::new(0);
    assert_eq!(c.proceed(true, &mut app), ActorTask::Sleep(1761));
    assert_eq!(c.proceed(true, &mut app), ActorTask::Begin);
    assert_eq!(app.consumers[0].state, ActorState::Waiting);
    q.consumer_wait();
    let grant = q.consumer_begin(true);
    assert_eq!(c.item_given(grant, &mut app), ActorTask::AwaitTurn);
    assert_eq!(c.item.color, color);
    assert_eq!(app.moving_items[0].position, ItemPosition::at(Place::Slot(0)));
    assert_eq!(app.queue_stats.count, 0);
    for _ in 0..20 {
        assert_eq!(c.proceed(true, &mut app), ActorTask::Sleep(35));
        assert_eq!(c.proceed(true, &mut app), ActorTask::AwaitTurn);
    }
    assert_eq!(c.proceed(true, &mut app), ActorTask::Unlock);
    let picture = q.consumer_commit();
    assert_eq!(c.committed(&picture, &mut app), ActorTask::AwaitTurn);
    assert_eq!((app.consumers[0].count, app.consumers[0].color), (1, color));
    assert!(app.moving_items.is_empty());
}

#[test]
fn actors_stop_when_the_run_is_over() {
    let gray = Rgb { r: 90, g: 90, b: 90 };
    let mut app = AppState::new(&ProducerConsumerConfig { producer_count: 2, consumer_count: 1 });
    let mut q = BoundedQueue::new(CAPACITY);
    let mut p = ProducerWorker::new(1);
    assert_eq!(p.proceed(false, TINT, &mut app), ActorTask::Quit);
    assert_eq!((app.producers[1].state, app.producers[1].color), (ActorState::Stopped, gray));
    assert_eq!(p.phase, ActorPhase::Over);

    let mut p = ProducerWorker::new(1);
    p.proceed(true, TINT, &mut app);
    p.proceed(true, TINT, &mut app);
    assert_eq!(p.slot_given(None, &mut app), ActorTask::Quit);
    assert!(app.moving_items.is_empty());

    let mut p = ProducerWorker::new(1);
    p.proceed(true, TINT, &mut app);
    p.proceed(true, TINT, &mut app);
    q.producer_wait();
    p.slot_given(q.producer_begin(true), &mut app);
    assert_eq!(app.moving_items.len(), 1);
    assert_eq!(p.proceed(false, TINT, &mut app), ActorTask::Abandon);
    assert!(app.moving_items.is_empty());

    let mut c = ConsumerWorker::new(0);
    c.proceed(true, &mut app);
    assert_eq!(c.proceed(false, &mut app), ActorTask::Quit);
    assert_eq!(app.consumers[0].state, ActorState::Stopped);
}

#[test]
fn items_are_told_apart() {
    let mut app = AppState::new(&ProducerConsumerConfig { producer_count: 3, consumer_count: 1 });
    let mut p = ProducerWorker::new(2);
    p.proceed(true, TINT, &mut app);
    assert_eq!(p.item.id, 2 << 32);
    p.phase = ActorPhase::Turn;
    p.proceed(true, TINT, &mut app);
    assert_eq!(p.item.id, (2 << 32) | 1);
}

#[test]
fn actors_have_words_colours_and_places() {
    let mut app = AppState::new(&ProducerConsumerConfig { producer_count: 2, consumer_count: 3 });
    assert_eq!(app.producers[1].name(), "Producer 2");
    assert_eq!(app.consumers[0].name(), "Consumer 1");
    assert_eq!(ActorKind::Consumer.label(), "Consumer");
    assert_eq!(ActorKind::Producer.active_label(), "Producing");
    assert_eq!(ActorState::ActiveColor.label(ActorKind::Consumer), "Consuming");
    assert_eq!(ActorState::Waiting.label(ActorKind::Consumer), "Waiting for lock");
    assert_eq!(ActorState::HoldingLock.label(ActorKind::Consumer), "Holding lock");
    assert_eq!(ActorState::Stopped.label(ActorKind::Consumer), "Stopped");
    let orange = Rgb { r: 234, g: 88, b: 12 };
    let blue = Rgb { r: 37, g: 99, b: 235 };
    assert_eq!(ActorState::Waiting.text_color(), orange);
    assert_eq!(ActorState::HoldingLock.text_color(), blue);
    assert_eq!(ActorState::Stopped.text_color(), Rgb { r: 75, g: 85, b: 99 });
    assert_eq!(app.producers[0].colors(), (orange, orange));
    app.set_actor(ActorKind::Producer, 0, ActorState::HoldingLock, WHITE);
    assert_eq!(app.producers[0].colors(), (blue, blue));
    app.set_actor(ActorKind::Producer, 0, ActorState::ActiveColor, WHITE);
    assert_eq!(app.producers[0].colors(), (WHITE, WHITE));
    app.set_actor(ActorKind::Producer, 0, ActorState::Stopped, WHITE);
    assert_eq!(app.producers[0].colors(),
        (Rgb { r: 60, g: 60, b: 75 }, Rgb { r: 222, g: 226, b: 230 }));
    assert_eq!((app.producers[0].name_offset(), app.consumers[0].name_offset()), (-46, 50));
    assert_eq!(app.producers[1].center(), producer_center(1));
    assert_eq!(app.consumers[2].center(), consumer_center(2));
    assert_eq!(producer_center(2), Point { x: 150, y: 230 });
    assert_eq!(producer_item_origin(2), Point { x: 202, y: 230 });
    assert_eq!(consumer_center(0), Point { x: 830, y: 110 });
    assert_eq!(consumer_item_target(1), Point { x: 776, y: 170 });
    assert_eq!(Colors::producer_palette(0), Rgb { r: 205, g: 62, b: 59 });
    assert_eq!(Colors::producer_palette(7), Rgb { r: 47, g: 170, b: 161 });
    assert_eq!(Colors::consumer_palette(9), Colors::producer_palette(1));
    assert_eq!(slot_label(7), "8");
}

#[test]
fn the_fill_bar_shows_the_count() {
    let stats = |count| QueueStats { count, waiting_producers: 1, waiting_consumers: 2 };
    assert_eq!(stats(3).line(), "Queue: 3   Waiting producers: 1   Waiting consumers: 2");
    assert_eq!(stats(3).fill_caption(), "Buffer fill: 3/8");
    assert_eq!(stats(0).fill_bar(), None);
    let blue = Rgb { r: 37, g: 99, b: 235 };
    let orange = Rgb { r: 234, g: 88, b: 12 };
    assert_eq!(stats(1).fill_bar(), Some((40, blue)));
    assert_eq!(stats(6).fill_bar(), Some((240, blue)));
    assert_eq!(stats(7).fill_bar(), Some((280, orange)));
    assert_eq!(stats(8).fill_bar(), Some((320, orange)));
    assert_eq!(stats(20).fill_bar(), Some((800, orange)));
}

#[test]
fn runs_keep_their_record() {
    let settings = ProducerConsumerConfig { producer_count: 3, consumer_count: 2 };
    let mut app = AppState::new(&settings);
    let mut q = BoundedQueue::new(CAPACITY);
    let mut producers: Vec<(ProducerWorker, ActorTask, bool)> =
        (0..3).map(|id| (ProducerWorker::new(id), ActorTask::AwaitTurn, false)).collect();
    let mut consumers: Vec<(ConsumerWorker, ActorTask, bool)> =
        (0..2).map(|id| (ConsumerWorker::new(id), ActorTask::AwaitTurn, false)).collect();
    let mut rng = SmallRng::seeded(12345);
    let mut put: Vec<QueueItem> = Vec::new();
    let mut taken: Vec<QueueItem> = Vec::new();
    let mut made = [0_usize; 3];
    let mut used = [0_usize; 2];
    for round in 0..9000 {
        let running = round < 8000;
        let i = rng.next_usize(5);
        if i < 3 {
            let (w, task, waiting) = &mut producers[i];
            *task = match *task {
                ActorTask::AwaitTurn | ActorTask::Sleep(_) => w.proceed(running, TINT, &mut app),
                ActorTask::Begin => {
                    if !*waiting {
                        q.producer_wait();
                        *waiting = true;
                    }
                    if running && q.producer_blocked() {
                        continue;
                    }
                    *waiting = false;
                    w.slot_given(q.producer_begin(running), &mut app)
                }
                ActorTask::Put(slot, item) => {
                    put.push(item);
                    made[i] += 1;
                    w.committed(&q.producer_commit(slot, item), &mut app)
                }
                done => done,
            };
        } else {
            let (w, task, waiting) = &mut consumers[i - 3];
            *task = match *task {
                ActorTask::AwaitTurn | ActorTask::Sleep(_) => w.proceed(running, &mut app),
                ActorTask::Begin => {
                    if !*waiting {
                        q.consumer_wait();
                        *waiting = true;
                    }
                    if running && q.consumer_blocked() {
                        continue;
                    }
                    *waiting = false;
                    let grant = q.consumer_begin(running);
                    if let Some((_, item, _)) = &grant {
                        taken.push(*item);
                    }
                    w.item_given(grant, &mut app)
                }
                ActorTask::Unlock => {
                    used[i - 3] += 1;
                    let task = w.committed(&q.consumer_commit(), &mut app);
                    assert_eq!(app.consumers[i - 3].color, w.item.color);
                    task
                }
                done => done,
            };
        }
    }
    assert!(put.len() > 10);
    assert_eq!(taken[..], put[..taken.len()]);
    let mut ids: Vec<u64> = put.iter().map(|item| item.id).collect();
    ids.sort();
    ids.dedup();
    assert_eq!(ids.len(), put.len());
    for item in &put {
        assert_eq!((item.id >> 32) as usize, item.producer_id);
    }
    for i in 0..3 {
        assert_eq!(app.producers[i].count, made[i]);
        assert_eq!(app.producers[i].state, ActorState::Stopped);
    }
    for j in 0..2 {
        assert_eq!(app.consumers[j].count, used[j]);
        assert_eq!(app.consumers[j].state, ActorState::Stopped);
    }
    assert!(app.moving_items.is_empty());
}

#[test]
fn commits_wake_both_sides() {
    assert_eq!(ActorKind::Producer.wake(), QueueWake { producers: Call::All, consumers: Call::One });
    assert_eq!(ActorKind::Consumer.wake(), QueueWake { producers: Call::One, consumers: Call::All });
}

#[test]
fn consumers_stop_in_the_middle_of_a_move() {
    let mut app = AppState::new(&ProducerConsumerConfig { producer_count: 1, consumer_count: 1 });
    let mut q = BoundedQueue::new(CAPACITY);
    put(&mut q, 7);
    let mut c = ConsumerWorker::new(0);
    c.proceed(true, &mut app);
    c.proceed(true, &mut app);
    q.consumer_wait();
    c.item_given(q.consumer_begin(true), &mut app);
    c.proceed(true, &mut app);
    assert_eq!(app.moving_items.len(), 1);
    assert_eq!(c.proceed(false, &mut app), ActorTask::Abandon);
    assert!(app.moving_items.is_empty());
    assert_eq!((app.consumers[0].state, app.consumers[0].count), (ActorState::Stopped, 0));
}
