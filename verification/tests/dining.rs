use sync_demos::color::Rgb;
use sync_demos::dining::config::DiningConfig;
use sync_demos::dining::look::{
    counter_line, fork_visual, legend_entry, meal_place, meal_total, meals_drawn, phil_color, seat_label,
    state_label, ForkSpot,
};
use sync_demos::dining::table::{AppState, PhilAction, PhilMethod, PhilState};
use sync_demos::dining::worker::{PhilPhase, PhilTask, PhilosopherWorker};

fn args(words: &[&str]) -> Vec<String> {
    words.iter().map(|w| w.to_string()).collect()
}

fn table(count: usize, method: PhilMethod) -> AppState {
    AppState::new(&DiningConfig { count, speed: 5, step_mode: false, method })
}

fn hungry(count: usize, method: PhilMethod) -> AppState {
    let mut app = table(count, method);
    for p in app.philosophers.iter_mut() {
        p.state = PhilState::HasNone;
    }
    app
}

fn step(app: &mut AppState, id: usize) {
    app.check_step_for(id);
    app.act_step_for(id);
}

const METHODS: [PhilMethod; 5] = [
    PhilMethod::ForfeitWhenBlocked,
    PhilMethod::WaitWhenBlocked,
    PhilMethod::NCountRelease,
    PhilMethod::ResourceHierarchy,
    PhilMethod::OddEven,
];

#[test]
fn dining_defaults() {
    let c = DiningConfig::from_args(&Vec::new());
    assert_eq!((c.count, c.speed, c.step_mode, c.method), (5, 5, false, PhilMethod::OddEven));
    assert_eq!(c.title(), "Dining Philosophers (5 philosophers, speed 5, odd-even check)");
}

#[test]
fn dining_arguments() {
    let c = DiningConfig::from_args(&args(&["7", "10", "r"]));
    assert_eq!((c.count, c.speed, c.step_mode), (7, 10, false));
    assert_eq!(c.method, PhilMethod::ResourceHierarchy);
    assert_eq!(c.summary(), "7 philosophers, speed 10, hierarchical resources");
    assert_eq!(c.mode_line(), "Mode: speed 10");

    let c = DiningConfig::from_args(&args(&["5", "t", "f"]));
    assert!(c.step_mode);
    assert_eq!(c.speed, 5);
    assert_eq!(c.title(), "Dining Philosophers (5 philosophers, step-through, forfeit when blocked)");
    assert_eq!(c.mode_line(), "Mode: step-through");
    assert!(DiningConfig::from_args(&args(&["5", "Y"])).step_mode);
}

#[test]
fn bad_dining_arguments_fall_back() {
    for first in ["1", "0", "-3", "x", ""] {
        assert_eq!(DiningConfig::from_args(&args(&[first])).count, 5);
    }
    assert_eq!(DiningConfig::from_args(&args(&["2"])).count, 2);
    for second in ["0", "-1", "fast", "4294967296"] {
        let c = DiningConfig::from_args(&args(&["3", second]));
        assert_eq!((c.speed, c.step_mode), (5, false));
    }
    assert_eq!(DiningConfig::from_args(&args(&["3", "4294967295"])).speed, 4294967295);
    assert_eq!(DiningConfig::from_args(&args(&["3", "5", ""])).method, PhilMethod::OddEven);
    assert_eq!(DiningConfig::from_args(&args(&["3", "5", "xw"])).method, PhilMethod::OddEven);
}

#[test]
fn methods_go_by_their_letters() {
    for (letter, method, label) in [
        ('w', PhilMethod::WaitWhenBlocked, "wait when blocked"),
        ('f', PhilMethod::ForfeitWhenBlocked, "forfeit when blocked"),
        ('n', PhilMethod::NCountRelease, "release on nth count"),
        ('r', PhilMethod::ResourceHierarchy, "hierarchical resources"),
        ('o', PhilMethod::OddEven, "odd-even check"),
    ] {
        assert_eq!(PhilMethod::from_char(letter), method);
        assert_eq!(PhilMethod::from_char(letter.to_ascii_uppercase()), method);
        assert_eq!(method.label(), label);
        assert_eq!(method.starts_together(), letter == 'f');
    }
    assert_eq!(PhilMethod::from_char('?'), PhilMethod::OddEven);
}

#[test]
fn frames_last_a_share_of_a_second() {
    let mut c = DiningConfig::from_args(&Vec::new());
    for (speed, denom) in [(1, 1), (5, 5), (50, 50), (51, 50), (1000, 50)] {
        c.speed = speed;
        let d = c.frame_duration();
        assert_eq!((d.numer, d.denom), (1, denom));
        let expected = (1.0 / speed as f32).max(0.02);
        assert_eq!(1.0 / d.denom as f32, expected);
    }
}

#[test]
fn a_fresh_table_is_laid() {
    let app = table(4, PhilMethod::OddEven);
    assert_eq!((app.count, app.counter), (4, 0));
    for id in 0..4 {
        assert_eq!(app.philosophers[id].id, id);
        assert_eq!(app.philosophers[id].state, PhilState::Thinking);
        assert_eq!(app.philosophers[id].action, PhilAction::DoNothing);
        assert_eq!(app.philosophers[id].meals, 0);
        assert!(app.fork_free(id));
        assert_eq!(app.left_fork(id), id);
        assert_eq!(app.right_fork(id), (id + 3) % 4);
    }
}

#[test]
fn thinkers_get_hungry_every_third_count() {
    let mut app = table(5, PhilMethod::WaitWhenBlocked);
    app.check_step_for(1);
    assert_eq!(app.philosophers[1].state, PhilState::Thinking);
    assert_eq!(app.counter, 1);
    app.check_step_for(2);
    assert_eq!(app.philosophers[2].state, PhilState::HasNone);
    assert_eq!(app.counter, 2);
}

#[test]
fn forfeiters_get_hungry_at_once() {
    let mut app = table(5, PhilMethod::ForfeitWhenBlocked);
    app.check_step_for(1);
    assert_eq!(app.philosophers[1].state, PhilState::HasNone);
}

#[test]
fn full_philosophers_think_uncounted() {
    let mut app = table(3, PhilMethod::OddEven);
    app.philosophers[0].state = PhilState::IsFull;
    app.philosophers[0].action = PhilAction::ReleaseBoth;
    app.check_step_for(0);
    assert_eq!(app.philosophers[0].state, PhilState::Thinking);
    assert_eq!(app.philosophers[0].action, PhilAction::DoNothing);
    assert_eq!(app.counter, 0);
}

#[test]
fn the_count_wraps() {
    let mut app = hungry(3, PhilMethod::ResourceHierarchy);
    app.counter = usize::MAX;
    app.check_step_for(0);
    assert_eq!(app.counter, 0);
}

#[test]
fn a_meal_takes_both_forks_and_ends() {
    for method in METHODS {
        let mut app = hungry(5, method);
        for _ in 0..20 {
            step(&mut app, 2);
            if app.philosophers[2].state == PhilState::HasBoth {
                break;
            }
        }
        assert_eq!(app.philosophers[2].state, PhilState::HasBoth);
        assert_eq!(app.forks[2].user, Some(2));
        assert_eq!(app.forks[1].user, Some(2));
        step(&mut app, 2);
        assert_eq!(app.philosophers[2].state, PhilState::IsFull);
        assert_eq!(app.philosophers[2].meals, 1);
        assert!(app.fork_free(1) && app.fork_free(2));
    }
}

#[test]
fn hands_take_only_their_own_forks() {
    let mut app = hungry(5, PhilMethod::OddEven);
    assert!(!app.acquire(2, 4));
    assert!(app.acquire(2, 2));
    assert_eq!(app.philosophers[2].state, PhilState::HasLeft);
    assert!(!app.acquire(3, 2));
    assert!(!app.acquire(2, 2));
    assert!(app.acquire(2, 1));
    assert_eq!(app.philosophers[2].state, PhilState::HasBoth);
    assert!(!app.release(3, 2));
    assert!(app.release(2, 2));
    assert_eq!(app.philosophers[2].state, PhilState::IsFull);
    assert_eq!(app.philosophers[2].meals, 1);
    assert!(app.release(2, 1));
    assert_eq!(app.philosophers[2].meals, 1);
    assert!(!app.release(2, 1));
}

#[test]
fn letting_go_of_a_single_fork_is_no_meal() {
    let mut app = hungry(5, PhilMethod::OddEven);
    assert!(app.acquire(3, 2));
    assert_eq!(app.philosophers[3].state, PhilState::HasRight);
    assert!(app.release(3, 2));
    assert_eq!(app.philosophers[3].state, PhilState::HasNone);
    assert_eq!(app.philosophers[3].meals, 0);
    let mut app = table(5, PhilMethod::OddEven);
    assert!(!app.acquire(0, 0));
}

#[test]
fn the_right_fork_comes_first() {
    for method in [PhilMethod::ForfeitWhenBlocked, PhilMethod::WaitWhenBlocked, PhilMethod::NCountRelease] {
        let mut app = hungry(5, method);
        app.check_step_for(2);
        assert_eq!(app.philosophers[2].action, PhilAction::TryRight);
        app.forks[1].user = Some(1);
        app.check_step_for(2);
        assert_eq!(app.philosophers[2].action, PhilAction::TryLeft);
        app.forks[2].user = Some(3);
        app.check_step_for(2);
        assert_eq!(app.philosophers[2].action, PhilAction::DoNothing);
    }
}

#[test]
fn blocked_philosophers_follow_their_strategy() {
    for (method, expected) in [
        (PhilMethod::ForfeitWhenBlocked, PhilAction::ReleaseRight),
        (PhilMethod::WaitWhenBlocked, PhilAction::DoNothing),
        (PhilMethod::ResourceHierarchy, PhilAction::DoNothing),
    ] {
        let mut app = hungry(5, method);
        assert!(app.acquire(2, 1));
        assert!(app.acquire(3, 2));
        app.check_step_for(2);
        assert_eq!(app.philosophers[2].action, expected);
    }
}

#[test]
fn the_count_names_who_gives_way() {
    let mut app = hungry(5, PhilMethod::NCountRelease);
    assert!(app.acquire(2, 2));
    assert!(app.acquire(1, 1));
    app.counter = 10;
    app.check_step_for(2);
    assert_eq!(app.philosophers[2].action, PhilAction::DoNothing);
    assert_eq!(app.counter, 11);
    app.check_step_for(2);
    assert_eq!(app.philosophers[2].action, PhilAction::ReleaseLeft);
}

#[test]
fn the_lower_fork_comes_first_in_the_hierarchy() {
    let mut app = hungry(5, PhilMethod::ResourceHierarchy);
    app.check_step_for(0);
    assert_eq!(app.philosophers[0].action, PhilAction::TryLeft);
    app.check_step_for(3);
    assert_eq!(app.philosophers[3].action, PhilAction::TryRight);
    app.forks[2].user = Some(2);
    app.check_step_for(3);
    assert_eq!(app.philosophers[3].action, PhilAction::DoNothing);
}

#[test]
fn odd_and_even_alternate() {
    let mut app = hungry(5, PhilMethod::OddEven);
    app.check_step_for(2);
    assert_eq!(app.philosophers[2].action, PhilAction::TryBoth);
    app.check_step_for(2);
    assert_eq!(app.philosophers[2].action, PhilAction::DoNothing);
    app.philosophers[2].state = PhilState::HasLeft;
    app.forks[2].user = Some(2);
    app.check_step_for(2);
    assert_eq!(app.philosophers[2].action, PhilAction::TryRight);
    app.check_step_for(2);
    assert_eq!(app.philosophers[2].action, PhilAction::ReleaseLeft);
    app.philosophers[2].state = PhilState::HasRight;
    app.check_step_for(2);
    assert_eq!(app.philosophers[2].action, PhilAction::TryLeft);
    app.check_step_for(2);
    assert_eq!(app.philosophers[2].action, PhilAction::ReleaseRight);
}

#[test]
fn neighbours_never_eat_together() {
    for method in METHODS {
        for count in [2, 3, 5, 8] {
            let mut app = table(count, method);
            let mut pick = 1_u64;
            for round in 0..3000 {
                pick = pick.wrapping_mul(6364136223846793005).wrapping_add(round);
                let id = (pick >> 33) as usize % count;
                if pick & 1 == 0 {
                    app.check_step_for(id);
                } else {
                    app.act_step_for(id);
                }
                for i in 0..count {
                    let eats = app.philosophers[i].state == PhilState::HasBoth;
                    let right = app.right_fork(i);
                    assert_eq!(eats, app.forks[i].user == Some(i) && app.forks[right].user == Some(i));
                    assert!(!(eats && app.philosophers[(i + 1) % count].state == PhilState::HasBoth));
                }
            }
        }
    }
}

#[test]
fn everybody_eats_unless_they_only_wait() {
    for method in METHODS {
        if method == PhilMethod::WaitWhenBlocked {
            continue;
        }
        let mut app = table(5, method);
        for _ in 0..400 {
            for id in 0..5 {
                step(&mut app, id);
            }
        }
        assert!(app.philosophers.iter().map(|p| p.meals).sum::<usize>() > 0, "{method:?}");
    }
}

#[test]
fn waiting_can_deadlock() {
    let mut app = hungry(5, PhilMethod::WaitWhenBlocked);
    for id in 0..5 {
        let right = app.right_fork(id);
        assert!(app.acquire(id, right));
    }
    for _ in 0..50 {
        for id in 0..5 {
            step(&mut app, id);
        }
    }
    assert!(app.philosophers.iter().all(|p| p.state == PhilState::HasRight && p.meals == 0));
}

#[test]
fn counting_breaks_the_same_tie() {
    let mut app = hungry(5, PhilMethod::NCountRelease);
    for id in 0..5 {
        let right = app.right_fork(id);
        assert!(app.acquire(id, right));
    }
    app.counter = 1;
    step(&mut app, 2);
    assert_eq!(app.philosophers[2].state, PhilState::HasNone);
    step(&mut app, 1);
    assert_eq!(app.philosophers[1].state, PhilState::HasBoth);
    step(&mut app, 1);
    assert_eq!(app.philosophers[1].meals, 1);
}

#[test]
fn a_step_leaves_the_others_alone() {
    let mut app = hungry(6, PhilMethod::WaitWhenBlocked);
    step(&mut app, 2);
    for id in [0, 1, 3, 4, 5] {
        assert_eq!(app.philosophers[id].state, PhilState::HasNone);
        assert_eq!(app.philosophers[id].action, PhilAction::DoNothing);
    }
    for fork in [0, 3, 4, 5] {
        assert!(app.fork_free(fork));
    }
}

#[test]
fn philosophers_have_colours_and_words() {
    assert_eq!(phil_color(PhilState::HasNone), Rgb { r: 234, g: 88, b: 12 });
    assert_eq!(phil_color(PhilState::HasRight), Rgb { r: 235, g: 155, b: 45 });
    assert_eq!(phil_color(PhilState::HasLeft), Rgb { r: 150, g: 80, b: 200 });
    assert_eq!(phil_color(PhilState::HasBoth), Rgb { r: 22, g: 163, b: 74 });
    assert_eq!(phil_color(PhilState::IsFull), Rgb { r: 107, g: 114, b: 128 });
    assert_eq!(phil_color(PhilState::Thinking), Rgb { r: 107, g: 114, b: 128 });
    assert_eq!(state_label(PhilState::HasNone), "Hungry");
    assert_eq!(state_label(PhilState::HasRight), "Has right");
    assert_eq!(state_label(PhilState::HasLeft), "Has left");
    assert_eq!(state_label(PhilState::HasBoth), "Eating");
    assert_eq!(state_label(PhilState::IsFull), "Full");
    assert_eq!(state_label(PhilState::Thinking), "Thinking");
    assert_eq!(legend_entry(0), ("Thinking", phil_color(PhilState::Thinking)));
    assert_eq!(legend_entry(1), ("With Right Fork", phil_color(PhilState::HasRight)));
    assert_eq!(legend_entry(2), ("With Left Fork", phil_color(PhilState::HasLeft)));
    assert_eq!(legend_entry(3), ("Eating", phil_color(PhilState::HasBoth)));
    assert_eq!(legend_entry(4), ("Hungry", phil_color(PhilState::HasNone)));
    assert_eq!(seat_label(0), "1");
    assert_eq!(counter_line(41), "Counter: 41");
}

#[test]
fn forks_show_their_holder() {
    let mut app = hungry(5, PhilMethod::OddEven);
    assert_eq!(fork_visual(&app, 4), (ForkSpot::OnTable, Rgb { r: 0, g: 0, b: 0 }));
    assert!(app.acquire(4, 4));
    assert_eq!(fork_visual(&app, 4), (ForkSpot::LeftHand, Rgb { r: 150, g: 80, b: 200 }));
    assert!(app.release(4, 4));
    assert!(app.acquire(0, 4));
    assert_eq!(fork_visual(&app, 4), (ForkSpot::RightHand, Rgb { r: 235, g: 155, b: 45 }));
    assert!(app.acquire(0, 0));
    assert_eq!(fork_visual(&app, 4), (ForkSpot::RightHand, Rgb { r: 22, g: 163, b: 74 }));
    assert_eq!(fork_visual(&app, 0), (ForkSpot::LeftHand, Rgb { r: 22, g: 163, b: 74 }));
}

#[test]
fn meals_stand_in_stacks() {
    assert_eq!(meal_place(0), (0, 0));
    assert_eq!(meal_place(9), (0, 9));
    assert_eq!(meal_place(10), (1, 0));
    assert_eq!(meal_place(123), (12, 3));
    assert_eq!(meals_drawn(7, 5), 7);
    assert_eq!(meals_drawn(600, 5), 510);
    assert_eq!(meals_drawn(100, 300), 10);
    assert_eq!(meal_total(500, 5), None);
    assert_eq!(meal_total(501, 5), Some("x501".to_string()));
    assert_eq!(meal_total(10, 300), None);
    assert_eq!(meal_total(11, 300), Some("x11".to_string()));
}

#[test]
fn a_philosophers_thread_checks_acts_and_rests() {
    let mut app = hungry(3, PhilMethod::ForfeitWhenBlocked);
    let mut w = PhilosopherWorker::new(1);
    assert_eq!(w.phase, PhilPhase::Turn);
    assert_eq!(w.step(true, &mut app), PhilTask::Yield);
    assert_eq!(app.philosophers[1].action, PhilAction::TryRight);
    assert!(app.fork_free(0));
    assert_eq!(w.step(true, &mut app), PhilTask::Rest);
    assert_eq!(app.forks[0].user, Some(1));
    assert_eq!(w.step(true, &mut app), PhilTask::AwaitTurn);
    assert_eq!(w.step(false, &mut app), PhilTask::Quit);
    assert_eq!(w.phase, PhilPhase::Over);
    assert_eq!(w.step(true, &mut app), PhilTask::Quit);
    assert_eq!(app.counter, 1);
}

#[test]
fn a_philosophers_thread_finishes_its_step() {
    let mut app = hungry(3, PhilMethod::ForfeitWhenBlocked);
    let mut w = PhilosopherWorker::new(2);
    assert_eq!(w.step(true, &mut app), PhilTask::Yield);
    assert_eq!(w.step(false, &mut app), PhilTask::Rest);
    assert_eq!(app.forks[1].user, Some(2));
    assert_eq!(w.step(false, &mut app), PhilTask::Quit);
}

#[test]
fn odd_even_breaks_ties() {
    let mut app = hungry(5, PhilMethod::OddEven);
    for id in 0..5 {
        assert!(app.acquire(id, id));
    }
    app.counter = 1;
    step(&mut app, 0);
    assert_eq!(app.philosophers[0].state, PhilState::HasNone);
    app.counter = 1;
    step(&mut app, 1);
    assert_eq!(app.philosophers[1].state, PhilState::HasBoth);
}

#[test]
fn there_is_always_a_way_on() {
    for method in METHODS {
        if method == PhilMethod::WaitWhenBlocked {
            continue;
        }
        let mut app = table(4, method);
        let mut pick = 7_u64;
        for round in 0..500 {
            pick = pick.wrapping_mul(6364136223846793005).wrapping_add(round);
            let id = (pick >> 33) as usize % 4;
            if pick & 1 == 0 {
                app.check_step_for(id);
            } else {
                app.act_step_for(id);
            }
            let changes = (0..4).any(|id| {
                let mut copy = table(4, method);
                copy.counter = app.counter;
                copy.philosophers = app.philosophers.clone();
                copy.forks = app.forks.clone();
                let before = copy.philosophers[id].state;
                (0..12).any(|_| {
                    copy.check_step_for(id);
                    copy.act_step_for(id);
                    copy.philosophers[id].state != before
                })
            });
            assert!(changes, "{method:?}");
        }
    }
}

#[test]
fn philosophers_leave_when_the_run_is_over() {
    for (phase, tasks) in [
        (PhilPhase::Turn, vec![PhilTask::Quit]),
        (PhilPhase::Checked, vec![PhilTask::Rest, PhilTask::Quit]),
        (PhilPhase::Resting, vec![PhilTask::Quit]),
    ] {
        let mut app = hungry(3, PhilMethod::OddEven);
        let mut w = PhilosopherWorker { id: 0, phase };
        for task in tasks {
            assert_eq!(w.step(false, &mut app), task);
        }
        assert_eq!(w.phase, PhilPhase::Over);
    }
}
