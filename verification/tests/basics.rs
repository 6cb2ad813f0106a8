use sync_demos::color::{Rgb, Tone};
use sync_demos::control::{RunControl, Turn};
use sync_demos::layout::{in_column, Point};
use sync_demos::rng::SmallRng;
use sync_demos::text::{
    eq_ignore_ascii_case, parse_count, parse_natural, push_decimal, push_decimal_two, same_text,
    CountText,
};
use sync_demos::timing::{next_nap, REPAINT_MS};

#[test]
fn naturals_are_parsed() {
    assert_eq!(parse_natural("0", 9), Some(0));
    assert_eq!(parse_natural("42", 100), Some(42));
    assert_eq!(parse_natural("+7", 100), Some(7));
    assert_eq!(parse_natural("007", 100), Some(7));
    assert_eq!(parse_natural("18446744073709551615", u64::MAX), Some(u64::MAX));
}

#[test]
fn other_texts_are_no_naturals() {
    assert_eq!(parse_natural("", 100), None);
    assert_eq!(parse_natural("+", 100), None);
    assert_eq!(parse_natural("-1", 100), None);
    assert_eq!(parse_natural(" 1", 100), None);
    assert_eq!(parse_natural("1x", 100), None);
    assert_eq!(parse_natural("101", 100), None);
    assert_eq!(parse_natural("18446744073709551616", u64::MAX), None);
}

#[test]
fn parsing_agrees_with_std() {
    for s in ["0", "1", "+1", "-1", "", "+", "-", "++1", "12a", "255", "256", "300", "0000255"] {
        let mine: Option<u8> = parse_natural(s, 255).map(|n| n as u8);
        assert_eq!(mine, s.parse::<u8>().ok(), "{s}");
    }
}

#[test]
fn counts_are_parsed() {
    assert_eq!(parse_count("3", 8), CountText::Count(3));
    assert_eq!(parse_count("+8", 8), CountText::Count(8));
    assert_eq!(parse_count("0", 8), CountText::OutOfRange);
    assert_eq!(parse_count("-3", 8), CountText::OutOfRange);
    assert_eq!(parse_count("9", 8), CountText::OutOfRange);
    assert_eq!(parse_count("99999999999999999999", 8), CountText::OutOfRange);
    assert_eq!(parse_count("three", 8), CountText::NotANumber);
    assert_eq!(parse_count("-", 8), CountText::NotANumber);
}

#[test]
fn case_is_ignored() {
    assert!(eq_ignore_ascii_case("Y", "y"));
    assert!(eq_ignore_ascii_case("aBc", "AbC"));
    assert!(!eq_ignore_ascii_case("ab", "abc"));
    assert!(!eq_ignore_ascii_case("a", "b"));
    assert!(!eq_ignore_ascii_case("Ä", "ä"));
}

#[test]
fn texts_are_compared() {
    assert!(same_text("", ""));
    assert!(same_text("r", "r"));
    assert!(!same_text("R", "r"));
    assert!(!same_text("r", "rr"));
}

#[test]
fn numbers_are_written() {
    for n in [0_u64, 7, 10, 99, 100, 1234567890, u64::MAX] {
        let mut s = String::from("n=");
        push_decimal(&mut s, n);
        assert_eq!(s, format!("n={n}"));
        assert_eq!(parse_natural(&s[2..], u64::MAX), Some(n));
    }
}

#[test]
fn numbers_are_padded_to_two() {
    for n in [0_u64, 1, 9, 10, 99, 100] {
        let mut s = String::new();
        push_decimal_two(&mut s, n);
        assert_eq!(s, format!("{n:02}"));
    }
}

#[test]
fn draws_follow_the_shifts() {
    let mut rng = SmallRng::seeded(0);
    assert_eq!(rng.state, 1);
    assert_eq!(rng.next_u64(), 1082269761);
    assert_eq!(rng.next_u64(), 1152992998833853505);
    assert_eq!(SmallRng::seeded(6).state, 7);
    assert_eq!(SmallRng::seeded(7).state, 7);
}

#[test]
fn bounded_draws_stay_below() {
    let mut rng = SmallRng::seeded(99);
    for upper in 2..60 {
        let mut other = rng;
        let n = rng.next_usize(upper);
        assert!(n < upper);
        assert_eq!(n, other.next_u64() as usize % upper);
    }
}

#[test]
fn nothing_is_drawn_without_a_choice() {
    let mut rng = SmallRng::seeded(5);
    assert_eq!(rng.next_usize(0), 0);
    assert_eq!(rng.next_usize(1), 0);
    assert_eq!(rng.state, 5);
}

#[test]
fn draws_never_stop() {
    let mut rng = SmallRng::seeded(0);
    let mut seen: Vec<u64> = Vec::new();
    for _ in 0..1000 {
        let n = rng.next_u64();
        assert_ne!(n, 0);
        seen.push(n);
    }
    seen.sort();
    seen.dedup();
    assert_eq!(seen.len(), 1000);
}

#[test]
fn palette_is_the_shared_one() {
    assert_eq!(Tone::Active.rgb(), Rgb { r: 37, g: 99, b: 235 });
    assert_eq!(Tone::Waiting.rgb(), Rgb { r: 234, g: 88, b: 12 });
    assert_eq!(Tone::Success.rgb(), Rgb { r: 22, g: 163, b: 74 });
    assert_eq!(Tone::Idle.rgb(), Rgb { r: 107, g: 114, b: 128 });
    assert_eq!(Tone::Writing.rgb(), Rgb { r: 220, g: 38, b: 38 });
    assert_eq!(Tone::Background.rgb(), Rgb { r: 255, g: 255, b: 255 });
    assert_eq!(Tone::Panel.rgb(), Rgb { r: 248, g: 249, b: 250 });
}

#[test]
fn columns_step_down() {
    assert_eq!(in_column(150, 110, 60, 0), Point { x: 150, y: 110 });
    assert_eq!(in_column(150, 110, 60, 7), Point { x: 150, y: 530 });
    assert_eq!(in_column(-3, 0, 10_000, 900_000_000_000_000), Point { x: -3, y: 9_000_000_000_000_000_000 });
}

#[test]
fn naps_are_cut_to_size() {
    assert_eq!(next_nap(100, 0, 25), 25);
    assert_eq!(next_nap(100, 90, 25), 10);
    assert_eq!(next_nap(100, 100, 25), 0);
    assert_eq!(next_nap(100, 200, 25), 0);
    assert_eq!(1000 / REPAINT_MS, 30);
}

#[test]
fn pausing_holds_and_resuming_frees() {
    let mut c = RunControl::new(false);
    let mut epoch = 0;
    assert_eq!(c.wait_if_paused(true), Turn::Go);
    assert_eq!(c.wait_for_turn(true, &mut epoch), Turn::Go);
    assert_eq!(c.button_label(), "Pause");
    assert_eq!(c.key_hint(), "Space: pause/resume");
    assert!(!c.advance());
    assert!(c.is_paused());
    assert!(c.is_frozen());
    assert_eq!(c.button_label(), "Resume");
    assert_eq!(c.wait_if_paused(true), Turn::Wait);
    assert_eq!(c.wait_for_turn(true, &mut epoch), Turn::Wait);
    assert_eq!(c.wait_if_paused(false), Turn::Quit);
    assert_eq!(c.wait_for_turn(false, &mut epoch), Turn::Quit);
    assert!(c.advance());
    assert!(!c.is_paused());
    assert_eq!(epoch, 0);
    assert!(c.rests());
}

#[test]
fn steps_let_through_once() {
    let mut c = RunControl::new(true);
    let mut epoch = 0;
    assert!(!c.rests());
    c.set_paused(true);
    assert!(!c.is_frozen());
    assert_eq!(c.button_label(), "Step");
    assert_eq!(c.key_hint(), "Space: step");
    assert_eq!(c.wait_for_turn(true, &mut epoch), Turn::Wait);
    assert!(c.advance());
    assert_eq!(c.wait_for_turn(true, &mut epoch), Turn::Go);
    assert_eq!(epoch, 1);
    assert_eq!(c.wait_for_turn(true, &mut epoch), Turn::Wait);
    c.step_once();
    c.step_once();
    assert_eq!(c.wait_for_turn(true, &mut epoch), Turn::Go);
    assert_eq!(epoch, 3);
    assert_eq!(c.wait_for_turn(true, &mut epoch), Turn::Wait);
}

#[test]
fn everybody_quits_at_the_end() {
    for step_mode in [false, true] {
        let mut c = RunControl::new(step_mode);
        let mut epoch = 0;
        c.set_paused(true);
        assert_eq!(c.wait_for_turn(false, &mut epoch), Turn::Quit);
        assert_eq!(c.wait_if_paused(false), Turn::Quit);
    }
}
