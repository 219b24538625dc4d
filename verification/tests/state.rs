use yewuse::state::use_color_mode::{color_mode_is_dark, toggle_color_mode, ColorMode};
use yewuse::state::use_counter::Counter;
use yewuse::state::use_previous::PreviousValue;
use yewuse::state::use_toggle::Toggle;

#[test]
fn counter_initial_value_test() {
    let c = Counter::new(0, None);
    assert_eq!(c.value, 0);
    assert_eq!(c.step, 1);
}

#[test]
fn counter_increment_test() {
    let mut c = Counter::new(0, None);
    c.increment(None);
    assert_eq!(c.value, 1);
    c.increment(None);
    assert_eq!(c.value, 2);
}

#[test]
fn counter_decrement_test() {
    let mut c = Counter::new(5, None);
    c.decrement(None);
    assert_eq!(c.value, 4);
}

#[test]
fn counter_reset_test() {
    let mut c = Counter::new(0, None);
    c.increment(None);
    c.increment(None);
    assert_eq!(c.value, 2);
    c.reset();
    assert_eq!(c.value, 0);
}

#[test]
fn counter_set_test() {
    let mut c = Counter::new(0, None);
    c.set(5);
    assert_eq!(c.value, 5);
}

#[test]
fn counter_respects_min_max_test() {
    let mut c = Counter::new(0, Some((Some(-5), Some(5), None)));
    for _ in 0..10 {
        c.increment(None);
    }
    assert_eq!(c.value, 5);
    for _ in 0..20 {
        c.decrement(None);
    }
    assert_eq!(c.value, -5);
}

#[test]
fn counter_custom_step_and_amount() {
    let mut c = Counter::new(0, Some((Some(-10), Some(10), Some(2))));
    c.increment(None);
    assert_eq!(c.value, 2);
    c.increment(Some(5));
    assert_eq!(c.value, 7);
    c.increment(Some(5));
    assert_eq!(c.value, 10);
    c.decrement(Some(25));
    assert_eq!(c.value, -10);
}

#[test]
fn counter_increment_and_decrement_respect_both_bounds() {
    // a negative amount cannot take the count below the minimum, nor above the maximum
    let mut c = Counter::new(0, Some((Some(-5), Some(5), None)));
    c.increment(Some(-20));
    assert_eq!(c.value, -5);
    c.decrement(Some(-40));
    assert_eq!(c.value, 5);
}

#[test]
fn counter_set_clamps_to_both_bounds() {
    let mut c = Counter::new(0, Some((Some(-5), Some(5), None)));
    c.set(100);
    assert_eq!(c.value, 5);
    c.set(-100);
    assert_eq!(c.value, -5);
    c.set(3);
    assert_eq!(c.value, 3);
    // with min above max the maximum wins
    let mut d = Counter::new(0, Some((Some(10), Some(1), None)));
    d.set(0);
    assert_eq!(d.value, 1);
}

#[test]
fn counter_other_integer_widths() {
    let mut c: Counter<u8> = Counter::new(250, Some((Some(10), Some(255), Some(3))));
    c.increment(None);
    assert_eq!(c.value, 253);
    c.increment(Some(2));
    assert_eq!(c.value, 255);
    c.decrement(Some(250));
    assert_eq!(c.value, 10);
    c.set(0);
    assert_eq!(c.value, 10);
    c.reset();
    assert_eq!(c.value, 250);

    let mut d: Counter<i64> = Counter::new(-3_000_000_000, None);
    assert_eq!(d.step, 1);
    d.decrement(Some(4_000_000_000));
    assert_eq!(d.value, -7_000_000_000);
    d.increment(None);
    assert_eq!(d.value, -6_999_999_999);

    let mut e: Counter<usize> = Counter::new(0, Some((None, Some(4), None)));
    e.increment(Some(9));
    assert_eq!(e.value, 4);
}

#[test]
fn counter_bounds_kept_under_any_amounts() {
    let mut c = Counter::new(1, Some((Some(0), Some(3), Some(2))));
    let amounts = [Some(7), Some(-9), None, Some(-1), Some(100), Some(-100)];
    for (i, a) in amounts.iter().enumerate() {
        if i % 2 == 0 {
            c.increment(*a);
        } else {
            c.decrement(*a);
        }
        assert!(c.value >= 0 && c.value <= 3);
        c.set(50);
        assert_eq!(c.value, 3);
        c.reset();
        assert_eq!(c.value, 1);
    }
}

#[test]
fn toggle_flips_and_sets() {
    let mut t = Toggle::new(false);
    assert!(!t.value);
    t.toggle();
    assert!(t.value);
    t.toggle();
    assert!(!t.value);
    t.set(true);
    assert!(t.value);
    t.set(true);
    assert!(t.value);
}

#[test]
fn color_mode_default_is_auto() {
    assert_eq!(ColorMode::default(), ColorMode::Auto);
}

#[test]
fn color_mode_is_dark_follows_mode() {
    assert!(!color_mode_is_dark(ColorMode::Light, true));
    assert!(color_mode_is_dark(ColorMode::Dark, false));
    assert!(color_mode_is_dark(ColorMode::Auto, true));
    assert!(!color_mode_is_dark(ColorMode::Auto, false));
}

#[test]
fn color_mode_toggle_flips_theme() {
    for mode in [ColorMode::Light, ColorMode::Dark, ColorMode::Auto] {
        for system in [false, true] {
            let next = toggle_color_mode(mode, system);
            assert_ne!(next, ColorMode::Auto);
            assert_eq!(color_mode_is_dark(next, system), !color_mode_is_dark(mode, system));
        }
    }
    assert_eq!(toggle_color_mode(ColorMode::Auto, true), ColorMode::Light);
    assert_eq!(toggle_color_mode(ColorMode::Auto, false), ColorMode::Dark);
}

#[test]
fn color_mode_toggle_twice() {
    assert_eq!(toggle_color_mode(toggle_color_mode(ColorMode::Light, true), true), ColorMode::Light);
    assert_eq!(toggle_color_mode(toggle_color_mode(ColorMode::Dark, false), false), ColorMode::Dark);
    assert_eq!(toggle_color_mode(toggle_color_mode(ColorMode::Auto, true), true), ColorMode::Dark);
}

#[test]
fn previous_value_tracks_last_observation() {
    let mut p = PreviousValue::new();
    assert_eq!(p.observe(1), None);
    assert_eq!(p.observe(2), Some(1));
    assert_eq!(p.observe(3), Some(2));
}
