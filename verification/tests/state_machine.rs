//! Behavioral tests of the event-handling state machine.

use modular_times_table::state::{
    Animation, Event, EventOutcome, Key, Modifiers, State, COARSE_ANIMATION_SPEED,
    DEFAULT_DIVISIONS, DEFAULT_FACTOR_MILLIS, DEFAULT_SCALE_MILLIS, FINE_ANIMATION_SPEED,
    FRAME_INTERVAL_MICROS,
};

const NO_MODS: Modifiers = Modifiers { ctrl: false, shift: false, alt: false };
const CTRL: Modifiers = Modifiers { ctrl: true, shift: false, alt: false };
const SHIFT: Modifiers = Modifiers { ctrl: false, shift: true, alt: false };
const CTRL_SHIFT: Modifiers = Modifiers { ctrl: true, shift: true, alt: false };
const ALT: Modifiers = Modifiers { ctrl: false, shift: false, alt: true };
const CTRL_ALT: Modifiers = Modifiers { ctrl: true, shift: false, alt: true };

/// A time at which the rate limiter lets the first mutation pass.
const T0: u64 = 1_000_000;

fn press(key: Key, modifiers: Modifiers) -> Event {
    Event::KeyInput { key, pressed: true, modifiers }
}

fn wheel(amount: i64, modifiers: Modifiers) -> Event {
    Event::MouseWheel { amount, modifiers }
}

#[test]
fn default_state_holds_the_documented_values() {
    let s = State::default();
    assert_eq!(s.scale_millis, DEFAULT_SCALE_MILLIS);
    assert_eq!(s.scale_millis, 900);
    assert_eq!(s.divisions, 100);
    assert_eq!(s.factor_millis, 2000);
    assert_eq!(s.current_animation, None);
    assert_eq!(s.last_mutation_micros, 0);
}

#[test]
fn close_request_stops_the_loop_without_redraw() {
    let mut s = State::default();
    let o = s.handle_event(Event::CloseRequested, T0);
    assert_eq!(
        o,
        EventOutcome { continue_running: false, needs_redraw: false, toggle_timer: false }
    );
    assert_eq!(s, State::default());
}

#[test]
fn refresh_asks_for_a_redraw_and_mutates_nothing() {
    let mut s = State::default();
    let o = s.handle_event(Event::Refresh, T0);
    assert!(o.continue_running && o.needs_redraw && !o.toggle_timer);
    assert_eq!(s, State::default());
}

#[test]
fn other_events_and_other_keys_change_nothing() {
    let mut s = State::default();
    let o = s.handle_event(Event::Other, T0);
    assert!(o.continue_running && !o.needs_redraw && !o.toggle_timer);
    let o = s.handle_event(press(Key::Other, NO_MODS), T0);
    assert!(o.continue_running && !o.needs_redraw && !o.toggle_timer);
    assert_eq!(s, State::default());
}

#[test]
fn key_release_is_ignored_even_for_bound_keys() {
    let mut s = State::default();
    let o = s.handle_event(
        Event::KeyInput { key: Key::Space, pressed: false, modifiers: NO_MODS },
        T0,
    );
    assert!(o.continue_running && !o.needs_redraw && !o.toggle_timer);
    assert_eq!(s.current_animation, None);
    assert_eq!(s, State::default());
}

#[test]
fn p9_ctrl_shift_scroll_adds_ten_divisions() {
    let mut s = State::default();
    let o = s.handle_event(wheel(1, CTRL_SHIFT), T0);
    assert!(o.needs_redraw);
    assert_eq!(s.divisions, 110);
    assert_eq!(s.factor_millis, DEFAULT_FACTOR_MILLIS);
}

#[test]
fn p9_shift_scroll_without_ctrl_adds_a_fifth_to_the_factor() {
    let mut s = State::default();
    let o = s.handle_event(wheel(1, SHIFT), T0);
    assert!(o.needs_redraw);
    assert_eq!(s.factor_millis, DEFAULT_FACTOR_MILLIS + 200);
    assert_eq!(s.divisions, DEFAULT_DIVISIONS);
}

#[test]
fn plain_scroll_moves_the_factor_by_a_hundredth() {
    let mut s = State::default();
    s.handle_event(wheel(1, NO_MODS), T0);
    assert_eq!(s.factor_millis, DEFAULT_FACTOR_MILLIS + 10);
    s.handle_event(wheel(-3, NO_MODS), T0 + FRAME_INTERVAL_MICROS);
    assert_eq!(s.factor_millis, DEFAULT_FACTOR_MILLIS + 10 - 30);
}

#[test]
fn ctrl_scroll_moves_divisions_one_by_one() {
    let mut s = State::default();
    s.handle_event(wheel(-2, CTRL), T0);
    assert_eq!(s.divisions, 98);
}

#[test]
fn divisions_never_go_below_zero() {
    let mut s = State::default();
    s.divisions = 3;
    let o = s.handle_event(wheel(-1, CTRL_SHIFT), T0);
    assert!(o.needs_redraw);
    assert_eq!(s.divisions, 0);
    let o = s.handle_event(wheel(-1, CTRL), T0 + FRAME_INTERVAL_MICROS);
    assert!(o.needs_redraw);
    assert_eq!(s.divisions, 0);
}

#[test]
fn arrow_keys_manipulate_by_one_unit() {
    let mut s = State::default();
    let o = s.handle_event(press(Key::Up, NO_MODS), T0);
    assert!(o.needs_redraw);
    assert_eq!(s.factor_millis, DEFAULT_FACTOR_MILLIS + 10);
    let o = s.handle_event(press(Key::Down, CTRL), T0 + FRAME_INTERVAL_MICROS);
    assert!(o.needs_redraw);
    assert_eq!(s.divisions, 99);
    let o = s.handle_event(press(Key::Subtract, SHIFT), T0 + 2 * FRAME_INTERVAL_MICROS);
    assert!(o.needs_redraw);
    assert_eq!(s.factor_millis, DEFAULT_FACTOR_MILLIS + 10 - 200);
    let o = s.handle_event(press(Key::Add, NO_MODS), T0 + 3 * FRAME_INTERVAL_MICROS);
    assert!(o.needs_redraw);
    assert_eq!(s.factor_millis, DEFAULT_FACTOR_MILLIS + 10 - 200 + 10);
    let o = s.handle_event(press(Key::Right, CTRL_SHIFT), T0 + 4 * FRAME_INTERVAL_MICROS);
    assert!(o.needs_redraw);
    assert_eq!(s.divisions, 109);
    let o = s.handle_event(press(Key::Left, CTRL), T0 + 5 * FRAME_INTERVAL_MICROS);
    assert!(o.needs_redraw);
    assert_eq!(s.divisions, 108);
}

#[test]
fn p5_rate_limiting_swallows_the_second_of_two_quick_mutations() {
    let mut s = State::default();
    let o1 = s.handle_event(wheel(1, NO_MODS), T0);
    assert!(o1.needs_redraw);
    assert_eq!(s.factor_millis, DEFAULT_FACTOR_MILLIS + 10);

    // Second call one microsecond short of the interval: swallowed whole.
    let o2 = s.handle_event(wheel(1, NO_MODS), T0 + FRAME_INTERVAL_MICROS - 1);
    assert!(!o2.needs_redraw);
    assert_eq!(s.factor_millis, DEFAULT_FACTOR_MILLIS + 10);
    assert_eq!(s.last_mutation_micros, T0);

    // Third call exactly at the interval: passes.
    let o3 = s.handle_event(wheel(1, NO_MODS), T0 + FRAME_INTERVAL_MICROS);
    assert!(o3.needs_redraw);
    assert_eq!(s.factor_millis, DEFAULT_FACTOR_MILLIS + 20);
    assert_eq!(s.last_mutation_micros, T0 + FRAME_INTERVAL_MICROS);
}

#[test]
fn rate_limiting_applies_to_key_mutations_too() {
    let mut s = State::default();
    let o1 = s.handle_event(press(Key::Up, NO_MODS), T0);
    assert!(o1.needs_redraw);
    let o2 = s.handle_event(press(Key::Up, NO_MODS), T0 + 1);
    assert!(!o2.needs_redraw);
    assert_eq!(s.factor_millis, DEFAULT_FACTOR_MILLIS + 10);
}

#[test]
fn toggle_starts_the_documented_animation_kinds() {
    let cases: Vec<(Modifiers, Animation)> = vec![
        (NO_MODS, Animation::Factor(2 * FINE_ANIMATION_SPEED)),
        (SHIFT, Animation::Factor(2 * COARSE_ANIMATION_SPEED)),
        (ALT, Animation::Factor(-2 * FINE_ANIMATION_SPEED)),
        (CTRL, Animation::Divisions(FINE_ANIMATION_SPEED)),
        (CTRL_SHIFT, Animation::Divisions(COARSE_ANIMATION_SPEED)),
        (CTRL_ALT, Animation::Divisions(-FINE_ANIMATION_SPEED)),
    ];
    for (mods, expected) in cases {
        let mut s = State::default();
        let o = s.handle_event(press(Key::Space, mods), T0);
        assert!(o.continue_running && o.needs_redraw && o.toggle_timer);
        assert_eq!(s.current_animation, Some(expected));
    }
}

#[test]
fn the_a_key_toggles_like_space() {
    let mut s = State::default();
    let o = s.handle_event(press(Key::A, NO_MODS), T0);
    assert!(o.toggle_timer);
    assert_eq!(s.current_animation, Some(Animation::Factor(2)));
    let o = s.handle_event(press(Key::A, NO_MODS), T0 + 1);
    assert!(o.toggle_timer);
    assert_eq!(s.current_animation, None);
}

#[test]
fn p7_toggle_on_then_off_without_a_tick_changes_nothing() {
    let mut s = State::default();
    let before = s;
    s.handle_event(press(Key::Space, SHIFT), T0);
    assert!(s.current_animation.is_some());
    s.handle_event(press(Key::Space, NO_MODS), T0 + 1);
    assert_eq!(s, before);
}

#[test]
fn ticks_drift_the_factor_by_the_animation_speed() {
    let mut s = State::default();
    s.handle_event(press(Key::Space, NO_MODS), T0);
    assert_eq!(s.current_animation, Some(Animation::Factor(2)));
    let o = s.handle_event(Event::Tick, T0 + 1);
    assert!(o.needs_redraw);
    assert_eq!(s.factor_millis, DEFAULT_FACTOR_MILLIS + 2);
    s.handle_event(Event::Tick, T0 + 2);
    assert_eq!(s.factor_millis, DEFAULT_FACTOR_MILLIS + 4);
}

#[test]
fn ticks_drift_divisions_and_clamp_at_zero() {
    let mut s = State::default();
    s.divisions = 15;
    s.current_animation = Some(Animation::Divisions(-10));
    s.handle_event(Event::Tick, T0);
    assert_eq!(s.divisions, 5);
    s.handle_event(Event::Tick, T0 + 1);
    assert_eq!(s.divisions, 0);
    s.handle_event(Event::Tick, T0 + 2);
    assert_eq!(s.divisions, 0);
}

#[test]
fn ticks_are_not_rate_limited() {
    let mut s = State::default();
    s.current_animation = Some(Animation::Factor(1));
    s.handle_event(Event::Tick, T0);
    s.handle_event(Event::Tick, T0);
    s.handle_event(Event::Tick, T0);
    assert_eq!(s.factor_millis, DEFAULT_FACTOR_MILLIS + 3);
}

#[test]
fn tick_without_an_animation_only_redraws() {
    let mut s = State::default();
    let o = s.handle_event(Event::Tick, T0);
    assert!(o.needs_redraw);
    assert_eq!(s, State::default());
}

#[test]
fn p6_escape_restores_defaults_and_keeps_the_animation() {
    let mut s = State::default();
    s.handle_event(wheel(5, CTRL_SHIFT), T0);
    s.handle_event(press(Key::Space, SHIFT), T0 + 1);
    s.handle_event(Event::Tick, T0 + 2);
    assert_ne!(s.factor_millis, DEFAULT_FACTOR_MILLIS);
    assert_ne!(s.divisions, DEFAULT_DIVISIONS);

    let o = s.handle_event(press(Key::Escape, NO_MODS), T0 + 3);
    assert!(o.continue_running && o.needs_redraw && !o.toggle_timer);
    assert_eq!(s.scale_millis, DEFAULT_SCALE_MILLIS);
    assert_eq!(s.divisions, DEFAULT_DIVISIONS);
    assert_eq!(s.factor_millis, DEFAULT_FACTOR_MILLIS);
    assert_eq!(
        s.current_animation,
        Some(Animation::Factor(2 * COARSE_ANIMATION_SPEED))
    );
}

#[test]
fn p6_escape_with_no_animation_leaves_none() {
    let mut s = State::default();
    s.handle_event(wheel(3, NO_MODS), T0);
    let o = s.handle_event(press(Key::Escape, NO_MODS), T0 + 1);
    assert!(o.needs_redraw);
    assert_eq!(s.current_animation, None);
    assert_eq!(s.divisions, DEFAULT_DIVISIONS);
    assert_eq!(s.factor_millis, DEFAULT_FACTOR_MILLIS);
}

#[test]
fn escape_stamps_the_rate_limiter_with_the_reset_time() {
    let mut s = State::default();
    s.handle_event(press(Key::Escape, NO_MODS), T0);
    assert_eq!(s.last_mutation_micros, T0);
    let o = s.handle_event(wheel(1, NO_MODS), T0 + 1);
    assert!(!o.needs_redraw);
    assert_eq!(s.factor_millis, DEFAULT_FACTOR_MILLIS);
}

#[test]
fn factor_saturates_instead_of_overflowing() {
    let mut s = State::default();
    s.factor_millis = i64::MAX - 5;
    s.current_animation = Some(Animation::Factor(100));
    s.handle_event(Event::Tick, T0);
    assert_eq!(s.factor_millis, i64::MAX);

    s.factor_millis = i64::MIN + 5;
    s.current_animation = Some(Animation::Factor(-100));
    s.handle_event(Event::Tick, T0 + 1);
    assert_eq!(s.factor_millis, i64::MIN);
}

#[test]
fn divisions_saturate_at_the_top_of_their_range() {
    let mut s = State::default();
    s.divisions = u16::MAX - 3;
    s.handle_event(wheel(1, CTRL_SHIFT), T0);
    assert_eq!(s.divisions, u16::MAX);
}
