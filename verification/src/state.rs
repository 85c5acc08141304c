//! The interactive state machine of the visualization.
//!
//! A [`State`] owns the visualization parameters together with the animation
//! and rate-limiting bookkeeping. One entry point, [`State::handle_event`],
//! consumes an abstract input [`Event`] plus the current monotonic time and
//! mutates the state, reporting whether the run loop continues, whether a
//! redraw is due, and whether the background tick timer must be toggled.
//!
//! Fixed-point conventions: `factor` and `scale` are carried in thousandths
//! (so `2000` means `2.0`), timestamps in microseconds. Every transition is
//! specified by a spec-level twin (`step_spec` and its helpers), and each
//! executable method ensures that it computes exactly that twin.

use vstd::prelude::*;

verus! {

/// Minimum spacing between two discrete (scroll/key) mutations, in
/// microseconds: one frame at 60 Hz.
pub const FRAME_INTERVAL_MICROS: u64 = 16667;

/// Default circle radius in thousandths of a normalized device coordinate.
pub const DEFAULT_SCALE_MILLIS: u32 = 900;

/// Default number of points on the circle.
pub const DEFAULT_DIVISIONS: u16 = 100;

/// Default multiplier, in thousandths (`2000` is a factor of `2.0`).
pub const DEFAULT_FACTOR_MILLIS: i64 = 2000;

/// Fine step applied to `factor` per scroll line or key press, in
/// thousandths (`10` is `0.01`).
pub const FINE_FACTOR_STEP_MILLIS: i64 = 10;

/// Coarse (shift-held) step applied to `factor`, in thousandths (`0.2`).
pub const COARSE_FACTOR_STEP_MILLIS: i64 = 200;

/// Fine step applied to `divisions` per scroll line or key press.
pub const FINE_DIVISIONS_STEP: i64 = 1;

/// Coarse (shift-held) step applied to `divisions`.
pub const COARSE_DIVISIONS_STEP: i64 = 10;

/// Animation speed chosen without shift held.
pub const FINE_ANIMATION_SPEED: i64 = 1;

/// Animation speed chosen with shift held.
pub const COARSE_ANIMATION_SPEED: i64 = 10;

/// Per-tick drift of `factor`, in thousandths, per unit of animation speed:
/// `2` keeps the factor drift visually gentle (`0.002` per tick).
pub const FACTOR_ANIMATION_STEP_MILLIS: i64 = 2;

/// The modifier keys held while an input event fires.
#[derive(Clone, Copy, Debug, PartialEq, Eq, Structural)]
pub struct Modifiers {
    pub ctrl: bool,
    pub shift: bool,
    pub alt: bool,
}

/// The virtual keys the state machine reacts to; every other key is `Other`.
#[derive(Clone, Copy, Debug, PartialEq, Eq, Structural)]
pub enum Key {
    Up,
    Down,
    Left,
    Right,
    Add,
    Subtract,
    Space,
    A,
    Escape,
    Other,
}

/// An abstract input event, as the run loop hands it to the state machine.
///
/// `MouseWheel::amount` is the scroll delta in whole lines (positive is up);
/// `Tick` is the synthetic wake event the background timer injects while an
/// animation runs.
#[derive(Clone, Copy, Debug, PartialEq, Eq, Structural)]
pub enum Event {
    CloseRequested,
    Refresh,
    MouseWheel { amount: i64, modifiers: Modifiers },
    KeyInput { key: Key, pressed: bool, modifiers: Modifiers },
    Tick,
    Other,
}

/// An in-progress continuous drift of one parameter.
///
/// `Factor(speed)` adds `speed` thousandths to the factor each tick;
/// `Divisions(speed)` adds `speed` points each tick, clamped to stay
/// non-negative.
#[derive(Clone, Copy, Debug, PartialEq, Eq, Structural)]
pub enum Animation {
    Factor(i64),
    Divisions(i64),
}

/// The visualization parameters plus animation and rate-limit bookkeeping.
#[derive(Clone, Copy, Debug, PartialEq)]
pub struct State {
    /// Circle radius in thousandths of a normalized device coordinate.
    pub scale_millis: u32,
    /// Number of points on the circle.
    pub divisions: u16,
    /// Multiplier in thousandths; unclamped, may go negative or saturate at
    /// the `i64` range.
    pub factor_millis: i64,
    /// The active animation, if any.
    pub current_animation: Option<Animation>,
    /// Monotonic time of the last successful discrete mutation, in
    /// microseconds.
    pub last_mutation_micros: u64,
}

/// What one handled event asks of the run loop.
#[derive(Clone, Copy, Debug, PartialEq, Eq, Structural)]
pub struct EventOutcome {
    /// `false` only on a window close request.
    pub continue_running: bool,
    /// The renderer must redraw from the current state.
    pub needs_redraw: bool,
    /// The background tick timer must flip between running and stopped.
    pub toggle_timer: bool,
}

/// The state a freshly started visualization holds.
pub open spec fn default_spec() -> State {
    State {
        scale_millis: DEFAULT_SCALE_MILLIS,
        divisions: DEFAULT_DIVISIONS,
        factor_millis: DEFAULT_FACTOR_MILLIS,
        current_animation: None,
        last_mutation_micros: 0,
    }
}

/// `v` clamped into the `u16` range.
pub open spec fn clamp_u16(v: int) -> u16 {
    if v < 0 {
        0u16
    } else if v > u16::MAX {
        u16::MAX
    } else {
        v as u16
    }
}

/// `v` clamped into the `i64` range.
pub open spec fn clamp_i64(v: int) -> i64 {
    if v < i64::MIN {
        i64::MIN
    } else if v > i64::MAX {
        i64::MAX
    } else {
        v as i64
    }
}

/// A discrete mutation at time `now` passes the rate limiter exactly when a
/// full frame interval has elapsed since the previous successful mutation.
pub open spec fn mutation_allowed(s: State, now: u64) -> bool {
    now >= s.last_mutation_micros + FRAME_INTERVAL_MICROS
}

/// The step a manipulation applies to `divisions`, per unit of `amount`.
pub open spec fn divisions_step(mods: Modifiers) -> int {
    if mods.shift {
        COARSE_DIVISIONS_STEP as int
    } else {
        FINE_DIVISIONS_STEP as int
    }
}

/// The step a manipulation applies to `factor`, in thousandths, per unit of
/// `amount`.
pub open spec fn factor_step_millis(mods: Modifiers) -> int {
    if mods.shift {
        COARSE_FACTOR_STEP_MILLIS as int
    } else {
        FINE_FACTOR_STEP_MILLIS as int
    }
}

/// One discrete mutation attempt: the successor state and whether anything
/// was mutated (equivalently, whether the rate limiter let the call pass).
///
/// With ctrl held the mutation targets `divisions` (clamped non-negative and
/// to the `u16` range); otherwise it targets `factor` (saturating at the
/// `i64` range). A successful mutation stamps `last_mutation_micros`.
pub open spec fn manipulate_spec(s: State, amount: i64, mods: Modifiers, now: u64) -> (State, bool) {
    if !mutation_allowed(s, now) {
        (s, false)
    } else if mods.ctrl {
        (
            State {
                divisions: clamp_u16(s.divisions + amount * divisions_step(mods)),
                last_mutation_micros: now,
                ..s
            },
            true,
        )
    } else {
        (
            State {
                factor_millis: clamp_i64(s.factor_millis + amount * factor_step_millis(mods)),
                last_mutation_micros: now,
                ..s
            },
            true,
        )
    }
}

/// One animation tick: the bound parameter drifts by the animation's speed.
/// `divisions` stays clamped non-negative; `factor` saturates at the `i64`
/// range. Ticks are paced by the timer driver and bypass the rate limiter.
pub open spec fn tick_spec(s: State) -> State {
    match s.current_animation {
        Some(Animation::Factor(speed)) => State {
            factor_millis: clamp_i64(s.factor_millis + speed),
            ..s
        },
        Some(Animation::Divisions(speed)) => State {
            divisions: clamp_u16(s.divisions + speed),
            ..s
        },
        None => s,
    }
}

/// The animation that a toggle with modifiers `mods` starts from idle:
/// speed 10 with shift held, else 1, negated with alt held; bound to
/// `divisions` with ctrl held, else to `factor` scaled down to a gentle
/// per-tick drift.
pub open spec fn started_animation_spec(mods: Modifiers) -> Animation {
    let magnitude: int = if mods.shift {
        COARSE_ANIMATION_SPEED as int
    } else {
        FINE_ANIMATION_SPEED as int
    };
    let speed: int = if mods.alt {
        -magnitude
    } else {
        magnitude
    };
    if mods.ctrl {
        Animation::Divisions(speed as i64)
    } else {
        Animation::Factor((speed * FACTOR_ANIMATION_STEP_MILLIS) as i64)
    }
}

/// An animation toggle: cancel the active animation, or start the one
/// `mods` selects. Nothing but `current_animation` changes.
pub open spec fn toggle_animation_spec(s: State, mods: Modifiers) -> State {
    match s.current_animation {
        Some(_) => State { current_animation: None, ..s },
        None => State { current_animation: Some(started_animation_spec(mods)), ..s },
    }
}

/// A full reset: every parameter returns to its default, the rate limiter
/// is stamped with the reset time, and an in-progress animation is carried
/// over untouched.
pub open spec fn reset_spec(s: State, now: u64) -> State {
    State {
        current_animation: s.current_animation,
        last_mutation_micros: now,
        ..default_spec()
    }
}

/// Shorthand for an [`EventOutcome`].
pub open spec fn outcome_spec(continue_running: bool, needs_redraw: bool, toggle_timer: bool) -> EventOutcome {
    EventOutcome { continue_running, needs_redraw, toggle_timer }
}

/// The effect of one key event. Only presses act: Up/Right/Add manipulate
/// by `+1`, Down/Left/Subtract by `-1` (redraw exactly when the rate
/// limiter let the mutation pass), Space/A toggle the animation and the
/// timer, Escape resets; releases and other keys change nothing.
pub open spec fn key_input_spec(s: State, key: Key, pressed: bool, mods: Modifiers, now: u64) -> (State, EventOutcome) {
    if !pressed {
        (s, outcome_spec(true, false, false))
    } else {
        match key {
            Key::Up | Key::Right | Key::Add => {
                let (s2, mutated) = manipulate_spec(s, 1i64, mods, now);
                (s2, outcome_spec(true, mutated, false))
            },
            Key::Down | Key::Left | Key::Subtract => {
                let (s2, mutated) = manipulate_spec(s, -1i64, mods, now);
                (s2, outcome_spec(true, mutated, false))
            },
            Key::Space | Key::A => (toggle_animation_spec(s, mods), outcome_spec(true, true, true)),
            Key::Escape => (reset_spec(s, now), outcome_spec(true, true, false)),
            Key::Other => (s, outcome_spec(true, false, false)),
        }
    }
}

/// The whole transition relation of the state machine: the successor state
/// and the outcome for one event arriving at time `now`.
pub open spec fn step_spec(s: State, event: Event, now: u64) -> (State, EventOutcome) {
    match event {
        Event::CloseRequested => (s, outcome_spec(false, false, false)),
        Event::Refresh => (s, outcome_spec(true, true, false)),
        Event::MouseWheel { amount, modifiers } => {
            let (s2, mutated) = manipulate_spec(s, amount, modifiers, now);
            (s2, outcome_spec(true, mutated, false))
        },
        Event::KeyInput { key, pressed, modifiers } => key_input_spec(s, key, pressed, modifiers, now),
        Event::Tick => (tick_spec(s), outcome_spec(true, true, false)),
        Event::Other => (s, outcome_spec(true, false, false)),
    }
}

impl Default for State {
    /// The startup state: scale `0.9`, `100` divisions, factor `2.0`, no
    /// animation, and the rate limiter anchored at time zero.
    fn default() -> (s: State)
        ensures
            s == default_spec(),
    {
        State {
            scale_millis: DEFAULT_SCALE_MILLIS,
            divisions: DEFAULT_DIVISIONS,
            factor_millis: DEFAULT_FACTOR_MILLIS,
            current_animation: None,
            last_mutation_micros: 0,
        }
    }
}

impl State {
    /// Applies one discrete mutation of `amount` input units under `mods`,
    /// unless the rate limiter swallows it; reports whether anything
    /// changed.
    pub fn manipulate(&mut self, amount: i64, mods: Modifiers, now_micros: u64) -> (mutated: bool)
        ensures
            *final(self) == manipulate_spec(*old(self), amount, mods, now_micros).0,
            mutated == manipulate_spec(*old(self), amount, mods, now_micros).1,
    {
        let since_last_ok: bool = now_micros >= self.last_mutation_micros
            && now_micros - self.last_mutation_micros >= FRAME_INTERVAL_MICROS;
        if !since_last_ok {
            return false;
        }
        if mods.ctrl {
            let step: i64 = if mods.shift {
                COARSE_DIVISIONS_STEP
            } else {
                FINE_DIVISIONS_STEP
            };
            let wide: i128 = self.divisions as i128 + scaled_amount(amount, step);
            self.divisions = if wide < 0 {
                0
            } else if wide > u16::MAX as i128 {
                u16::MAX
            } else {
                wide as u16
            };
        } else {
            let step: i64 = if mods.shift {
                COARSE_FACTOR_STEP_MILLIS
            } else {
                FINE_FACTOR_STEP_MILLIS
            };
            let wide: i128 = self.factor_millis as i128 + scaled_amount(amount, step);
            self.factor_millis = if wide < i64::MIN as i128 {
                i64::MIN
            } else if wide > i64::MAX as i128 {
                i64::MAX
            } else {
                wide as i64
            };
        }
        self.last_mutation_micros = now_micros;
        true
    }

    /// Applies one step of the active animation to its bound parameter;
    /// does nothing when idle.
    fn handle_animation(&mut self)
        ensures
            *final(self) == tick_spec(*old(self)),
    {
        match self.current_animation {
            Some(Animation::Factor(speed)) => {
                let wide: i128 = self.factor_millis as i128 + speed as i128;
                self.factor_millis = if wide < i64::MIN as i128 {
                    i64::MIN
                } else if wide > i64::MAX as i128 {
                    i64::MAX
                } else {
                    wide as i64
                };
            },
            Some(Animation::Divisions(speed)) => {
                let wide: i128 = self.divisions as i128 + speed as i128;
                self.divisions = if wide < 0 {
                    0
                } else if wide > u16::MAX as i128 {
                    u16::MAX
                } else {
                    wide as u16
                };
            },
            None => {},
        }
    }

    /// Cancels the active animation or starts the one `mods` selects.
    fn toggle_animation(&mut self, mods: Modifiers)
        ensures
            *final(self) == toggle_animation_spec(*old(self), mods),
    {
        match self.current_animation {
            Some(_) => {
                self.current_animation = None;
            },
            None => {
                let magnitude: i64 = if mods.shift {
                    COARSE_ANIMATION_SPEED
                } else {
                    FINE_ANIMATION_SPEED
                };
                let speed: i64 = if mods.alt {
                    -magnitude
                } else {
                    magnitude
                };
                let animation: Animation = if mods.ctrl {
                    Animation::Divisions(speed)
                } else {
                    Animation::Factor(speed * FACTOR_ANIMATION_STEP_MILLIS)
                };
                self.current_animation = Some(animation);
            },
        }
    }

    /// Resets every parameter to its default while carrying the active
    /// animation over.
    fn reset(&mut self, now_micros: u64)
        ensures
            *final(self) == reset_spec(*old(self), now_micros),
    {
        let carried: Option<Animation> = self.current_animation;
        *self = State {
            current_animation: carried,
            last_mutation_micros: now_micros,
            ..State::default()
        };
    }

    /// Handles one key event as [`key_input_spec`] lays it out.
    fn on_key_input(&mut self, key: Key, pressed: bool, mods: Modifiers, now_micros: u64) -> (r: EventOutcome)
        ensures
            *final(self) == key_input_spec(*old(self), key, pressed, mods, now_micros).0,
            r == key_input_spec(*old(self), key, pressed, mods, now_micros).1,
    {
        if !pressed {
            return EventOutcome { continue_running: true, needs_redraw: false, toggle_timer: false };
        }
        match key {
            Key::Up | Key::Right | Key::Add => {
                let mutated: bool = self.manipulate(1, mods, now_micros);
                EventOutcome { continue_running: true, needs_redraw: mutated, toggle_timer: false }
            },
            Key::Down | Key::Left | Key::Subtract => {
                let mutated: bool = self.manipulate(-1, mods, now_micros);
                EventOutcome { continue_running: true, needs_redraw: mutated, toggle_timer: false }
            },
            Key::Space | Key::A => {
                self.toggle_animation(mods);
                EventOutcome { continue_running: true, needs_redraw: true, toggle_timer: true }
            },
            Key::Escape => {
                self.reset(now_micros);
                EventOutcome { continue_running: true, needs_redraw: true, toggle_timer: false }
            },
            Key::Other => {
                EventOutcome { continue_running: true, needs_redraw: false, toggle_timer: false }
            },
        }
    }

    /// The single entry point of the state machine: consumes one event at
    /// monotonic time `now_micros` and computes exactly the transition that
    /// [`step_spec`] assigns to it.
    pub fn handle_event(&mut self, event: Event, now_micros: u64) -> (r: EventOutcome)
        ensures
            *final(self) == step_spec(*old(self), event, now_micros).0,
            r == step_spec(*old(self), event, now_micros).1,
    {
        match event {
            Event::CloseRequested => {
                EventOutcome { continue_running: false, needs_redraw: false, toggle_timer: false }
            },
            Event::Refresh => {
                EventOutcome { continue_running: true, needs_redraw: true, toggle_timer: false }
            },
            Event::MouseWheel { amount, modifiers } => {
                let mutated: bool = self.manipulate(amount, modifiers, now_micros);
                EventOutcome { continue_running: true, needs_redraw: mutated, toggle_timer: false }
            },
            Event::KeyInput { key, pressed, modifiers } => {
                self.on_key_input(key, pressed, modifiers, now_micros)
            },
            Event::Tick => {
                self.handle_animation();
                EventOutcome { continue_running: true, needs_redraw: true, toggle_timer: false }
            },
            Event::Other => {
                EventOutcome { continue_running: true, needs_redraw: false, toggle_timer: false }
            },
        }
    }
}

/// Rate limiting: of two manipulations inside one frame interval only the
/// first mutates — the second leaves the state exactly as it was and asks
/// for no redraw — while a third issued once the interval has elapsed
/// mutates again, whatever its amount and modifiers.
pub proof fn lemma_rate_limiting(
    s: State,
    a1: i64, m1: Modifiers, t1: u64,
    a2: i64, m2: Modifiers, t2: u64,
    a3: i64, m3: Modifiers, t3: u64,
)
    requires
        mutation_allowed(s, t1),
        t2 < t1 + FRAME_INTERVAL_MICROS,
        t3 >= t1 + FRAME_INTERVAL_MICROS,
    ensures
        manipulate_spec(s, a1, m1, t1).1,
        ({
            let s1 = manipulate_spec(s, a1, m1, t1).0;
            manipulate_spec(s1, a2, m2, t2) == (s1, false)
        }),
        ({
            let s1 = manipulate_spec(s, a1, m1, t1).0;
            manipulate_spec(s1, a3, m3, t3).1
        }),
{
}

/// Reset restores every default — scale `0.9`, `100` divisions, factor
/// `2.0` — while carrying the active animation over unchanged; with no
/// active animation the reset state is idle too.
pub proof fn lemma_reset_preserves_animation(s: State, now: u64)
    ensures
        reset_spec(s, now).scale_millis == DEFAULT_SCALE_MILLIS,
        reset_spec(s, now).divisions == DEFAULT_DIVISIONS,
        reset_spec(s, now).factor_millis == DEFAULT_FACTOR_MILLIS,
        reset_spec(s, now).current_animation == s.current_animation,
{
}

/// Toggling the animation on and then off again, with no tick received in
/// between, hands back exactly the starting state: in particular `factor`
/// and `divisions` are untouched and the machine is idle again.
pub proof fn lemma_toggle_on_off_is_identity(s: State, mods_on: Modifiers, mods_off: Modifiers)
    requires
        s.current_animation is None,
    ensures
        toggle_animation_spec(toggle_animation_spec(s, mods_on), mods_off) == s,
{
}

/// The timer driver is toggled exactly by the animation toggle keys: an
/// event's outcome carries `toggle_timer` if and only if it is a press of
/// Space or A.
pub proof fn lemma_timer_toggled_exactly_on_toggle_keys(s: State, event: Event, now: u64)
    ensures
        step_spec(s, event, now).1.toggle_timer <==> matches!(event, Event::KeyInput {
            key: Key::Space | Key::A,
            pressed: true,
            ..
        }),
{
}

/// `amount * step` computed exactly, widened so that no admissible pair can
/// overflow.
fn scaled_amount(amount: i64, step: i64) -> (r: i128)
    requires
        0 < step <= 1000,
    ensures
        r == amount * step,
        i64::MIN * 1000 <= r <= i64::MAX * 1000,
{
    proof {
        assert(amount * step <= i64::MAX * 1000 && amount * step >= i64::MIN * 1000)
            by (nonlinear_arith)
            requires
                i64::MIN <= amount <= i64::MAX,
                0 < step <= 1000,
        ;
    }
    amount as i128 * step as i128
}

} // verus!
