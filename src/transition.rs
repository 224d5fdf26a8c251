//! The per-actuator state machine shared by relays and smart lights.
//!
//! An actuator is Off, TimedOn (`override_mode == false`, `stop_after` set) or
//! OverrideOn (`override_mode == true`). Each event is a pure function from
//! the current `ActuatorState` to the next one and an `Outcome` that says
//! what happened, so that callers can log it and count toggles.
use vstd::prelude::*;
use crate::device::{DEFAULT_PIR_PROLONG_MS, DEFAULT_SWITCH_HOLD_MS, MIN_TOGGLE_DELAY_MS};
use crate::text::same_text;

verus! {

/// The logical category of a sensor, from its kind code.
#[derive(Clone, Copy, Debug, PartialEq, Eq, Structural)]
pub enum SensorKind {
    PirTrigger,
    Switch,
    Other,
}

pub open spec fn kind_of_code(code: Seq<char>) -> SensorKind {
    if code == "PIR_Trigger"@ {
        SensorKind::PirTrigger
    } else if code == "Switch"@ {
        SensorKind::Switch
    } else {
        SensorKind::Other
    }
}

/// Resolves a kind code (`PIR_Trigger`, `Switch`, ...) to its category.
pub fn kind_from_code(code: &str) -> (r: SensorKind)
    ensures
        r == kind_of_code(code@),
{
    if same_text(code, "PIR_Trigger") {
        SensorKind::PirTrigger
    } else if same_text(code, "Switch") {
        SensorKind::Switch
    } else {
        SensorKind::Other
    }
}

/// What an event did to an actuator.
#[derive(Clone, Copy, Debug, PartialEq, Eq, Structural)]
pub enum Outcome {
    /// The event does not concern this actuator in its state.
    Unchanged,
    /// Ignored by flip-flop protection: the actuator toggled too recently.
    Blocked,
    TurnedOn,
    TurnedOff,
    Toggled,
    /// Already on: its timer was extended (or deliberately left alone).
    Prolonged,
    /// Its timer ran out while it was already off: the timer state was cleared.
    Expired,
}

/// The mutable state of a relay or light: whether it is on, and its timer.
#[derive(Clone, Copy, Debug, PartialEq, Eq, Structural)]
pub struct ActuatorState {
    pub on: bool,
    pub override_mode: bool,
    pub last_toggled: Option<u64>,
    pub stop_after: Option<u64>,
}

/// The configuration that the rules read.
#[derive(Clone, Copy, Debug, PartialEq, Eq, Structural)]
pub struct HoldConfig {
    pub pir_exclude: bool,
    pub pir_all_day: bool,
    pub pir_hold_ms: u64,
    pub switch_hold_ms: u64,
}

/// Time from `since` to `now`, zero if `now` is earlier.
pub open spec fn elapsed(since: u64, now: u64) -> u64 {
    if now >= since {
        (now - since) as u64
    } else {
        0
    }
}

/// Time since the last toggle, zero if there was none.
pub open spec fn since_toggle(last_toggled: Option<u64>, now: u64) -> u64 {
    match last_toggled {
        Some(t) => elapsed(t, now),
        None => 0,
    }
}

/// Flip-flop protection is active: the last toggle was less than
/// `MIN_TOGGLE_DELAY_MS` ago.
pub open spec fn flipflop_blocked(last_toggled: Option<u64>, now: u64) -> bool {
    match last_toggled {
        Some(t) => elapsed(t, now) < MIN_TOGGLE_DELAY_MS,
        None => false,
    }
}

pub open spec fn sat_add(a: u64, b: u64) -> u64 {
    if a + b > u64::MAX {
        u64::MAX
    } else {
        (a + b) as u64
    }
}

/// The timer after a prolonging event on an actuator that is on, `el` after
/// its last toggle, with hold time `hold`. In override mode the timer is only
/// moved once less than the prolong window (`DEFAULT_PIR_PROLONG_MS`, or
/// `hold` if longer) is left of the switch hold time.
pub open spec fn prolonged(
    override_mode: bool,
    el: u64,
    hold: u64,
    switch_hold: u64,
    stop_after: Option<u64>,
) -> Option<u64> {
    if override_mode {
        let p = if DEFAULT_PIR_PROLONG_MS > hold {
            DEFAULT_PIR_PROLONG_MS
        } else {
            hold
        };
        if switch_hold > p && el > switch_hold - p {
            Some(sat_add(el, p))
        } else {
            stop_after
        }
    } else {
        Some(sat_add(el, hold))
    }
}

/// A motion sensor reporting `sensor_on`. The actuator reacts when the
/// motion is on and it is in override mode, or it is not excluded from
/// motion and it is night or it reacts all day.
pub open spec fn pir_next(
    s: ActuatorState,
    c: HoldConfig,
    sensor_on: bool,
    night: bool,
    now: u64,
) -> (ActuatorState, Outcome) {
    if !(sensor_on && (s.override_mode || (!c.pir_exclude && (night || c.pir_all_day)))) {
        (s, Outcome::Unchanged)
    } else if flipflop_blocked(s.last_toggled, now) {
        (s, Outcome::Blocked)
    } else if !s.override_mode && !s.on {
        (ActuatorState { on: true, stop_after: Some(c.pir_hold_ms), ..s }, Outcome::TurnedOn)
    } else {
        (
            ActuatorState {
                stop_after: prolonged(
                    s.override_mode,
                    since_toggle(s.last_toggled, now),
                    c.pir_hold_ms,
                    c.switch_hold_ms,
                    s.stop_after,
                ),
                ..s
            },
            Outcome::Prolonged,
        )
    }
}

/// A wall switch changed: the actuator flips and enters override mode.
pub open spec fn switch_next(s: ActuatorState, c: HoldConfig, now: u64) -> (
    ActuatorState,
    Outcome,
) {
    if flipflop_blocked(s.last_toggled, now) {
        (s, Outcome::Blocked)
    } else {
        (
            ActuatorState {
                on: !s.on,
                override_mode: true,
                stop_after: Some(c.switch_hold_ms),
                ..s
            },
            Outcome::Toggled,
        )
    }
}

/// Hold time of an external turn-on: the explicit duration, else a
/// non-default switch hold time, else the motion hold time.
pub open spec fn task_hold(c: HoldConfig, duration: Option<u64>) -> u64 {
    match duration {
        Some(d) => d,
        None => if c.switch_hold_ms != DEFAULT_SWITCH_HOLD_MS {
            c.switch_hold_ms
        } else {
            c.pir_hold_ms
        },
    }
}

/// An external request to turn on or prolong; it behaves as motion would,
/// with the hold time `task_hold`, and stamps the toggle time itself.
pub open spec fn turn_on_prolong_next(
    s: ActuatorState,
    c: HoldConfig,
    duration: Option<u64>,
    now: u64,
) -> (ActuatorState, Outcome) {
    let d = task_hold(c, duration);
    if flipflop_blocked(s.last_toggled, now) {
        (s, Outcome::Blocked)
    } else if !s.override_mode && !s.on {
        (
            ActuatorState { on: true, last_toggled: Some(now), stop_after: Some(d), ..s },
            Outcome::TurnedOn,
        )
    } else {
        (
            ActuatorState {
                stop_after: prolonged(
                    s.override_mode,
                    since_toggle(s.last_toggled, now),
                    d,
                    c.switch_hold_ms,
                    s.stop_after,
                ),
                ..s
            },
            Outcome::Prolonged,
        )
    }
}

/// An external request to turn off.
pub open spec fn turn_off_next(s: ActuatorState, now: u64) -> (ActuatorState, Outcome) {
    if !s.on {
        (s, Outcome::Unchanged)
    } else if flipflop_blocked(s.last_toggled, now) {
        (s, Outcome::Blocked)
    } else {
        (
            ActuatorState {
                on: false,
                override_mode: false,
                last_toggled: Some(now),
                stop_after: None,
            },
            Outcome::TurnedOff,
        )
    }
}

/// The timer of an actuator has run out: more than both the flip-flop delay
/// and `stop_after` have passed since its last toggle.
pub open spec fn timer_expired(s: ActuatorState, now: u64) -> bool {
    match (s.last_toggled, s.stop_after) {
        (Some(t), Some(stop)) => elapsed(t, now) > MIN_TOGGLE_DELAY_MS && elapsed(t, now) > stop,
        _ => false,
    }
}

/// The auto-off sweep: an expired actuator goes off and loses its timer.
pub open spec fn sweep_next(s: ActuatorState, now: u64) -> (ActuatorState, Outcome) {
    if timer_expired(s, now) {
        (
            ActuatorState { on: false, override_mode: false, last_toggled: None, stop_after: None },
            if s.on {
                Outcome::TurnedOff
            } else {
                Outcome::Expired
            },
        )
    } else {
        (s, Outcome::Unchanged)
    }
}

/// Time from `since` to `now`, zero if `now` is earlier.
pub fn elapsed_ms(since: u64, now: u64) -> (r: u64)
    ensures
        r == elapsed(since, now),
{
    if now >= since {
        now - since
    } else {
        0
    }
}

fn since_toggle_ms(last_toggled: Option<u64>, now: u64) -> (r: u64)
    ensures
        r == since_toggle(last_toggled, now),
{
    match last_toggled {
        Some(t) => elapsed_ms(t, now),
        None => 0,
    }
}

/// Whether flip-flop protection blocks a toggle at `now`.
pub fn is_flipflop_blocked(last_toggled: Option<u64>, now: u64) -> (r: bool)
    ensures
        r == flipflop_blocked(last_toggled, now),
{
    match last_toggled {
        Some(t) => elapsed_ms(t, now) < MIN_TOGGLE_DELAY_MS,
        None => false,
    }
}

fn prolong_timer(
    override_mode: bool,
    el: u64,
    hold: u64,
    switch_hold: u64,
    stop_after: Option<u64>,
) -> (r: Option<u64>)
    ensures
        r == prolonged(override_mode, el, hold, switch_hold, stop_after),
{
    if override_mode {
        let p = if DEFAULT_PIR_PROLONG_MS > hold {
            DEFAULT_PIR_PROLONG_MS
        } else {
            hold
        };
        if switch_hold > p && el > switch_hold - p {
            Some(el.saturating_add(p))
        } else {
            stop_after
        }
    } else {
        Some(el.saturating_add(hold))
    }
}

/// Reacts to a motion sensor report.
pub fn on_pir(s: ActuatorState, c: HoldConfig, sensor_on: bool, night: bool, now: u64) -> (r: (
    ActuatorState,
    Outcome,
))
    ensures
        r == pir_next(s, c, sensor_on, night, now),
{
    if !(sensor_on && (s.override_mode || (!c.pir_exclude && (night || c.pir_all_day)))) {
        (s, Outcome::Unchanged)
    } else if is_flipflop_blocked(s.last_toggled, now) {
        (s, Outcome::Blocked)
    } else if !s.override_mode && !s.on {
        (ActuatorState { on: true, stop_after: Some(c.pir_hold_ms), ..s }, Outcome::TurnedOn)
    } else {
        let el = since_toggle_ms(s.last_toggled, now);
        (
            ActuatorState {
                stop_after: prolong_timer(
                    s.override_mode,
                    el,
                    c.pir_hold_ms,
                    c.switch_hold_ms,
                    s.stop_after,
                ),
                ..s
            },
            Outcome::Prolonged,
        )
    }
}

/// Reacts to a wall switch change.
pub fn on_switch(s: ActuatorState, c: HoldConfig, now: u64) -> (r: (ActuatorState, Outcome))
    ensures
        r == switch_next(s, c, now),
{
    if is_flipflop_blocked(s.last_toggled, now) {
        (s, Outcome::Blocked)
    } else {
        (
            ActuatorState {
                on: !s.on,
                override_mode: true,
                stop_after: Some(c.switch_hold_ms),
                ..s
            },
            Outcome::Toggled,
        )
    }
}

/// Reacts to an external turn-on-or-prolong request.
pub fn on_turn_on_prolong(s: ActuatorState, c: HoldConfig, duration: Option<u64>, now: u64) -> (r: (
    ActuatorState,
    Outcome,
))
    ensures
        r == turn_on_prolong_next(s, c, duration, now),
{
    let d = match duration {
        Some(d) => d,
        None => if c.switch_hold_ms != DEFAULT_SWITCH_HOLD_MS {
            c.switch_hold_ms
        } else {
            c.pir_hold_ms
        },
    };
    if is_flipflop_blocked(s.last_toggled, now) {
        (s, Outcome::Blocked)
    } else if !s.override_mode && !s.on {
        (
            ActuatorState { on: true, last_toggled: Some(now), stop_after: Some(d), ..s },
            Outcome::TurnedOn,
        )
    } else {
        let el = since_toggle_ms(s.last_toggled, now);
        (
            ActuatorState {
                stop_after: prolong_timer(s.override_mode, el, d, c.switch_hold_ms, s.stop_after),
                ..s
            },
            Outcome::Prolonged,
        )
    }
}

/// Reacts to an external turn-off request.
pub fn on_turn_off(s: ActuatorState, now: u64) -> (r: (ActuatorState, Outcome))
    ensures
        r == turn_off_next(s, now),
{
    if !s.on {
        (s, Outcome::Unchanged)
    } else if is_flipflop_blocked(s.last_toggled, now) {
        (s, Outcome::Blocked)
    } else {
        (
            ActuatorState {
                on: false,
                override_mode: false,
                last_toggled: Some(now),
                stop_after: None,
            },
            Outcome::TurnedOff,
        )
    }
}

/// The auto-off sweep for one actuator.
pub fn on_sweep(s: ActuatorState, now: u64) -> (r: (ActuatorState, Outcome))
    ensures
        r == sweep_next(s, now),
{
    let expired = match (s.last_toggled, s.stop_after) {
        (Some(t), Some(stop)) => {
            let el = elapsed_ms(t, now);
            el > MIN_TOGGLE_DELAY_MS && el > stop
        },
        _ => false,
    };
    if expired {
        (
            ActuatorState { on: false, override_mode: false, last_toggled: None, stop_after: None },
            if s.on {
                Outcome::TurnedOff
            } else {
                Outcome::Expired
            },
        )
    } else {
        (s, Outcome::Unchanged)
    }
}

/// An event addressed to one actuator.
#[derive(Clone, Copy, Debug, PartialEq, Eq, Structural)]
pub enum RelayEvent {
    /// A motion sensor changed to `sensor_on`.
    Motion { sensor_on: bool, night: bool },
    /// A wall switch changed.
    Switch,
    /// An external turn-on-or-prolong request.
    TurnOnProlong { duration: Option<u64> },
    /// An external turn-off request.
    TurnOff,
    /// The auto-off sweep.
    Sweep,
    /// Day turned to night (`night`) or back, for an `all_night` actuator.
    ForceNight { night: bool },
}

/// An `all_night` actuator follows the night directly, without a timer.
pub open spec fn force_night_next(s: ActuatorState, night: bool, now: u64) -> (ActuatorState, Outcome) {
    (
        ActuatorState { on: night, last_toggled: Some(now), stop_after: None, ..s },
        if night {
            Outcome::TurnedOn
        } else {
            Outcome::TurnedOff
        },
    )
}

pub open spec fn event_next(e: RelayEvent, s: ActuatorState, c: HoldConfig, now: u64) -> (
    ActuatorState,
    Outcome,
) {
    match e {
        RelayEvent::Motion { sensor_on, night } => pir_next(s, c, sensor_on, night, now),
        RelayEvent::Switch => switch_next(s, c, now),
        RelayEvent::TurnOnProlong { duration } => turn_on_prolong_next(s, c, duration, now),
        RelayEvent::TurnOff => turn_off_next(s, now),
        RelayEvent::Sweep => sweep_next(s, now),
        RelayEvent::ForceNight { night } => force_night_next(s, night, now),
    }
}

/// Applies one event to an actuator.
pub fn apply_event(s: ActuatorState, c: HoldConfig, e: RelayEvent, now: u64) -> (r: (
    ActuatorState,
    Outcome,
))
    ensures
        r == event_next(e, s, c, now),
{
    match e {
        RelayEvent::Motion { sensor_on, night } => on_pir(s, c, sensor_on, night, now),
        RelayEvent::Switch => on_switch(s, c, now),
        RelayEvent::TurnOnProlong { duration } => on_turn_on_prolong(s, c, duration, now),
        RelayEvent::TurnOff => on_turn_off(s, now),
        RelayEvent::Sweep => on_sweep(s, now),
        RelayEvent::ForceNight { night } => (
            ActuatorState { on: night, last_toggled: Some(now), stop_after: None, ..s },
            if night {
                Outcome::TurnedOn
            } else {
                Outcome::TurnedOff
            },
        ),
    }
}

/// Flip-flop protection: while the last toggle is less than
/// `MIN_TOGGLE_DELAY_MS` old, no toggle attempt (motion, switch, external
/// turn-on or turn-off) changes whether the actuator is on or its timer.
pub proof fn lemma_flipflop_keeps_state(
    s: ActuatorState,
    c: HoldConfig,
    sensor_on: bool,
    night: bool,
    duration: Option<u64>,
    now: u64,
)
    requires
        flipflop_blocked(s.last_toggled, now),
    ensures
        pir_next(s, c, sensor_on, night, now).0.on == s.on,
        pir_next(s, c, sensor_on, night, now).0.stop_after == s.stop_after,
        switch_next(s, c, now).0.on == s.on,
        switch_next(s, c, now).0.stop_after == s.stop_after,
        turn_on_prolong_next(s, c, duration, now).0.on == s.on,
        turn_on_prolong_next(s, c, duration, now).0.stop_after == s.stop_after,
        turn_off_next(s, now).0.on == s.on,
        turn_off_next(s, now).0.stop_after == s.stop_after,
{
}

/// A switch toggle that flip-flop protection lets through always flips the
/// actuator, whatever its state, and puts it in override mode for the
/// switch hold time.
pub proof fn lemma_switch_always_flips(s: ActuatorState, c: HoldConfig, now: u64)
    requires
        !flipflop_blocked(s.last_toggled, now),
    ensures
        switch_next(s, c, now).0.on == !s.on,
        switch_next(s, c, now).0.override_mode,
        switch_next(s, c, now).0.stop_after == Some(c.switch_hold_ms),
{
}

/// Motion at night (or on an all-day actuator) turns an Off actuator that is
/// not excluded from motion on, for its motion hold time; an external
/// turn-on does the same for the explicit duration when one is given.
pub proof fn lemma_pir_turns_on(
    s: ActuatorState,
    c: HoldConfig,
    night: bool,
    duration: Option<u64>,
    now: u64,
)
    requires
        !s.on,
        !s.override_mode,
        !c.pir_exclude,
        night || c.pir_all_day,
        !flipflop_blocked(s.last_toggled, now),
    ensures
        pir_next(s, c, true, night, now).0.on,
        pir_next(s, c, true, night, now).0.stop_after == Some(c.pir_hold_ms),
        turn_on_prolong_next(s, c, duration, now).0.on,
        duration matches Some(d) ==> turn_on_prolong_next(s, c, duration, now).0.stop_after == Some(
            d,
        ),
{
}

/// The auto-off sweep clears an actuator exactly when more than both the
/// flip-flop delay and its `stop_after` have passed since its last toggle;
/// otherwise it leaves it as it is.
pub proof fn lemma_sweep_clears_iff_expired(s: ActuatorState, now: u64)
    ensures
        timer_expired(s, now) <==> (s.last_toggled is Some && s.stop_after is Some && elapsed(
            s.last_toggled->0,
            now,
        ) > (if MIN_TOGGLE_DELAY_MS > s.stop_after->0 {
            MIN_TOGGLE_DELAY_MS
        } else {
            s.stop_after->0
        })),
        timer_expired(s, now) ==> sweep_next(s, now).0 == (ActuatorState {
            on: false,
            override_mode: false,
            last_toggled: None,
            stop_after: None,
        }),
        !timer_expired(s, now) ==> sweep_next(s, now).0 == s,
{
}

} // verus!
