use hard::transition::{
    apply_event, elapsed_ms, is_flipflop_blocked, kind_from_code, on_pir, on_sweep, on_switch,
    on_turn_off, on_turn_on_prolong, ActuatorState, HoldConfig, Outcome, RelayEvent, SensorKind,
};

fn cfg() -> HoldConfig {
    HoldConfig { pir_exclude: false, pir_all_day: false, pir_hold_ms: 120000, switch_hold_ms: 3600000 }
}

fn off(last: Option<u64>) -> ActuatorState {
    ActuatorState { on: false, override_mode: false, last_toggled: last, stop_after: None }
}

#[test]
fn kinds() {
    assert_eq!(kind_from_code("PIR_Trigger"), SensorKind::PirTrigger);
    assert_eq!(kind_from_code("Switch"), SensorKind::Switch);
    assert_eq!(kind_from_code("Temperature"), SensorKind::Other);
}

#[test]
fn elapsed_and_flipflop() {
    assert_eq!(elapsed_ms(1000, 1900), 900);
    assert_eq!(elapsed_ms(2000, 1000), 0);
    assert!(is_flipflop_blocked(Some(1000), 1900));
    assert!(!is_flipflop_blocked(Some(1000), 2000));
    assert!(!is_flipflop_blocked(None, 0));
}

#[test]
fn flipflop_keeps_bit_and_timer() {
    let s = ActuatorState { on: true, override_mode: false, last_toggled: Some(1000), stop_after: Some(120000) };
    assert_eq!(on_pir(s, cfg(), true, true, 1900), (s, Outcome::Blocked));
    assert_eq!(on_switch(s, cfg(), 1900), (s, Outcome::Blocked));
    assert_eq!(on_turn_on_prolong(s, cfg(), Some(5000), 1900), (s, Outcome::Blocked));
    assert_eq!(on_turn_off(s, 1900), (s, Outcome::Blocked));
    let o = off(Some(1000));
    assert_eq!(on_pir(o, cfg(), true, true, 1999), (o, Outcome::Blocked));
}

#[test]
fn switch_always_flips() {
    let (a, o) = on_switch(off(None), cfg(), 0);
    assert_eq!(o, Outcome::Toggled);
    assert!(a.on && a.override_mode);
    assert_eq!(a.stop_after, Some(3600000));
    let s = ActuatorState { on: true, override_mode: false, last_toggled: Some(0), stop_after: Some(1) };
    let (b, _) = on_switch(s, cfg(), 5000);
    assert!(!b.on && b.override_mode);
    assert_eq!(b.stop_after, Some(3600000));
}

#[test]
fn pir_turns_an_off_relay_on() {
    let (a, o) = on_pir(off(None), cfg(), true, true, 10);
    assert_eq!(o, Outcome::TurnedOn);
    assert!(a.on);
    assert_eq!(a.stop_after, Some(120000));
    assert_eq!(a.last_toggled, None);
    // by day only an all-day relay reacts
    assert_eq!(on_pir(off(None), cfg(), true, false, 10).1, Outcome::Unchanged);
    let all_day = HoldConfig { pir_all_day: true, ..cfg() };
    assert_eq!(on_pir(off(None), all_day, true, false, 10).1, Outcome::TurnedOn);
    // excluded relays and motion ending do nothing
    let excluded = HoldConfig { pir_exclude: true, ..cfg() };
    assert_eq!(on_pir(off(None), excluded, true, true, 10).1, Outcome::Unchanged);
    assert_eq!(on_pir(off(None), cfg(), false, true, 10).1, Outcome::Unchanged);
    // an explicit duration wins for external requests
    let (b, o2) = on_turn_on_prolong(off(None), cfg(), Some(5000), 77);
    assert_eq!(o2, Outcome::TurnedOn);
    assert_eq!(b.stop_after, Some(5000));
    assert_eq!(b.last_toggled, Some(77));
    let (c, _) = on_turn_on_prolong(off(None), cfg(), None, 77);
    assert_eq!(c.stop_after, Some(120000));
    let custom = HoldConfig { switch_hold_ms: 600000, ..cfg() };
    let (d, _) = on_turn_on_prolong(off(None), custom, None, 77);
    assert_eq!(d.stop_after, Some(600000));
}

#[test]
fn prolonging() {
    let timed = ActuatorState { on: true, override_mode: false, last_toggled: Some(0), stop_after: Some(120000) };
    let (a, o) = on_pir(timed, cfg(), true, true, 60000);
    assert_eq!(o, Outcome::Prolonged);
    assert_eq!(a.stop_after, Some(180000));
    let over = ActuatorState { on: true, override_mode: true, last_toggled: Some(0), stop_after: Some(3600000) };
    assert_eq!(on_pir(over, cfg(), true, true, 1000000).0.stop_after, Some(3600000));
    assert_eq!(on_pir(over, cfg(), true, true, 2800000).0.stop_after, Some(3700000));
}

#[test]
fn sweep_clears_after_both_delays() {
    let s = ActuatorState { on: true, override_mode: true, last_toggled: Some(0), stop_after: Some(120000) };
    assert_eq!(on_sweep(s, 120000), (s, Outcome::Unchanged));
    let cleared = ActuatorState { on: false, override_mode: false, last_toggled: None, stop_after: None };
    assert_eq!(on_sweep(s, 120001), (cleared, Outcome::TurnedOff));
    let short = ActuatorState { on: true, override_mode: false, last_toggled: Some(0), stop_after: Some(0) };
    assert_eq!(on_sweep(short, 1000).1, Outcome::Unchanged);
    assert_eq!(on_sweep(short, 1001).1, Outcome::TurnedOff);
    let already_off = ActuatorState { on: false, ..short };
    assert_eq!(on_sweep(already_off, 5000), (cleared, Outcome::Expired));
    assert_eq!(on_sweep(off(None), 5000).1, Outcome::Unchanged);
}

#[test]
fn turn_off_and_night() {
    let s = ActuatorState { on: true, override_mode: true, last_toggled: Some(0), stop_after: Some(9) };
    let (a, o) = on_turn_off(s, 5000);
    assert_eq!(o, Outcome::TurnedOff);
    assert_eq!(a, ActuatorState { on: false, override_mode: false, last_toggled: Some(5000), stop_after: None });
    assert_eq!(on_turn_off(off(None), 5000).1, Outcome::Unchanged);
    let (n, o2) = apply_event(off(None), cfg(), RelayEvent::ForceNight { night: true }, 42);
    assert_eq!(o2, Outcome::TurnedOn);
    assert!(n.on);
    assert_eq!(n.last_toggled, Some(42));
}
