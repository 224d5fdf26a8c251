use hard::control::OneWire;
use hard::device::{RelayDevices, SensorDevices};
use hard::messages::{CommandCode, DbTask, Notice, OneWireTask, TaskCommand};
use std::collections::HashMap;

const SENSOR_BOARD: u64 = 100;
const RELAY_BOARD: u64 = 200;

/// A motion sensor on input 0 and a wall switch on input 2 of one board,
/// driving relay 7 on output 3 and light 1; relay 8 on output 5 lights the
/// entry at night.
fn engine() -> OneWire {
    let mut kinds = HashMap::new();
    kinds.insert(1, "PIR_Trigger".to_string());
    kinds.insert(2, "Switch".to_string());
    let mut sensors = SensorDevices { kinds, sensor_boards: vec![], max_cesspool_level: 0 };
    sensors.add_sensor(1, 1, "hall pir".to_string(), None, SENSOR_BOARD, 0, vec![7], vec![1], vec![]);
    sensors.add_sensor(2, 2, "hall switch".to_string(), None, SENSOR_BOARD, 2, vec![7], vec![], vec![]);
    let mut relays = RelayDevices { relay_boards: vec![], yeelight: vec![] };
    relays.add_relay(7, "hall".to_string(), None, RELAY_BOARD, 3, false, None, None, false, false, vec![]);
    relays.add_relay(8, "entry".to_string(), None, RELAY_BOARD, 5, false, None, None, false, false,
        vec!["entry_light".to_string(), "all_night".to_string()]);
    relays.add_yeelight(1, "lamp".to_string(), "10.0.0.9".to_string(), false, None, None, false, vec![]);
    OneWire::new("onewire".to_string(), sensors, relays, false)
}

fn write(ow: &mut OneWire, stamp: bool, now: u64) -> Option<u8> {
    let v = ow.prepare_write(0, stamp, now);
    if let Some(b) = v {
        ow.commit_write(0, b);
    }
    v
}

#[test]
fn invalid_bytes_are_discarded() {
    let mut ow = engine();
    assert!(!ow.process_sensor_value(0, 0xff, 0));
    assert!(!ow.process_sensor_value(0, 0xfe, 0));
    assert!(!ow.process_sensor_value(3, 0x0f, 0));
    assert_eq!(ow.sensor_devices.sensor_boards[0].last_value, None);
    assert!(ow.process_sensor_value(0, 0x5a, 0));
    assert_eq!(ow.sensor_devices.sensor_boards[0].last_value, Some(0x5a));
}

#[test]
fn motion_at_night_turns_relay_on() {
    let mut ow = engine();
    assert!(ow.set_night(true, 0));
    assert_eq!(write(&mut ow, false, 0), Some(0xdf));
    ow.take_notices();
    // first read: both inputs low, only bookkeeping
    assert!(ow.process_sensor_value(0, 0x5a, 1000));
    assert_eq!(write(&mut ow, true, 1000), None);
    // input 0 goes high: motion
    assert!(ow.process_sensor_value(0, 0x4b, 5000));
    assert_eq!(write(&mut ow, true, 5000), Some(0xd7));
    let relay = ow.relay_devices.relay_boards[0].relay[3].as_ref().unwrap();
    assert_eq!(relay.stop_after, Some(120000));
    assert_eq!(relay.last_toggled, Some(5000));
    assert!(!relay.override_mode);
    assert!(ow.relay_devices.yeelight[0].powered_on);
    let notices = ow.take_notices();
    assert!(notices.iter().any(|n| matches!(n, Notice::Db(DbTask { command: CommandCode::IncrementSensorCounter, value: Some(1) }))));
    assert!(notices.iter().any(|n| matches!(n, Notice::Db(DbTask { command: CommandCode::IncrementRelayCounter, value: Some(7) }))));
    assert!(notices.iter().any(|n| matches!(n, Notice::Yeelight { turn_on: true, .. })));
}

#[test]
fn second_motion_within_a_second_is_ignored() {
    let mut ow = engine();
    ow.set_night(true, 0);
    write(&mut ow, false, 0);
    ow.process_sensor_value(0, 0x5a, 0);
    ow.process_sensor_value(0, 0x4b, 5000);
    assert_eq!(write(&mut ow, true, 5000), Some(0xd7));
    ow.process_sensor_value(0, 0x5a, 5400);
    ow.process_sensor_value(0, 0x4b, 5900);
    assert_eq!(write(&mut ow, true, 5900), None);
    let relay = ow.relay_devices.relay_boards[0].relay[3].as_ref().unwrap();
    assert_eq!(relay.stop_after, Some(120000));
    assert_eq!(relay.last_toggled, Some(5000));
}

#[test]
fn motion_by_day_does_nothing() {
    let mut ow = engine();
    ow.process_sensor_value(0, 0x5a, 0);
    ow.process_sensor_value(0, 0x4b, 5000);
    assert_eq!(write(&mut ow, true, 5000), None);
    assert!(!ow.relay_devices.yeelight[0].powered_on);
}

#[test]
fn switch_toggles_and_sweep_turns_off() {
    let mut ow = engine();
    ow.process_sensor_value(0, 0x5a, 0);
    // input 2 goes high: switch
    ow.process_sensor_value(0, 0x1e, 2000);
    assert_eq!(write(&mut ow, true, 2000), Some(0xf7));
    let relay = ow.relay_devices.relay_boards[0].relay[3].as_ref().unwrap();
    assert!(relay.override_mode);
    assert_eq!(relay.stop_after, Some(3600000));
    ow.auto_off_sweep(2000 + 3600000);
    assert_eq!(write(&mut ow, false, 2000 + 3600000), None);
    ow.auto_off_sweep(2001 + 3600000);
    assert_eq!(write(&mut ow, false, 2001 + 3600000), Some(0xff));
    let relay = ow.relay_devices.relay_boards[0].relay[3].as_ref().unwrap();
    assert!(!relay.override_mode);
    assert_eq!(relay.stop_after, None);
    assert_eq!(relay.last_toggled, None);
}

#[test]
fn queued_tasks() {
    let mut ow = engine();
    // a night-only task is dropped by day
    ow.accept_task(OneWireTask { command: TaskCommand::TurnOnProlongNight, id_relay: None, tag_group: Some("entry_light".to_string()), duration: None });
    assert!(ow.pending_tasks.is_empty());
    ow.accept_task(OneWireTask { command: TaskCommand::TurnOnProlong, id_relay: None, tag_group: Some("entry_light".to_string()), duration: Some(9000) });
    ow.accept_task(OneWireTask { command: TaskCommand::TurnOnProlong, id_relay: Some(7), tag_group: None, duration: None });
    ow.apply_pending_tasks(10000);
    assert!(ow.pending_tasks.is_empty());
    assert_eq!(write(&mut ow, false, 10000), Some(0xd7));
    let entry = ow.relay_devices.relay_boards[0].relay[5].as_ref().unwrap();
    assert_eq!(entry.stop_after, Some(9000));
    assert_eq!(entry.last_toggled, Some(10000));
    ow.accept_task(OneWireTask { command: TaskCommand::TurnOff, id_relay: Some(7), tag_group: None, duration: None });
    ow.apply_pending_tasks(20000);
    assert_eq!(write(&mut ow, false, 20000), Some(0xdf));
    ow.set_night(true, 30000);
    ow.accept_task(OneWireTask { command: TaskCommand::TurnOnProlongNight, id_relay: Some(7), tag_group: None, duration: None });
    assert_eq!(ow.pending_tasks[0].command, TaskCommand::TurnOnProlong);
}

#[test]
fn day_and_night_switch_all_night_relays() {
    let mut ow = engine();
    assert!(!ow.set_night(false, 0));
    assert!(ow.set_night(true, 100));
    assert_eq!(write(&mut ow, false, 100), Some(0xdf));
    let n = ow.take_notices();
    assert!(matches!(n[0], Notice::Db(DbTask { command: CommandCode::IncrementRelayCounter, value: Some(8) })));
    assert!(ow.set_night(false, 200));
    assert_eq!(write(&mut ow, false, 200), Some(0xff));
}

#[test]
fn cesspool_probes_grow_with_configuration() {
    let mut kinds = HashMap::new();
    kinds.insert(3, "Level".to_string());
    let mut sensors = SensorDevices { kinds, sensor_boards: vec![], max_cesspool_level: 0 };
    sensors.add_sensor(1, 3, "probe 2".to_string(), None, 1, 0, vec![], vec![], vec!["cesspool:2".to_string()]);
    let relays = RelayDevices { relay_boards: vec![], yeelight: vec![] };
    let mut ow = OneWire::new("onewire".to_string(), sensors, relays, false);
    ow.sync_cesspool_size();
    assert_eq!(ow.state_machine.cesspool_level.level, vec![None, None]);
    ow.process_sensor_value(0, 0x4b, 0);
    assert_eq!(ow.state_machine.cesspool_level.level, vec![None, Some(true)]);
}

fn relay_counters(n: &[Notice], id: i32) -> usize {
    n.iter()
        .filter(|x| matches!(x, Notice::Db(DbTask { command: CommandCode::IncrementRelayCounter, value: Some(v) }) if *v == id))
        .count()
}

#[test]
fn counters_follow_toggles() {
    let mut ow = engine();
    // a switch toggle is counted once, when written
    ow.process_sensor_value(0, 0x5a, 0);
    ow.take_notices();
    ow.process_sensor_value(0, 0x1e, 2000);
    assert_eq!(relay_counters(&ow.take_notices(), 7), 0);
    assert_eq!(write(&mut ow, true, 2000), Some(0xf7));
    assert_eq!(relay_counters(&ow.take_notices(), 7), 1);
    // a blocked toggle changes nothing and is not counted
    ow.process_sensor_value(0, 0x5a, 2500);
    assert_eq!(write(&mut ow, true, 2500), None);
    assert_eq!(relay_counters(&ow.take_notices(), 7), 0);
    // the sweep counts a relay it switches off, and not one whose timer runs on
    ow.auto_off_sweep(3000);
    assert_eq!(relay_counters(&ow.take_notices(), 7), 0);
    ow.auto_off_sweep(2001 + 3600000);
    assert_eq!(relay_counters(&ow.take_notices(), 7), 1);
    write(&mut ow, false, 2001 + 3600000);
    assert_eq!(relay_counters(&ow.take_notices(), 7), 0);
    // external turn-on and turn-off are counted once each
    ow.accept_task(OneWireTask { command: TaskCommand::TurnOnProlong, id_relay: Some(7), tag_group: None, duration: Some(1000) });
    ow.apply_pending_tasks(4000000);
    assert_eq!(relay_counters(&ow.take_notices(), 7), 1);
    assert_eq!(write(&mut ow, false, 4000000), Some(0xf7));
    ow.accept_task(OneWireTask { command: TaskCommand::TurnOff, id_relay: Some(7), tag_group: None, duration: None });
    ow.apply_pending_tasks(4000500);
    assert_eq!(relay_counters(&ow.take_notices(), 7), 0);
    ow.accept_task(OneWireTask { command: TaskCommand::TurnOff, id_relay: Some(7), tag_group: None, duration: None });
    ow.apply_pending_tasks(4002000);
    assert_eq!(relay_counters(&ow.take_notices(), 7), 1);
    assert_eq!(write(&mut ow, false, 4002000), Some(0xff));
}

#[test]
fn lights_are_told_to_switch() {
    let mut ow = engine();
    ow.set_night(true, 0);
    ow.process_sensor_value(0, 0x5a, 0);
    ow.take_notices();
    ow.process_sensor_value(0, 0x4b, 5000);
    let n = ow.take_notices();
    assert_eq!(n.iter().filter(|x| matches!(x, Notice::Yeelight { turn_on: true, .. })).count(), 1);
    ow.auto_off_sweep(5000 + 120001);
    let n = ow.take_notices();
    assert!(n.iter().any(|x| matches!(x, Notice::Yeelight { turn_on: false, .. })));
    assert!(!ow.relay_devices.yeelight[0].powered_on);
}
