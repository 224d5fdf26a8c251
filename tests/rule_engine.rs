use hard::device::ENTRY_LIGHT_PROLONG_MS;
use hard::messages::{BeepMethod, CommandCode, DbTask, Notice, OneWireTask, RfidTag, TaskCommand};
use hard::peripheral::{
    is_confirmation, power_command, should_retry, split_command, AttemptOutcome, YeelightResult,
};
use hard::rules::StateMachine;
use hard::transition::SensorKind;

fn tags(t: &[&str]) -> Vec<String> {
    t.iter().map(|s| s.to_string()).collect()
}

fn arm(sm: &mut StateMachine, tasks: &mut Vec<OneWireTask>, night: bool, now: u64) {
    let records = vec![RfidTag {
        id_tag: 42,
        name: "gate card".to_string(),
        tags: tags(&["wicket_gate:30"]),
        associated_relays: vec![5, 6],
    }];
    let mut seen = vec![42u32];
    sm.process_rfid_tags(&records, &mut seen, tasks, night, now);
    assert!(seen.is_empty());
}

#[test]
fn wicket_gate_within_delay_opens_once() {
    let mut sm = StateMachine::new("sm".to_string(), true);
    let mut tasks = vec![];
    arm(&mut sm, &mut tasks, false, 1000);
    assert_eq!(sm.wicket_gate_started, Some(1000));
    assert_eq!(sm.wicket_gate_delay, Some(30000));
    assert_eq!(sm.wicket_gate_relays, vec![5, 6]);
    assert!(tasks.is_empty());
    let go = sm.sensor_hook(SensorKind::Other, "gate", true, &tags(&["wicket_gate"]), false, false, &mut tasks, 3, 10000);
    assert!(!go);
    assert_eq!(sm.wicket_gate_started, None);
    assert_eq!(tasks.len(), 2);
    assert_eq!(tasks[0].command, TaskCommand::TurnOnProlong);
    assert_eq!(tasks[0].id_relay, Some(5));
    assert_eq!(tasks[1].id_relay, Some(6));
    assert!(tasks[1].duration.is_none() && tasks[1].tag_group.is_none());
    let notices = sm.take_notices();
    assert_eq!(notices.len(), 2);
    assert!(matches!(notices[0], Notice::Beep(BeepMethod::Confirmation)));
    assert!(matches!(notices[1], Notice::Beep(BeepMethod::Confirmation)));
}

#[test]
fn wicket_gate_too_late_opens_nothing() {
    let mut sm = StateMachine::new("sm".to_string(), false);
    let mut tasks = vec![];
    arm(&mut sm, &mut tasks, false, 1000);
    let go = sm.sensor_hook(SensorKind::Other, "gate", true, &tags(&["wicket_gate"]), false, false, &mut tasks, 3, 31000);
    assert!(!go);
    assert_eq!(sm.wicket_gate_started, None);
    assert!(tasks.is_empty());
    // disarmed: the next event is ordinary
    let go2 = sm.sensor_hook(SensorKind::Other, "gate", true, &tags(&["wicket_gate"]), false, false, &mut tasks, 3, 31500);
    assert!(go2);
}

#[test]
fn wicket_gate_at_night_lights_the_entry() {
    let mut sm = StateMachine::new("sm".to_string(), false);
    let mut tasks = vec![];
    arm(&mut sm, &mut tasks, true, 0);
    assert_eq!(tasks.len(), 1);
    assert_eq!(tasks[0].command, TaskCommand::TurnOnProlongNight);
    assert_eq!(tasks[0].tag_group, Some("entry_light".to_string()));
    assert_eq!(tasks[0].duration, Some(ENTRY_LIGHT_PROLONG_MS));
    sm.sensor_hook(SensorKind::Other, "gate", false, &tags(&["wicket_gate_invert_state"]), true, false, &mut tasks, 3, 500);
    assert_eq!(tasks.len(), 4);
    assert_eq!(tasks[3].command, TaskCommand::TurnOnProlongNight);
}

#[test]
fn rfid_without_directives_turns_relays_on() {
    let mut sm = StateMachine::new("sm".to_string(), false);
    let records = vec![
        RfidTag { id_tag: 1, name: "a".to_string(), tags: vec![], associated_relays: vec![9] },
        RfidTag { id_tag: 2, name: "b".to_string(), tags: tags(&["wicket_gate:bad"]), associated_relays: vec![4] },
    ];
    let mut seen = vec![7u32, 1, 2];
    let mut tasks = vec![];
    sm.process_rfid_tags(&records, &mut seen, &mut tasks, false, 0);
    assert_eq!(tasks.len(), 1);
    assert_eq!(tasks[0].id_relay, Some(9));
    assert_eq!(sm.wicket_gate_started, None);
}

#[test]
fn bedroom_mode_lets_one_event_through() {
    let mut sm = StateMachine::new("sm".to_string(), false);
    let mut tasks = vec![];
    let bed = tags(&["bedroom_enable"]);
    assert!(sm.sensor_hook(SensorKind::PirTrigger, "bed", true, &bed, true, false, &mut tasks, 1, 0));
    assert!(sm.bedroom_mode);
    assert!(!sm.sensor_hook(SensorKind::PirTrigger, "bed", true, &bed, true, false, &mut tasks, 1, 10));
    assert!(!sm.sensor_hook(SensorKind::PirTrigger, "bed", true, &bed, true, false, &mut tasks, 1, 20));
    assert!(sm.bedroom_mode);
    // by day the mode does not apply
    assert!(sm.sensor_hook(SensorKind::PirTrigger, "bed", true, &bed, false, false, &mut tasks, 1, 30));
    let door = tags(&["bedroom_disable"]);
    assert!(sm.sensor_hook(SensorKind::PirTrigger, "door", true, &door, true, false, &mut tasks, 2, 40));
    assert!(!sm.bedroom_mode);
    assert!(sm.sensor_hook(SensorKind::PirTrigger, "bed", true, &bed, true, false, &mut tasks, 1, 50));
    assert!(sm.bedroom_mode);
}

#[test]
fn command_doorbell_and_metrics_tags() {
    let mut sm = StateMachine::new("sm".to_string(), true);
    let mut tasks = vec![];
    let t = tags(&["cmd:/usr/bin/notify %name%%colon%%state%", "doorbell", "monitor_in_influxdb"]);
    assert!(sm.sensor_hook(SensorKind::Other, "door", true, &t, false, false, &mut tasks, 5, 0));
    let n = sm.take_notices();
    assert_eq!(n.len(), 3);
    match &n[0] {
        Notice::Shell(c) => assert_eq!(c, "/usr/bin/notify door:on"),
        _ => panic!("expected a shell command"),
    }
    assert!(matches!(n[1], Notice::Beep(BeepMethod::DoorBell)));
    assert!(matches!(n[2], Notice::Db(DbTask { command: CommandCode::UpdateSensorStateOn, value: Some(5) })));
    // an off event only reaches the metrics, unless the tag asks for all changes
    sm.sensor_hook(SensorKind::Other, "door", false, &t, false, false, &mut tasks, 5, 0);
    let n2 = sm.take_notices();
    assert_eq!(n2.len(), 1);
    assert!(matches!(n2[0], Notice::Db(DbTask { command: CommandCode::UpdateSensorStateOff, value: Some(5) })));
    let all = tags(&["cmd:run %state%_all_changes"]);
    sm.sensor_hook(SensorKind::Other, "door", false, &all, false, false, &mut tasks, 5, 0);
    match &sm.take_notices()[0] {
        Notice::Shell(c) => assert_eq!(c, "run off_all_changes"),
        _ => panic!("expected a shell command"),
    }
    // invert_state flips what the tag sees; a first read runs no command
    let inv = tags(&["cmd:x %state%_invert_state"]);
    sm.sensor_hook(SensorKind::Other, "door", false, &inv, false, false, &mut tasks, 5, 0);
    match &sm.take_notices()[0] {
        Notice::Shell(c) => assert_eq!(c, "x on_invert_state"),
        _ => panic!("expected a shell command"),
    }
    sm.sensor_hook(SensorKind::Other, "door", true, &t, false, true, &mut tasks, 5, 0);
    let first = sm.take_notices();
    assert_eq!(first.len(), 1);
    assert!(tasks.is_empty());
}

#[test]
fn relay_hook_night_exclusion() {
    let mut sm = StateMachine::new("sm".to_string(), false);
    let t = tags(&["night_exclude", "monitor_in_influxdb"]);
    assert!(!sm.relay_hook(SensorKind::PirTrigger, true, &t, true, false, 7));
    assert!(sm.outbox.is_empty());
    assert!(sm.relay_hook(SensorKind::PirTrigger, true, &t, false, false, 7));
    assert!(sm.relay_hook(SensorKind::Switch, true, &t, true, false, 7));
    let n = sm.take_notices();
    assert_eq!(n.len(), 2);
    assert!(matches!(n[0], Notice::Db(DbTask { command: CommandCode::UpdateRelayStateOn, value: Some(7) })));
    assert!(sm.yeelight_hook(SensorKind::PirTrigger, true, &t, true, true));
}

#[test]
fn peripheral_commands() {
    assert_eq!(split_command("/bin/run a b"), ("/bin/run".to_string(), Some("a b".to_string())));
    assert_eq!(split_command("/bin/run"), ("/bin/run".to_string(), None));
    let c = power_command(true);
    assert_eq!((c.id, c.method.as_str(), c.power.as_str(), c.effect.as_str(), c.duration_ms), (1, "set_power", "on", "smooth", 500));
    assert_eq!(power_command(false).power, "off");
    assert!(is_confirmation(&YeelightResult { id: 1, result: vec!["ok".to_string()] }, 1));
    assert!(!is_confirmation(&YeelightResult { id: 2, result: vec!["ok".to_string()] }, 1));
    assert!(!is_confirmation(&YeelightResult { id: 1, result: vec!["ok".to_string(), "x".to_string()] }, 1));
    assert!(should_retry(1, AttemptOutcome::ConnectFailed));
    assert!(should_retry(2, AttemptOutcome::BadResponse));
    assert!(!should_retry(3, AttemptOutcome::WriteFailed));
    assert!(!should_retry(1, AttemptOutcome::Confirmed));
}
