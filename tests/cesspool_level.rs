use hard::cesspool::CesspoolLevel;
use hard::messages::{CommandCode, DbTask, LcdTask, LcdTaskCommand, Notice};
use hard::rules::StateMachine;
use hard::transition::SensorKind;

#[test]
fn four_probes_three_occupied() {
    let mut c = CesspoolLevel::new(4);
    assert!(!c.got_all_sensors());
    c.set(0, true);
    c.set(1, true);
    c.set(2, false);
    assert!(!c.got_all_sensors());
    c.set(3, true);
    assert!(c.got_all_sensors());
    assert_eq!(c.get_level_percentage(), 75);
    assert_eq!(c.get_level_lcd(), 3);
    assert_eq!(c.to_display_string(), "🔴🔴🔴🔴🔴🔴🔴🔴⚫⚫⚫⚫🔴🔴🔴🔴");
}

#[test]
fn percentage_rounds() {
    let mut c = CesspoolLevel { level: vec![Some(true), Some(true), Some(false)] };
    assert_eq!(c.get_level_percentage(), 67);
    c.set(1, false);
    assert_eq!(c.get_level_percentage(), 33);
    let mut eight = CesspoolLevel::new(8);
    for i in 0..8 {
        eight.set(i, i == 0);
    }
    assert_eq!(eight.get_level_percentage(), 13);
    assert_eq!(CesspoolLevel::new(0).get_level_percentage(), 0);
    let mut grow = CesspoolLevel::new(1);
    grow.set(0, true);
    grow.grow_to(3);
    assert_eq!(grow.level, vec![Some(true), None, None]);
    grow.grow_to(2);
    assert_eq!(grow.level.len(), 3);
}

#[test]
fn probes_report_through_sensor_hook() {
    let mut sm = StateMachine::new("statemachine".to_string(), false);
    sm.cesspool_level.grow_to(4);
    let mut tasks = vec![];
    let readings = [true, true, false, true];
    for (i, on) in readings.iter().enumerate() {
        let tags = vec![format!("cesspool:{}:all_changes", i + 1)];
        let go = sm.sensor_hook(SensorKind::Other, "probe", *on, &tags, false, false, &mut tasks, 10 + i as i32, 0);
        assert!(go);
        if i < 3 {
            assert!(sm.outbox.is_empty());
        }
    }
    let notices = sm.take_notices();
    assert_eq!(notices.len(), 2);
    assert!(matches!(&notices[0], Notice::Lcd(LcdTask { command: LcdTaskCommand::SetCesspoolLevel, int_arg: 3 })));
    assert!(matches!(
        &notices[1],
        Notice::Db(DbTask { command: CommandCode::UpdateCesspoolLevel, value: Some(75) })
    ));
    // once complete, every further update is sent again
    let tags = vec!["cesspool:3".to_string()];
    sm.sensor_hook(SensorKind::Other, "probe", true, &tags, false, false, &mut tasks, 12, 0);
    let again = sm.take_notices();
    assert!(matches!(&again[1], Notice::Db(DbTask { command: CommandCode::UpdateCesspoolLevel, value: Some(100) })));
    assert!(tasks.is_empty());
}

#[test]
fn probe_index_out_of_range_is_ignored() {
    let mut sm = StateMachine::new("sm".to_string(), false);
    sm.cesspool_level.grow_to(2);
    let mut tasks = vec![];
    for tag in ["cesspool:0", "cesspool:3", "cesspool:x"] {
        sm.sensor_hook(SensorKind::Other, "p", true, &vec![tag.to_string()], false, false, &mut tasks, 1, 0);
    }
    assert_eq!(sm.cesspool_level.level, vec![None, None]);
    assert!(sm.outbox.is_empty());
}

#[test]
fn probe_off_needs_all_changes_after_first_read() {
    let mut sm = StateMachine::new("sm".to_string(), false);
    sm.cesspool_level.grow_to(1);
    let mut tasks = vec![];
    let plain = vec!["cesspool:1".to_string()];
    // the first read records either state
    sm.sensor_hook(SensorKind::Other, "p", false, &plain, false, true, &mut tasks, 1, 0);
    assert_eq!(sm.cesspool_level.level, vec![Some(false)]);
    sm.sensor_hook(SensorKind::Other, "p", true, &plain, false, false, &mut tasks, 1, 0);
    assert_eq!(sm.cesspool_level.level, vec![Some(true)]);
    // later, an off reading is an ignored change unless the tag asks for all changes
    sm.sensor_hook(SensorKind::Other, "p", false, &plain, false, false, &mut tasks, 1, 0);
    assert_eq!(sm.cesspool_level.level, vec![Some(true)]);
    let all = vec!["cesspool:1:all_changes".to_string()];
    sm.sensor_hook(SensorKind::Other, "p", false, &all, false, false, &mut tasks, 1, 0);
    assert_eq!(sm.cesspool_level.level, vec![Some(false)]);
}

#[test]
fn first_reads_of_four_probes() {
    let mut sm = StateMachine::new("sm".to_string(), false);
    sm.cesspool_level.grow_to(4);
    let mut tasks = vec![];
    let readings = [true, true, false, true];
    for (i, on) in readings.iter().enumerate() {
        let tags = vec![format!("cesspool:{}", i + 1)];
        sm.sensor_hook(SensorKind::Other, "probe", *on, &tags, false, true, &mut tasks, 1, 0);
        if i < 3 {
            assert!(sm.outbox.is_empty());
        }
    }
    assert_eq!(sm.cesspool_level.level, vec![Some(true), Some(true), Some(false), Some(true)]);
    let n = sm.take_notices();
    assert_eq!(n.len(), 2);
    assert!(matches!(&n[0], Notice::Lcd(LcdTask { command: LcdTaskCommand::SetCesspoolLevel, int_arg: 3 })));
    assert!(matches!(&n[1], Notice::Db(DbTask { command: CommandCode::UpdateCesspoolLevel, value: Some(75) })));
}
