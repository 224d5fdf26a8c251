use hard::device::{
    get_w1_device_name, set_bit_off, set_bit_on, tag_cesspool_index, toggle_bit, valid_sensor_byte,
    bit_is_on, RelayDevices, SensorDevices, DEFAULT_PIR_HOLD_MS, DEFAULT_SWITCH_HOLD_MS,
    DS2408_INITIAL_STATE, FAMILY_CODE_DS2408, FAMILY_CODE_DS2413,
};
use std::collections::HashMap;

#[test]
fn device_names() {
    assert_eq!(get_w1_device_name(0x3a, 0x1234), "3a-000000001234");
    assert_eq!(get_w1_device_name(0x29, 0xabcdef123456), "29-abcdef123456");
    assert_eq!(get_w1_device_name(0x05, 0x1000000000000), "05-1000000000000");
    assert_eq!(get_w1_device_name(0, 0), "00-000000000000");
}

#[test]
fn sensor_byte_allow_list() {
    for b in [0x5a_u8, 0x4b, 0x1e, 0x0f] {
        assert!(valid_sensor_byte(b));
    }
    assert!(!valid_sensor_byte(0xff));
    assert!(!valid_sensor_byte(0xfe));
    assert!(!valid_sensor_byte(0x00));
}

#[test]
fn output_bits_are_active_low() {
    assert_eq!(set_bit_on(0xff, 3), 0xf7);
    assert_eq!(set_bit_off(0x00, 0), 0x01);
    assert_eq!(toggle_bit(0xff, 0), 0xfe);
    assert_eq!(toggle_bit(0xfe, 0), 0xff);
    assert!(bit_is_on(0xf7, 3));
    assert!(!bit_is_on(0xf7, 2));
}

#[test]
fn cesspool_tags() {
    assert_eq!(tag_cesspool_index("cesspool:3"), Some(3));
    assert_eq!(tag_cesspool_index("cesspool"), None);
    assert_eq!(tag_cesspool_index("cesspool:x"), None);
    assert_eq!(tag_cesspool_index("doorbell:3"), None);
}

#[test]
fn add_sensors_shares_boards() {
    let mut devs = SensorDevices { kinds: HashMap::new(), sensor_boards: vec![], max_cesspool_level: 0 };
    devs.add_sensor(1, 1, "a".to_string(), None, 100, 0, vec![7], vec![], vec!["cesspool:3".to_string()]);
    devs.add_sensor(2, 1, "b".to_string(), Some(0x10), 100, 2, vec![], vec![], vec!["cesspool:2".to_string()]);
    devs.add_sensor(3, 1, "c".to_string(), Some(0x10), 101, 5, vec![], vec![], vec![]);
    assert_eq!(devs.sensor_boards.len(), 2);
    assert_eq!(devs.sensor_boards[0].ow_family, FAMILY_CODE_DS2413);
    assert_eq!(devs.sensor_boards[0].pio_a.as_ref().unwrap().id_sensor, 1);
    assert_eq!(devs.sensor_boards[0].pio_b.as_ref().unwrap().id_sensor, 2);
    assert!(devs.sensor_boards[1].pio_a.is_none());
    assert!(devs.sensor_boards[1].pio_b.is_none());
    assert_eq!(devs.sensor_boards[1].ow_family, 0x10);
    assert_eq!(devs.max_cesspool_level, 3);
}

#[test]
fn add_relays_and_lights() {
    let mut devs = RelayDevices { relay_boards: vec![], yeelight: vec![] };
    devs.add_relay(7, "hall".to_string(), None, 200, 3, false, None, None, false, false, vec![]);
    devs.add_relay(8, "porch".to_string(), None, 200, 0, false, Some(5000), None, true, false, vec![]);
    assert_eq!(devs.relay_boards.len(), 1);
    let rb = &devs.relay_boards[0];
    assert_eq!(rb.ow_family, FAMILY_CODE_DS2408);
    assert_eq!(rb.last_value, Some(DS2408_INITIAL_STATE));
    assert_eq!(rb.new_value, Some(0xfe));
    let hall = rb.relay[3].as_ref().unwrap();
    assert_eq!(hall.pir_hold_ms, DEFAULT_PIR_HOLD_MS);
    assert_eq!(hall.switch_hold_ms, DEFAULT_SWITCH_HOLD_MS);
    assert!(!hall.override_mode);
    let porch = rb.relay[0].as_ref().unwrap();
    assert_eq!(porch.pir_hold_ms, 5000);
    assert!(porch.override_mode);
    devs.add_yeelight(1, "lamp".to_string(), "10.0.0.9".to_string(), false, None, Some(60000), true, vec![]);
    assert_eq!(devs.yeelight.len(), 1);
    assert!(!devs.yeelight[0].powered_on);
    assert_eq!(devs.yeelight[0].switch_hold_ms, 60000);
    assert_eq!(devs.yeelight[0].pir_hold_ms, DEFAULT_PIR_HOLD_MS);
}
