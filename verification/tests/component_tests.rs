//! Tests for the individual components: decoder, monitor log, port
//! registry, and knob mapping resolution.

use midi_mediation::decoder::{
    controller_key, decode_controller_value, ControllerValueMode, ControllerValueTable,
};
use midi_mediation::mappings::{
    load_knob_mappings, resolve_knob, DeviceWithMapping, KnobMapping, MappingError,
};
use midi_mediation::messages::{ControllerLabel, MidiValue};
use midi_mediation::monitor::MonitorLog;
use midi_mediation::ports::{register_port, touch_port, PortInformation};

fn numbered(n: u8) -> ControllerLabel {
    ControllerLabel::Numbered(n)
}

fn special(name: &str) -> ControllerLabel {
    ControllerLabel::Special(String::from(name))
}

#[test]
fn controller_key_of_numbered_label_is_decimal() {
    assert_eq!(controller_key(&numbered(7)), "7");
    assert_eq!(controller_key(&numbered(0)), "0");
    assert_eq!(controller_key(&numbered(107)), "107");
    assert_eq!(controller_key(&numbered(255)), "255");
}

#[test]
fn controller_key_of_special_label_is_its_name() {
    assert_eq!(controller_key(&special("ModWheel")), "ModWheel");
}

#[test]
fn absolute_mode_is_identity() {
    let mode = ControllerValueMode::Absolute;
    let mut known = ControllerValueTable::new();
    let decoded = decode_controller_value(&mode, &mut known, &numbered(7), MidiValue::LowRes(100));
    assert_eq!(decoded, MidiValue::LowRes(100));
    // No state is seeded in absolute mode: a later relative decode
    // still sees an unseen key.
    let mode = ControllerValueMode::Relative;
    let decoded = decode_controller_value(&mode, &mut known, &numbered(7), MidiValue::LowRes(64));
    assert_eq!(decoded, MidiValue::LowRes(64));
}

#[test]
fn first_touch_emits_raw_value_unchanged() {
    let mode = ControllerValueMode::Relative;
    let mut known = ControllerValueTable::new();
    let decoded = decode_controller_value(&mode, &mut known, &numbered(7), MidiValue::LowRes(100));
    assert_eq!(decoded, MidiValue::LowRes(100));
}

#[test]
fn relative_decode_applies_signed_increment() {
    let mode = ControllerValueMode::Relative;
    let mut known = ControllerValueTable::new();
    // Seed with 64.
    decode_controller_value(&mode, &mut known, &numbered(7), MidiValue::LowRes(64));
    // 2 means +2.
    let decoded = decode_controller_value(&mode, &mut known, &numbered(7), MidiValue::LowRes(2));
    assert_eq!(decoded, MidiValue::LowRes(66));
    // 126 means -2.
    let decoded = decode_controller_value(&mode, &mut known, &numbered(7), MidiValue::LowRes(126));
    assert_eq!(decoded, MidiValue::LowRes(64));
}

#[test]
fn relative_decode_clamps_at_upper_bound() {
    let mode = ControllerValueMode::Relative;
    let mut known = ControllerValueTable::new();
    decode_controller_value(&mode, &mut known, &numbered(1), MidiValue::LowRes(120));
    // +63 from 120 exceeds 127 and clamps.
    let decoded = decode_controller_value(&mode, &mut known, &numbered(1), MidiValue::LowRes(63));
    assert_eq!(decoded, MidiValue::LowRes(127));
}

#[test]
fn relative_decode_clamps_at_lower_bound() {
    let mode = ControllerValueMode::Relative;
    let mut known = ControllerValueTable::new();
    decode_controller_value(&mode, &mut known, &numbered(1), MidiValue::LowRes(3));
    // 64 means -64, which goes below 0 and clamps.
    let decoded = decode_controller_value(&mode, &mut known, &numbered(1), MidiValue::LowRes(64));
    assert_eq!(decoded, MidiValue::LowRes(0));
}

#[test]
fn relative_high_res_passes_through_and_keeps_state() {
    let mode = ControllerValueMode::Relative;
    let mut known = ControllerValueTable::new();
    let decoded =
        decode_controller_value(&mode, &mut known, &special("ModWheel"), MidiValue::HighRes(9000));
    assert_eq!(decoded, MidiValue::HighRes(9000));
    // The pass-through did not seed state: a low-res update on the same
    // key is still a first touch.
    let decoded =
        decode_controller_value(&mode, &mut known, &special("ModWheel"), MidiValue::LowRes(70));
    assert_eq!(decoded, MidiValue::LowRes(70));
}

#[test]
fn controllers_with_distinct_keys_do_not_share_state() {
    let mode = ControllerValueMode::Relative;
    let mut known = ControllerValueTable::new();
    decode_controller_value(&mode, &mut known, &numbered(1), MidiValue::LowRes(10));
    decode_controller_value(&mode, &mut known, &numbered(2), MidiValue::LowRes(100));
    let decoded = decode_controller_value(&mode, &mut known, &numbered(1), MidiValue::LowRes(1));
    assert_eq!(decoded, MidiValue::LowRes(11));
    let decoded = decode_controller_value(&mode, &mut known, &numbered(2), MidiValue::LowRes(1));
    assert_eq!(decoded, MidiValue::LowRes(101));
}

#[test]
fn monitor_log_keeps_arrival_order() {
    let mut log = MonitorLog::new(3);
    log.push_back(String::from("a"));
    log.push_back(String::from("b"));
    assert_eq!(log.len(), 2);
    assert_eq!(log.get(0).as_str(), "a");
    assert_eq!(log.get(1).as_str(), "b");
    assert!(!log.is_empty());
}

#[test]
fn monitor_log_evicts_oldest_at_capacity() {
    let mut log = MonitorLog::new(3);
    log.push_back(String::from("a"));
    log.push_back(String::from("b"));
    log.push_back(String::from("c"));
    log.push_back(String::from("d"));
    assert_eq!(log.capacity(), 3);
    assert_eq!(log.len(), 3);
    assert_eq!(log.get(0).as_str(), "b");
    assert_eq!(log.get(1).as_str(), "c");
    assert_eq!(log.get(2).as_str(), "d");
}

#[test]
fn touch_on_unregistered_port_creates_nothing() {
    let mut ports: Vec<PortInformation> = Vec::new();
    touch_port(&mut ports, 3, 1000);
    assert!(ports.is_empty());
    register_port(&mut ports, 1, String::from("Device A"), 5);
    touch_port(&mut ports, 3, 1000);
    assert_eq!(ports.len(), 1);
    assert_eq!(ports[0].index, 1);
    assert_eq!(ports[0].last_received, 5);
}

#[test]
fn touch_updates_timestamp_of_registered_port() {
    let mut ports: Vec<PortInformation> = Vec::new();
    register_port(&mut ports, 1, String::from("Device A"), 5);
    register_port(&mut ports, 2, String::from("Device B"), 6);
    touch_port(&mut ports, 2, 1000);
    assert_eq!(ports.len(), 2);
    assert_eq!(ports[0].last_received, 5);
    assert_eq!(ports[1].last_received, 1000);
}

#[test]
fn register_same_index_overwrites_entry() {
    let mut ports: Vec<PortInformation> = Vec::new();
    register_port(&mut ports, 1, String::from("Device A"), 5);
    register_port(&mut ports, 1, String::from("Device B"), 9);
    assert_eq!(ports.len(), 1);
    assert_eq!(ports[0].full_name, "Device B");
    assert_eq!(ports[0].last_received, 9);
}

#[test]
fn resolve_knob_is_deterministic_and_first_match_wins() {
    let knobs = vec![
        KnobMapping { channel: None, controller: numbered(7) },
        KnobMapping { channel: None, controller: numbered(8) },
        KnobMapping { channel: None, controller: numbered(7) },
    ];
    let first = resolve_knob(&knobs, 1, &numbered(7));
    let second = resolve_knob(&knobs, 1, &numbered(7));
    assert_eq!(first, Some(0));
    assert_eq!(first, second);
    assert_eq!(resolve_knob(&knobs, 1, &numbered(8)), Some(1));
    assert_eq!(resolve_knob(&knobs, 1, &numbered(9)), None);
}

#[test]
fn resolve_knob_channel_entry_demands_channel_and_label() {
    let knobs = vec![KnobMapping { channel: Some(5), controller: numbered(7) }];
    // An entry that gives a channel matches only that channel, and the
    // label must still agree.
    assert_eq!(resolve_knob(&knobs, 5, &numbered(7)), Some(0));
    assert_eq!(resolve_knob(&knobs, 5, &numbered(99)), None);
    assert_eq!(resolve_knob(&knobs, 4, &numbered(7)), None);
}

#[test]
fn resolve_knob_label_match_is_case_sensitive() {
    let knobs = vec![KnobMapping { channel: None, controller: special("ModWheel") }];
    assert_eq!(resolve_knob(&knobs, 3, &special("ModWheel")), Some(0));
    assert_eq!(resolve_knob(&knobs, 3, &special("modwheel")), None);
    assert_eq!(resolve_knob(&knobs, 3, &numbered(1)), None);
}

#[test]
fn load_knob_mappings_finds_device_by_exact_name() {
    let devices = vec![
        DeviceWithMapping::new(
            String::from("Device A"),
            vec![KnobMapping { channel: None, controller: numbered(7) }],
        ),
        DeviceWithMapping::new(
            String::from("Device B"),
            vec![
                KnobMapping { channel: None, controller: special("ModWheel") },
                KnobMapping { channel: Some(2), controller: numbered(1) },
            ],
        ),
    ];
    let knobs = load_knob_mappings(&devices, "Device B").unwrap();
    assert_eq!(knobs.len(), 2);
    assert!(matches!(knobs[0].channel, None));
    assert_eq!(knobs[1].channel, Some(2));
}

#[test]
fn load_knob_mappings_reports_unknown_device() {
    let devices = vec![DeviceWithMapping::new(String::from("Device A"), Vec::new())];
    assert_eq!(
        load_knob_mappings(&devices, "Device C").unwrap_err(),
        MappingError::DeviceNotFound
    );
    assert_eq!(
        load_knob_mappings(&Vec::new(), "Device A").unwrap_err(),
        MappingError::DeviceNotFound
    );
}
