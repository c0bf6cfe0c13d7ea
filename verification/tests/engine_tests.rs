//! End-to-end tests of the mediation engine: one event in, normalized
//! messages and log entries out.

use midi_mediation::decoder::ControllerValueMode;
use midi_mediation::engine::{MediationDataModel, MONITOR_LOG_LENGTH};
use midi_mediation::events::{ChannelVoiceEvent, ControlChangeEvent, MidiChannel, MidiEvent};
use midi_mediation::mappings::{DeviceWithMapping, KnobMapping};
use midi_mediation::messages::{ControllerLabel, MidiValue, TetherMidiMessage};

fn cc_event(channel: MidiChannel, control: ControlChangeEvent) -> MidiEvent {
    MidiEvent::ChannelVoice { channel, event: ChannelVoiceEvent::ControlChange { control } }
}

fn control_change_values(msgs: &[TetherMidiMessage]) -> Vec<MidiValue> {
    msgs.iter()
        .filter_map(|m| match m {
            TetherMidiMessage::ControlChange(p) => Some(p.value),
            _ => None,
        })
        .collect()
}

fn count_raw(msgs: &[TetherMidiMessage]) -> usize {
    msgs.iter().filter(|m| matches!(m, TetherMidiMessage::Raw(_))).count()
}

fn count_knob(msgs: &[TetherMidiMessage]) -> usize {
    msgs.iter().filter(|m| matches!(m, TetherMidiMessage::Knob(_))).count()
}

#[test]
fn relative_sequence_decodes_to_expected_absolutes() {
    // Raw values 64, 2, 126 on controller 7: the first seeds the state,
    // then +2 and -2.
    let mut model = MediationDataModel::new(ControllerValueMode::Relative);
    let mut seen = Vec::new();
    for raw in [64u8, 2, 126] {
        let event = cc_event(
            MidiChannel::Ch1,
            ControlChangeEvent::Undefined { control: 7, value: raw },
        );
        let msgs = model.handle_incoming_midi(0, &event, 0).unwrap();
        seen.extend(control_change_values(&msgs));
    }
    assert_eq!(
        seen,
        vec![MidiValue::LowRes(64), MidiValue::LowRes(66), MidiValue::LowRes(64)]
    );
}

#[test]
fn absolute_control_change_without_mapping_emits_no_knob() {
    let mut model = MediationDataModel::new(ControllerValueMode::Absolute);
    let event = cc_event(
        MidiChannel::Ch1,
        ControlChangeEvent::Undefined { control: 7, value: 100 },
    );
    let msgs = model.handle_incoming_midi(0, &event, 0).unwrap();
    assert_eq!(count_raw(&msgs), 1);
    assert_eq!(count_knob(&msgs), 0);
    assert_eq!(control_change_values(&msgs), vec![MidiValue::LowRes(100)]);
    let cc = msgs
        .iter()
        .find_map(|m| match m {
            TetherMidiMessage::ControlChange(p) => Some(p),
            _ => None,
        })
        .unwrap();
    assert_eq!(cc.channel, 1);
    assert!(matches!(cc.controller, ControllerLabel::Numbered(7)));
}

#[test]
fn mapped_mod_wheel_emits_knob_at_half_position() {
    let mut model = MediationDataModel::new(ControllerValueMode::Absolute);
    let devices = vec![DeviceWithMapping::new(
        String::from("Device A"),
        vec![KnobMapping {
            channel: None,
            controller: ControllerLabel::Special(String::from("ModWheel")),
        }],
    )];
    model.add_knob_mapping("Device A", &devices).unwrap();
    let event = cc_event(MidiChannel::Ch3, ControlChangeEvent::ModWheel { value: 8192 });
    let msgs = model.handle_incoming_midi(0, &event, 0).unwrap();
    assert_eq!(control_change_values(&msgs), vec![MidiValue::HighRes(8192)]);
    let knob = msgs
        .iter()
        .find_map(|m| match m {
            TetherMidiMessage::Knob(p) => Some(p),
            _ => None,
        })
        .unwrap();
    assert_eq!(knob.index, 0);
    let position = knob.value as f32 / knob.max as f32;
    assert!((position - 0.5).abs() < 0.001);
}

#[test]
fn out_of_range_value_is_clamped_before_emission() {
    // A 7-bit controller value above 127 is outside its encoding's
    // valid range; it is clamped before emission.
    let mut model = MediationDataModel::new(ControllerValueMode::Absolute);
    let event = cc_event(
        MidiChannel::Ch1,
        ControlChangeEvent::Undefined { control: 7, value: 200 },
    );
    let msgs = model.handle_incoming_midi(0, &event, 0).unwrap();
    assert_eq!(control_change_values(&msgs), vec![MidiValue::LowRes(127)]);
}

#[test]
fn note_on_emits_exactly_note_on_and_raw() {
    let mut model = MediationDataModel::new(ControllerValueMode::Absolute);
    let event = MidiEvent::ChannelVoice {
        channel: MidiChannel::Ch10,
        event: ChannelVoiceEvent::NoteOn { note: 60, velocity: 127 },
    };
    let msgs = model.handle_incoming_midi(0, &event, 0).unwrap();
    assert_eq!(msgs.len(), 2);
    assert_eq!(count_raw(&msgs), 1);
    let note = msgs
        .iter()
        .find_map(|m| match m {
            TetherMidiMessage::NoteOn(p) => Some(p),
            _ => None,
        })
        .unwrap();
    assert_eq!((note.channel, note.note, note.velocity), (10, 60, 127));
}

#[test]
fn note_off_translates_channel_to_one_based() {
    let mut model = MediationDataModel::new(ControllerValueMode::Absolute);
    let event = MidiEvent::ChannelVoice {
        channel: MidiChannel::Ch16,
        event: ChannelVoiceEvent::NoteOff { note: 12, velocity: 40 },
    };
    let msgs = model.handle_incoming_midi(0, &event, 0).unwrap();
    assert_eq!(msgs.len(), 2);
    let note = msgs
        .iter()
        .find_map(|m| match m {
            TetherMidiMessage::NoteOff(p) => Some(p),
            _ => None,
        })
        .unwrap();
    assert_eq!((note.channel, note.note, note.velocity), (16, 12, 40));
}

#[test]
fn unrecognized_events_emit_only_raw() {
    let mut model = MediationDataModel::new(ControllerValueMode::Absolute);
    for event in [
        MidiEvent::Other,
        MidiEvent::ChannelVoice { channel: MidiChannel::Ch2, event: ChannelVoiceEvent::Other },
        cc_event(MidiChannel::Ch2, ControlChangeEvent::Other),
    ] {
        let msgs = model.handle_incoming_midi(0, &event, 0).unwrap();
        assert_eq!(msgs.len(), 1);
        assert_eq!(count_raw(&msgs), 1);
    }
}

#[test]
fn raw_payload_is_the_messagepack_encoding_of_the_summary() {
    let mut model = MediationDataModel::new(ControllerValueMode::Absolute);
    let event = MidiEvent::ChannelVoice {
        channel: MidiChannel::Ch10,
        event: ChannelVoiceEvent::NoteOn { note: 60, velocity: 127 },
    };
    let msgs = model.handle_incoming_midi(0, &event, 0).unwrap();
    let summary = "NoteOn channel=10 note=60 velocity=127";
    let expected = rmp_serde::to_vec_named(&String::from(summary)).unwrap();
    match &msgs[0] {
        TetherMidiMessage::Raw(bytes) => {
            assert_eq!(bytes, &expected);
            // The payload is an encoding, not the bare summary text.
            assert_ne!(bytes.as_slice(), summary.as_bytes());
        }
        other => panic!("first message should be Raw, got {:?}", other),
    }
    assert_eq!(model.midi_message_log.get(0).as_str(), summary);
}

#[test]
fn logs_record_inbound_and_outbound_summaries() {
    let mut model = MediationDataModel::new(ControllerValueMode::Absolute);
    let event = cc_event(
        MidiChannel::Ch1,
        ControlChangeEvent::Undefined { control: 7, value: 100 },
    );
    model.handle_incoming_midi(0, &event, 0).unwrap();
    assert_eq!(
        model.midi_message_log.get(0).as_str(),
        "ControlChange channel=1 Undefined control=7 value=100"
    );
    assert_eq!(
        model.tether_message_log.get(0).as_str(),
        "ControlChangePayload channel=1 controller=Numbered(7) value=LowRes(100)"
    );
}

#[test]
fn monitoring_logs_stay_within_configured_length() {
    let mut model = MediationDataModel::new(ControllerValueMode::Absolute);
    for i in 0..(MONITOR_LOG_LENGTH + 5) {
        let event = MidiEvent::ChannelVoice {
            channel: MidiChannel::Ch1,
            event: ChannelVoiceEvent::NoteOn { note: (i % 128) as u8, velocity: 1 },
        };
        model.handle_incoming_midi(0, &event, 0).unwrap();
    }
    assert_eq!(model.midi_message_log.len(), MONITOR_LOG_LENGTH);
    assert_eq!(model.tether_message_log.len(), MONITOR_LOG_LENGTH);
    // The oldest entries were evicted: the log now starts at note 5.
    assert_eq!(
        model.midi_message_log.get(0).as_str(),
        "NoteOn channel=1 note=5 velocity=1"
    );
}

#[test]
fn engine_updates_port_activity_only_for_known_ports() {
    let mut model = MediationDataModel::new(ControllerValueMode::Absolute);
    model.add_port(0, String::from("Device A"), 100);
    let event = MidiEvent::Other;
    model.handle_incoming_midi(0, &event, 200).unwrap();
    assert_eq!(model.ports_metadata.len(), 1);
    assert_eq!(model.ports_metadata[0].last_received, 200);
    // An event from an unregistered port registers nothing.
    model.handle_incoming_midi(9, &event, 300).unwrap();
    assert_eq!(model.ports_metadata.len(), 1);
    assert_eq!(model.ports_metadata[0].last_received, 200);
}

#[test]
fn add_knob_mapping_keeps_previous_knobs_on_unknown_device() {
    let mut model = MediationDataModel::new(ControllerValueMode::Absolute);
    let devices = vec![DeviceWithMapping::new(
        String::from("Device A"),
        vec![KnobMapping { channel: None, controller: ControllerLabel::Numbered(7) }],
    )];
    model.add_knob_mapping("Device A", &devices).unwrap();
    assert_eq!(model.knobs.len(), 1);
    assert!(model.add_knob_mapping("Device B", &devices).is_err());
    assert_eq!(model.knobs.len(), 1);
}

#[test]
fn undefined_high_res_controller_gets_compound_label() {
    let mut model = MediationDataModel::new(ControllerValueMode::Absolute);
    let event = cc_event(
        MidiChannel::Ch1,
        ControlChangeEvent::UndefinedHighRes { control1: 16, control2: 48, value: 1000 },
    );
    let msgs = model.handle_incoming_midi(0, &event, 0).unwrap();
    let cc = msgs
        .iter()
        .find_map(|m| match m {
            TetherMidiMessage::ControlChange(p) => Some(p),
            _ => None,
        })
        .unwrap();
    match &cc.controller {
        ControllerLabel::Special(name) => assert_eq!(name, "UndefinedHighRes-16-48"),
        other => panic!("expected a special label, got {:?}", other),
    }
    assert_eq!(cc.value, MidiValue::HighRes(1000));
}
