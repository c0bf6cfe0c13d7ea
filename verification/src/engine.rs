//! The mediation engine: the stateful translator that consumes raw
//! per-device control events, decodes controller value encodings,
//! resolves device-specific knob mappings, and emits normalized
//! outbound messages plus bounded monitoring logs. Each incoming event
//! is handled in one synchronous pass whose effect on the state and
//! whose emitted messages are stated exactly by `spec_process`.

use vstd::prelude::*;
use crate::decoder::{
    decode_controller_value, spec_decode, ControllerValueMode, ControllerValueTable,
};
use crate::events::{
    channel_to_int, control_identity, spec_channel_to_int, spec_control_identity,
    ChannelVoiceEvent, MidiEvent,
};
use crate::mappings::{
    devices_view, knobs_view, lemma_find_device_characterization,
    lemma_resolve_knob_characterization, load_knob_mappings, resolve_knob, spec_find_device,
    spec_resolve_knob, DeviceWithMapping, KnobMapping, MappingError,
};
use crate::messages::{
    clamp_value, clone_label, lemma_messages_view_push, messages_view, spec_clamp_value,
    spec_value_in_range, ControlChangePayload, ControlChangePayloadView, ControllerLabel,
    ControllerLabelView, KnobPayload, MessageView, MidiValue, NotePayload, TetherMidiMessage,
    MAX_HIRES, MAX_LORES,
};
use crate::monitor::{spec_log_push, MonitorLog};
use crate::ports::{
    ports_view, register_port, spec_register_port, spec_touch_port, touch_port,
    unique_port_indices, PortInformation, PortInformationView,
};
use crate::render::{
    control_change_summary, event_summary, knob_summary, note_summary,
    spec_control_change_summary, spec_event_summary, spec_knob_summary, spec_note_summary,
};

verus! {

/// How many entries each monitoring log keeps.
pub const MONITOR_LOG_LENGTH: usize = 16;

/// The error of one event-handling pass: the raw payload could not be
/// encoded. The encoder failing indicates a programming-invariant
/// failure, so it is surfaced instead of being logged away.
#[derive(Clone, Copy, Debug, PartialEq, Eq, Structural)]
pub enum MediationError {
    RawPayloadEncoding,
}

/// The bytes that the MessagePack encoder produces for a string; they
/// depend on the characters alone.
pub uninterp spec fn msgpack_of(s: Seq<char>) -> Seq<u8>;

/// Relies on rmp_serde::to_vec_named: encodes a string as a named
/// MessagePack value, writing into a freshly allocated buffer; the
/// bytes are a function of the string alone, and an error is only
/// reported when the buffer cannot grow.
#[verifier::external_body]
fn encode_raw_payload(s: &String) -> (r: Option<Vec<u8>>)
    ensures
        r matches Some(b) ==> b@ == msgpack_of(s@),
{
    match rmp_serde::to_vec_named(s) {
        Ok(bytes) => Some(bytes),
        Err(_) => None,
    }
}

/// Mathematical model of the whole engine state.
pub struct ModelView {
    /// Summaries of inbound events, oldest first.
    pub midi_log: Seq<Seq<char>>,
    /// Summaries of outbound messages, oldest first.
    pub tether_log: Seq<Seq<char>>,
    /// Registered ports with their last-activity timestamps.
    pub ports: Seq<PortInformationView>,
    /// Whether the bus publisher reports itself connected.
    pub tether_connected: bool,
    /// The broker address the bus publisher reports, if any.
    pub tether_uri: Option<Seq<char>>,
    /// The session-wide controller value interpretation.
    pub mode: ControllerValueMode,
    /// Last-known absolute controller values, by controller key.
    pub known: Map<Seq<char>, MidiValue>,
    /// The loaded knob mapping list of the current device.
    pub knobs: Seq<crate::mappings::KnobMappingView>,
}

/// The engine state: monitoring logs, port registry, bus-connection
/// observations, decoder mode and table, and the loaded knob mappings.
pub struct MediationDataModel {
    pub midi_message_log: MonitorLog,
    pub tether_message_log: MonitorLog,
    pub ports_metadata: Vec<PortInformation>,
    pub tether_connected: bool,
    pub tether_uri: Option<String>,
    pub controller_mode: ControllerValueMode,
    pub known_controller_values: ControllerValueTable,
    pub knobs: Vec<KnobMapping>,
}

impl View for MediationDataModel {
    type V = ModelView;

    open spec fn view(&self) -> ModelView {
        ModelView {
            midi_log: self.midi_message_log@,
            tether_log: self.tether_message_log@,
            ports: ports_view(self.ports_metadata@),
            tether_connected: self.tether_connected,
            tether_uri: match self.tether_uri {
                Some(s) => Some(s@),
                None => None,
            },
            mode: self.controller_mode,
            known: self.known_controller_values@,
            knobs: knobs_view(self.knobs@),
        }
    }
}

/// What handling one recognized control change does: decode the value,
/// clamp it into its encoding's valid range, emit the control-change
/// payload, and, when a knob mapping entry matches, emit the knob
/// payload with the normalized position as an exact fraction; both
/// payloads are also logged. The clamp before emission only matters
/// for inputs already outside their encoding's range.
pub open spec fn spec_control_change_step(
    m: ModelView,
    channel_int: u8,
    label: ControllerLabelView,
    value: MidiValue,
) -> (ModelView, Seq<MessageView>) {
    let decoded = spec_clamp_value(spec_decode(m.mode, m.known, label, value).0);
    let known2 = spec_decode(m.mode, m.known, label, value).1;
    let cc = ControlChangePayloadView { channel: channel_int, controller: label, value: decoded };
    let log1 = spec_log_push(
        m.tether_log,
        MONITOR_LOG_LENGTH as nat,
        spec_control_change_summary(cc),
    );
    match spec_resolve_knob(m.knobs, channel_int, label) {
        Some(i) => {
            let knob = KnobPayload {
                index: i as u8,
                value: match decoded {
                    MidiValue::LowRes(x) => x as u16,
                    MidiValue::HighRes(x) => x,
                },
                max: match decoded {
                    MidiValue::LowRes(_) => MAX_LORES as u16,
                    MidiValue::HighRes(_) => MAX_HIRES,
                },
            };
            let log2 = spec_log_push(log1, MONITOR_LOG_LENGTH as nat, spec_knob_summary(knob));
            (
                ModelView { tether_log: log2, known: known2, ..m },
                seq![MessageView::ControlChange(cc), MessageView::Knob(knob)],
            )
        },
        None => (
            ModelView { tether_log: log1, known: known2, ..m },
            seq![MessageView::ControlChange(cc)],
        ),
    }
}

/// Law: controller values are clamped to their valid range before
/// emission. Every control-change message that one step emits carries
/// an in-range value, and every knob message carries a value no
/// greater than its divisor, so the normalized position lies between
/// 0 and 1.
pub proof fn lemma_emitted_values_clamped(
    m: ModelView,
    channel_int: u8,
    label: ControllerLabelView,
    value: MidiValue,
)
    ensures
        forall|k: int|
            0 <= k < spec_control_change_step(m, channel_int, label, value).1.len()
                ==> match #[trigger] spec_control_change_step(m, channel_int, label, value).1[k] {
                MessageView::ControlChange(cc) => spec_value_in_range(cc.value),
                MessageView::Knob(knob) => knob.value <= knob.max,
                _ => true,
            },
{
}

/// What one full event-handling pass does, given the already-encoded
/// raw payload: log the event summary, emit the raw message, translate
/// note and recognized control-change events into their normalized
/// messages with their log entries, and touch the originating port.
pub open spec fn spec_process(
    m: ModelView,
    port_index: usize,
    event: MidiEvent,
    raw: Seq<u8>,
    now: u64,
) -> (ModelView, Seq<MessageView>) {
    let m1 = ModelView {
        midi_log: spec_log_push(m.midi_log, MONITOR_LOG_LENGTH as nat, spec_event_summary(event)),
        ..m
    };
    let stepped = match event {
        MidiEvent::ChannelVoice { channel, event: voice } => {
            let ch = spec_channel_to_int(channel);
            match voice {
                ChannelVoiceEvent::NoteOn { note, velocity } => {
                    let p = NotePayload { channel: ch, note, velocity };
                    (
                        ModelView {
                            tether_log: spec_log_push(
                                m1.tether_log,
                                MONITOR_LOG_LENGTH as nat,
                                spec_note_summary(p),
                            ),
                            ..m1
                        },
                        seq![MessageView::NoteOn(p)],
                    )
                },
                ChannelVoiceEvent::NoteOff { note, velocity } => {
                    let p = NotePayload { channel: ch, note, velocity };
                    (
                        ModelView {
                            tether_log: spec_log_push(
                                m1.tether_log,
                                MONITOR_LOG_LENGTH as nat,
                                spec_note_summary(p),
                            ),
                            ..m1
                        },
                        seq![MessageView::NoteOff(p)],
                    )
                },
                ChannelVoiceEvent::ControlChange { control } => match spec_control_identity(
                    control,
                ) {
                    Some(identity) => spec_control_change_step(m1, ch, identity.0, identity.1),
                    None => (m1, Seq::<MessageView>::empty()),
                },
                ChannelVoiceEvent::Other => (m1, Seq::<MessageView>::empty()),
            }
        },
        MidiEvent::Other => (m1, Seq::<MessageView>::empty()),
    };
    let m2 = stepped.0;
    let msgs = stepped.1;
    (
        ModelView { ports: spec_touch_port(m2.ports, port_index, now), ..m2 },
        seq![MessageView::Raw(raw)] + msgs,
    )
}

impl MediationDataModel {
    /// Well-formedness of the engine state: both logs are within their
    /// configured length, the decoder table keys are distinct, port
    /// indices are registered once, and the knob list is short enough
    /// for its positions to fit the knob payload's index.
    pub open spec fn inv(&self) -> bool {
        &&& self.midi_message_log.inv()
        &&& self.midi_message_log.spec_capacity() == MONITOR_LOG_LENGTH as nat
        &&& self.tether_message_log.inv()
        &&& self.tether_message_log.spec_capacity() == MONITOR_LOG_LENGTH as nat
        &&& self.known_controller_values.inv()
        &&& unique_port_indices(ports_view(self.ports_metadata@))
        &&& self.knobs@.len() <= 256
    }

    /// A fresh engine in the given controller value mode: empty logs,
    /// no ports, no known controller values, no knob mappings, and the
    /// bus publisher not yet reported connected.
    pub fn new(controller_mode: ControllerValueMode) -> (r: MediationDataModel)
        ensures
            r.inv(),
            r@.midi_log == Seq::<Seq<char>>::empty(),
            r@.tether_log == Seq::<Seq<char>>::empty(),
            r@.ports == Seq::<PortInformationView>::empty(),
            r@.tether_connected == false,
            r@.tether_uri is None,
            r@.mode == controller_mode,
            r@.known == Map::<Seq<char>, MidiValue>::empty(),
            r@.knobs == Seq::<crate::mappings::KnobMappingView>::empty(),
    {
        let r = MediationDataModel {
            midi_message_log: MonitorLog::new(MONITOR_LOG_LENGTH),
            tether_message_log: MonitorLog::new(MONITOR_LOG_LENGTH),
            ports_metadata: Vec::new(),
            tether_connected: false,
            tether_uri: None,
            controller_mode,
            known_controller_values: ControllerValueTable::new(),
            knobs: Vec::new(),
        };
        proof {
            assert(ports_view(r.ports_metadata@) =~= Seq::<PortInformationView>::empty());
            assert(knobs_view(r.knobs@) =~= Seq::<crate::mappings::KnobMappingView>::empty());
        }
        r
    }

    /// Registers a port, creating or overwriting its entry; `now` is
    /// the caller's timestamp for the registration.
    pub fn add_port(&mut self, index: usize, full_name: String, now: u64)
        requires
            old(self).inv(),
        ensures
            final(self).inv(),
            final(self)@ == (ModelView {
                ports: spec_register_port(old(self)@.ports, index, full_name@, now),
                ..old(self)@
            }),
    {
        register_port(&mut self.ports_metadata, index, full_name, now);
    }

    /// Updates the last-activity timestamp of the originating port; a
    /// no-op for an unregistered index.
    fn update_port_info(&mut self, index: usize, now: u64)
        requires
            old(self).inv(),
        ensures
            final(self).inv(),
            final(self)@ == (ModelView {
                ports: spec_touch_port(old(self)@.ports, index, now),
                ..old(self)@
            }),
    {
        touch_port(&mut self.ports_metadata, index, now);
        proof {
            assert forall|i: int, j: int|
                0 <= i < j < ports_view(self.ports_metadata@).len() implies ports_view(
                self.ports_metadata@,
            )[i].index != ports_view(self.ports_metadata@)[j].index by {
                assert(ports_view(old(self).ports_metadata@)[i].index == ports_view(
                    self.ports_metadata@,
                )[i].index);
                assert(ports_view(old(self).ports_metadata@)[j].index == ports_view(
                    self.ports_metadata@,
                )[j].index);
            }
        }
    }

    /// Loads the knob mapping list of the named device from the given
    /// table, replacing the current list; the current list is kept when
    /// the table does not name the device, which is the `Err` case.
    /// The bound on each device's list length is the machine limit of
    /// the knob payload, whose index is a single byte.
    pub fn add_knob_mapping(&mut self, name: &str, devices: &Vec<DeviceWithMapping>) -> (r: Result<
        (),
        MappingError,
    >)
        requires
            old(self).inv(),
            forall|i: int| 0 <= i < devices@.len() ==> (#[trigger] devices@[i])@.knobs.len() <= 256,
        ensures
            final(self).inv(),
            match r {
                Ok(_) => {
                    &&& spec_find_device(devices_view(devices@), name@) matches Some(i)
                    &&& final(self)@ == (ModelView {
                        knobs: devices_view(devices@)[i].knobs,
                        ..old(self)@
                    })
                },
                Err(e) => {
                    &&& spec_find_device(devices_view(devices@), name@) is None
                    &&& e == MappingError::DeviceNotFound
                    &&& final(self)@ == old(self)@
                },
            },
    {
        match load_knob_mappings(devices, name) {
            Ok(knobs) => {
                proof {
                    lemma_find_device_characterization(devices_view(devices@), name@);
                }
                self.knobs = knobs;
                Ok(())
            },
            Err(e) => Err(e),
        }
    }

    /// Decodes one recognized control change and appends the resulting
    /// messages, exactly as `spec_control_change_step` states.
    fn send_control_change(
        &mut self,
        control_label: ControllerLabel,
        value: MidiValue,
        channel_int: u8,
        out: &mut Vec<TetherMidiMessage>,
    )
        requires
            old(self).inv(),
        ensures
            final(self).inv(),
            final(self)@ == spec_control_change_step(
                old(self)@,
                channel_int,
                control_label@,
                value,
            ).0,
            messages_view(final(out)@) == messages_view(old(out)@) + spec_control_change_step(
                old(self)@,
                channel_int,
                control_label@,
                value,
            ).1,
    {
        let decoded = clamp_value(
            decode_controller_value(
                &self.controller_mode,
                &mut self.known_controller_values,
                &control_label,
                value,
            ),
        );
        let cc = ControlChangePayload {
            channel: channel_int,
            controller: clone_label(&control_label),
            value: decoded,
        };
        self.tether_message_log.push_back(control_change_summary(&cc));
        proof {
            lemma_messages_view_push(out@, TetherMidiMessage::ControlChange(cc));
        }
        out.push(TetherMidiMessage::ControlChange(cc));
        match resolve_knob(&self.knobs, channel_int, &control_label) {
            Some(i) => {
                proof {
                    lemma_resolve_knob_characterization(
                        knobs_view(self.knobs@),
                        channel_int,
                        control_label@,
                    );
                }
                let knob = KnobPayload {
                    index: i as u8,
                    value: match decoded {
                        MidiValue::LowRes(x) => x as u16,
                        MidiValue::HighRes(x) => x,
                    },
                    max: match decoded {
                        MidiValue::LowRes(_) => MAX_LORES as u16,
                        MidiValue::HighRes(_) => MAX_HIRES,
                    },
                };
                self.tether_message_log.push_back(knob_summary(&knob));
                proof {
                    lemma_messages_view_push(out@, TetherMidiMessage::Knob(knob));
                }
                out.push(TetherMidiMessage::Knob(knob));
                proof {
                    assert(messages_view(out@) =~= messages_view(old(out)@)
                        + spec_control_change_step(old(self)@, channel_int, control_label@,
                        value,
                    ).1);
                }
            },
            None => {
                proof {
                    assert(messages_view(out@) =~= messages_view(old(out)@)
                        + spec_control_change_step(old(self)@, channel_int, control_label@,
                        value,
                    ).1);
                }
            },
        }
    }

    /// Handles one inbound event whose raw payload is already encoded,
    /// exactly as `spec_process` states: returns the outbound messages
    /// and applies all state updates in place.
    pub fn process_event(
        &mut self,
        port_index: usize,
        event: &MidiEvent,
        raw_payload: Vec<u8>,
        now: u64,
    ) -> (msgs: Vec<TetherMidiMessage>)
        requires
            old(self).inv(),
        ensures
            final(self).inv(),
            final(self)@ == spec_process(old(self)@, port_index, *event, raw_payload@, now).0,
            messages_view(msgs@) == spec_process(old(self)@, port_index, *event, raw_payload@,
                now,
            ).1,
            final(self)@.midi_log.len() <= MONITOR_LOG_LENGTH,
            final(self)@.tether_log.len() <= MONITOR_LOG_LENGTH,
    {
        let ghost target = spec_process(old(self)@, port_index, *event, raw_payload@, now);
        let mut msgs: Vec<TetherMidiMessage> = Vec::new();
        self.midi_message_log.push_back(event_summary(event));
        proof {
            lemma_messages_view_push(msgs@, TetherMidiMessage::Raw(raw_payload));
            assert(messages_view(Seq::<TetherMidiMessage>::empty())
                =~= Seq::<MessageView>::empty());
        }
        msgs.push(TetherMidiMessage::Raw(raw_payload));
        match event {
            MidiEvent::ChannelVoice { channel, event: voice } => {
                let ch = channel_to_int(*channel);
                match voice {
                    ChannelVoiceEvent::NoteOn { note, velocity } => {
                        let p = NotePayload { channel: ch, note: *note, velocity: *velocity };
                        self.tether_message_log.push_back(note_summary(&p));
                        proof {
                            lemma_messages_view_push(msgs@, TetherMidiMessage::NoteOn(p));
                        }
                        msgs.push(TetherMidiMessage::NoteOn(p));
                    },
                    ChannelVoiceEvent::NoteOff { note, velocity } => {
                        let p = NotePayload { channel: ch, note: *note, velocity: *velocity };
                        self.tether_message_log.push_back(note_summary(&p));
                        proof {
                            lemma_messages_view_push(msgs@, TetherMidiMessage::NoteOff(p));
                        }
                        msgs.push(TetherMidiMessage::NoteOff(p));
                    },
                    ChannelVoiceEvent::ControlChange { control } => {
                        match control_identity(control) {
                            Some(identity) => {
                                let (label, value) = identity;
                                self.send_control_change(label, value, ch, &mut msgs);
                            },
                            None => {},
                        }
                    },
                    ChannelVoiceEvent::Other => {},
                }
            },
            MidiEvent::Other => {},
        }
        self.update_port_info(port_index, now);
        proof {
            assert(messages_view(msgs@) =~= target.1);
            self.midi_message_log.lemma_within_capacity();
            self.tether_message_log.lemma_within_capacity();
        }
        msgs
    }

    /// Handles one inbound event end to end: renders the summary,
    /// encodes the raw payload, and runs the processing pass. The
    /// engine state is untouched and the error returned if and only if
    /// the encoder fails; otherwise the result and state are exactly
    /// those of `spec_process` on the encoder's bytes.
    pub fn handle_incoming_midi(&mut self, port_index: usize, event: &MidiEvent, now: u64) -> (r:
        Result<Vec<TetherMidiMessage>, MediationError>)
        requires
            old(self).inv(),
        ensures
            final(self).inv(),
            final(self)@.midi_log.len() <= MONITOR_LOG_LENGTH,
            final(self)@.tether_log.len() <= MONITOR_LOG_LENGTH,
            match r {
                Ok(msgs) => {
                    let raw = msgpack_of(spec_event_summary(*event));
                    &&& final(self)@ == spec_process(old(self)@, port_index, *event, raw, now).0
                    &&& messages_view(msgs@) == spec_process(
                        old(self)@,
                        port_index,
                        *event,
                        raw,
                        now,
                    ).1
                },
                Err(e) => {
                    &&& final(self)@ == old(self)@
                    &&& e == MediationError::RawPayloadEncoding
                },
            },
    {
        let summary = event_summary(event);
        match encode_raw_payload(&summary) {
            Some(payload) => Ok(self.process_event(port_index, event, payload, now)),
            None => {
                proof {
                    self.midi_message_log.lemma_within_capacity();
                    self.tether_message_log.lemma_within_capacity();
                }
                Err(MediationError::RawPayloadEncoding)
            },
        }
    }
}

} // verus!
