//! Outbound message payloads: the normalized forms that the mediation
//! engine emits for the bus publisher.

use vstd::prelude::*;

verus! {

/// Highest raw value reachable by a low-resolution (7-bit) controller.
pub const MAX_LORES: u8 = 127;

/// Highest raw value reachable by a high-resolution (14-bit) controller.
pub const MAX_HIRES: u16 = 16383;

/// Identity of a control-change controller: a generic controller number,
/// or a well-known named controller (mod-wheel, pan, volume, ...).
#[derive(Debug)]
pub enum ControllerLabel {
    Numbered(u8),
    Special(String),
}

/// Mathematical model of a `ControllerLabel`: the name as a character
/// sequence instead of a `String`.
pub enum ControllerLabelView {
    Numbered(u8),
    Special(Seq<char>),
}

impl View for ControllerLabel {
    type V = ControllerLabelView;

    open spec fn view(&self) -> ControllerLabelView {
        match self {
            ControllerLabel::Numbered(n) => ControllerLabelView::Numbered(*n),
            ControllerLabel::Special(s) => ControllerLabelView::Special(s@),
        }
    }
}

/// A controller value, in either of the two supported encodings.
/// The tag fixes the normalization divisor for knob positions:
/// `MAX_LORES` for `LowRes`, `MAX_HIRES` for `HighRes`.
#[derive(Clone, Copy, Debug, PartialEq, Eq, Structural)]
pub enum MidiValue {
    LowRes(u8),
    HighRes(u16),
}

/// Whether a controller value lies within its encoding's valid range.
pub open spec fn spec_value_in_range(v: MidiValue) -> bool {
    match v {
        MidiValue::LowRes(x) => x <= MAX_LORES,
        MidiValue::HighRes(x) => x <= MAX_HIRES,
    }
}

/// A controller value clamped into its encoding's valid range: the
/// identity on every value already in range.
pub open spec fn spec_clamp_value(v: MidiValue) -> MidiValue {
    match v {
        MidiValue::LowRes(x) => MidiValue::LowRes(
            if x > MAX_LORES {
                MAX_LORES
            } else {
                x
            },
        ),
        MidiValue::HighRes(x) => MidiValue::HighRes(
            if x > MAX_HIRES {
                MAX_HIRES
            } else {
                x
            },
        ),
    }
}

/// Clamps a controller value, exactly as `spec_clamp_value` states.
pub fn clamp_value(v: MidiValue) -> (r: MidiValue)
    ensures
        r == spec_clamp_value(v),
        spec_value_in_range(r),
{
    match v {
        MidiValue::LowRes(x) => MidiValue::LowRes(
            if x > MAX_LORES {
                MAX_LORES
            } else {
                x
            },
        ),
        MidiValue::HighRes(x) => MidiValue::HighRes(
            if x > MAX_HIRES {
                MAX_HIRES
            } else {
                x
            },
        ),
    }
}

/// Payload for a note-on or note-off message. `channel` is 1-based.
#[derive(Clone, Copy, Debug, PartialEq, Eq, Structural)]
pub struct NotePayload {
    pub channel: u8,
    pub note: u8,
    pub velocity: u8,
}

/// Payload for a control-change message. `channel` is 1-based.
#[derive(Debug)]
pub struct ControlChangePayload {
    pub channel: u8,
    pub controller: ControllerLabel,
    pub value: MidiValue,
}

/// Mathematical model of a `ControlChangePayload`.
pub struct ControlChangePayloadView {
    pub channel: u8,
    pub controller: ControllerLabelView,
    pub value: MidiValue,
}

impl View for ControlChangePayload {
    type V = ControlChangePayloadView;

    open spec fn view(&self) -> ControlChangePayloadView {
        ControlChangePayloadView {
            channel: self.channel,
            controller: self.controller@,
            value: self.value,
        }
    }
}

/// Payload for a logical-knob update. The normalized position is
/// `value / max`; it is kept as an exact fraction so that the engine
/// never computes in floating point. `max` is `MAX_LORES` or
/// `MAX_HIRES` according to the encoding of the source value, and
/// `index` is a valid position in the device's knob mapping list.
#[derive(Clone, Copy, Debug, PartialEq, Eq, Structural)]
pub struct KnobPayload {
    pub index: u8,
    pub value: u16,
    pub max: u16,
}

/// A normalized outbound message, one variant per outbound topic.
#[derive(Debug)]
pub enum TetherMidiMessage {
    /// Already-encoded payload
    Raw(Vec<u8>),
    NoteOn(NotePayload),
    NoteOff(NotePayload),
    ControlChange(ControlChangePayload),
    Knob(KnobPayload),
}

/// Mathematical model of a `TetherMidiMessage`.
pub enum MessageView {
    Raw(Seq<u8>),
    NoteOn(NotePayload),
    NoteOff(NotePayload),
    ControlChange(ControlChangePayloadView),
    Knob(KnobPayload),
}

impl View for TetherMidiMessage {
    type V = MessageView;

    open spec fn view(&self) -> MessageView {
        match self {
            TetherMidiMessage::Raw(bytes) => MessageView::Raw(bytes@),
            TetherMidiMessage::NoteOn(p) => MessageView::NoteOn(*p),
            TetherMidiMessage::NoteOff(p) => MessageView::NoteOff(*p),
            TetherMidiMessage::ControlChange(p) => MessageView::ControlChange(p@),
            TetherMidiMessage::Knob(p) => MessageView::Knob(*p),
        }
    }
}

/// The views of a sequence of outbound messages.
pub open spec fn messages_view(s: Seq<TetherMidiMessage>) -> Seq<MessageView> {
    s.map_values(|m: TetherMidiMessage| m@)
}

/// The view of a message sequence with one message appended.
pub proof fn lemma_messages_view_push(s: Seq<TetherMidiMessage>, m: TetherMidiMessage)
    ensures
        messages_view(s.push(m)) =~= messages_view(s).push(m@),
{
    assert forall|k: int| 0 <= k < s.len() + 1 implies messages_view(s.push(m))[k] == messages_view(
        s,
    ).push(m@)[k] by {
        assert(messages_view(s.push(m))[k] == s.push(m)[k]@);
    }
}

/// A copy of a controller label with the same model.
pub fn clone_label(label: &ControllerLabel) -> (r: ControllerLabel)
    ensures
        r@ == label@,
{
    match label {
        ControllerLabel::Numbered(n) => ControllerLabel::Numbered(*n),
        ControllerLabel::Special(s) => ControllerLabel::Special(s.clone()),
    }
}

} // verus!
