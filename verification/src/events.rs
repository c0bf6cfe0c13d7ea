//! The inbound event model: a closed tagged-variant form of the MIDI
//! events that the mediation engine interprets. The device input layer
//! converts what it reads from the wire into these plain values.

use vstd::prelude::*;
use vstd::string::StringExecFns;
use crate::messages::{ControllerLabel, ControllerLabelView, MidiValue};
use crate::render::{decimal_string, spec_decimal};

verus! {

/// A MIDI channel. Translated to a 1-based integer on the way out.
#[derive(Clone, Copy, Debug, PartialEq, Eq, Structural)]
pub enum MidiChannel {
    Ch1,
    Ch2,
    Ch3,
    Ch4,
    Ch5,
    Ch6,
    Ch7,
    Ch8,
    Ch9,
    Ch10,
    Ch11,
    Ch12,
    Ch13,
    Ch14,
    Ch15,
    Ch16,
}

/// The 1-based integer for a channel.
pub open spec fn spec_channel_to_int(channel: MidiChannel) -> u8 {
    match channel {
        MidiChannel::Ch1 => 1,
        MidiChannel::Ch2 => 2,
        MidiChannel::Ch3 => 3,
        MidiChannel::Ch4 => 4,
        MidiChannel::Ch5 => 5,
        MidiChannel::Ch6 => 6,
        MidiChannel::Ch7 => 7,
        MidiChannel::Ch8 => 8,
        MidiChannel::Ch9 => 9,
        MidiChannel::Ch10 => 10,
        MidiChannel::Ch11 => 11,
        MidiChannel::Ch12 => 12,
        MidiChannel::Ch13 => 13,
        MidiChannel::Ch14 => 14,
        MidiChannel::Ch15 => 15,
        MidiChannel::Ch16 => 16,
    }
}

/// Translates a channel to its 1-based integer.
pub fn channel_to_int(channel: MidiChannel) -> (r: u8)
    ensures
        r == spec_channel_to_int(channel),
        1 <= r <= 16,
{
    match channel {
        MidiChannel::Ch1 => 1,
        MidiChannel::Ch2 => 2,
        MidiChannel::Ch3 => 3,
        MidiChannel::Ch4 => 4,
        MidiChannel::Ch5 => 5,
        MidiChannel::Ch6 => 6,
        MidiChannel::Ch7 => 7,
        MidiChannel::Ch8 => 8,
        MidiChannel::Ch9 => 9,
        MidiChannel::Ch10 => 10,
        MidiChannel::Ch11 => 11,
        MidiChannel::Ch12 => 12,
        MidiChannel::Ch13 => 13,
        MidiChannel::Ch14 => 14,
        MidiChannel::Ch15 => 15,
        MidiChannel::Ch16 => 16,
    }
}

/// A control-change event, by controller identity. `Undefined` carries a
/// generic 7-bit controller; the named variants are the recognized
/// high-resolution (14-bit) controllers. `Other` stands for any
/// control-change identity the engine does not translate.
#[derive(Clone, Copy, Debug, PartialEq, Eq, Structural)]
pub enum ControlChangeEvent {
    Undefined { control: u8, value: u8 },
    ModWheel { value: u16 },
    Breath { value: u16 },
    UndefinedHighRes { control1: u8, control2: u8, value: u16 },
    Foot { value: u16 },
    Portamento { value: u16 },
    DataEntry { value: u16 },
    Volume { value: u16 },
    Balance { value: u16 },
    Pan { value: u16 },
    Expression { value: u16 },
    Effect1 { value: u16 },
    Effect2 { value: u16 },
    GeneralPurpose1 { value: u16 },
    GeneralPurpose2 { value: u16 },
    GeneralPurpose3 { value: u16 },
    GeneralPurpose4 { value: u16 },
    Other,
}

/// A channel voice event. `Other` stands for any channel-voice kind the
/// engine does not translate.
#[derive(Clone, Copy, Debug, PartialEq, Eq, Structural)]
pub enum ChannelVoiceEvent {
    NoteOn { note: u8, velocity: u8 },
    NoteOff { note: u8, velocity: u8 },
    ControlChange { control: ControlChangeEvent },
    Other,
}

/// An inbound MIDI event. `Other` stands for any non-channel-voice kind
/// (system, timing, ...), which the engine only logs.
#[derive(Clone, Copy, Debug, PartialEq, Eq, Structural)]
pub enum MidiEvent {
    ChannelVoice { channel: MidiChannel, event: ChannelVoiceEvent },
    Other,
}

/// The controller label and value carried by a control-change event, or
/// `None` for an identity the engine does not translate. The label of an
/// `UndefinedHighRes` pair names both 7-bit controller numbers.
pub open spec fn spec_control_identity(control: ControlChangeEvent) -> Option<
    (ControllerLabelView, MidiValue),
> {
    match control {
        ControlChangeEvent::Undefined { control, value } => Some(
            (ControllerLabelView::Numbered(control), MidiValue::LowRes(value)),
        ),
        ControlChangeEvent::ModWheel { value } => Some(
            (ControllerLabelView::Special("ModWheel"@), MidiValue::HighRes(value)),
        ),
        ControlChangeEvent::Breath { value } => Some(
            (ControllerLabelView::Special("Breath"@), MidiValue::HighRes(value)),
        ),
        ControlChangeEvent::UndefinedHighRes { control1, control2, value } => Some(
            (
                ControllerLabelView::Special(
                    "UndefinedHighRes-"@ + spec_decimal(control1 as nat) + "-"@ + spec_decimal(
                        control2 as nat,
                    ),
                ),
                MidiValue::HighRes(value),
            ),
        ),
        ControlChangeEvent::Foot { value } => Some(
            (ControllerLabelView::Special("Foot"@), MidiValue::HighRes(value)),
        ),
        ControlChangeEvent::Portamento { value } => Some(
            (ControllerLabelView::Special("Portamento"@), MidiValue::HighRes(value)),
        ),
        ControlChangeEvent::DataEntry { value } => Some(
            (ControllerLabelView::Special("DataEntry"@), MidiValue::HighRes(value)),
        ),
        ControlChangeEvent::Volume { value } => Some(
            (ControllerLabelView::Special("Volume"@), MidiValue::HighRes(value)),
        ),
        ControlChangeEvent::Balance { value } => Some(
            (ControllerLabelView::Special("Balance"@), MidiValue::HighRes(value)),
        ),
        ControlChangeEvent::Pan { value } => Some(
            (ControllerLabelView::Special("Pan"@), MidiValue::HighRes(value)),
        ),
        ControlChangeEvent::Expression { value } => Some(
            (ControllerLabelView::Special("Expression"@), MidiValue::HighRes(value)),
        ),
        ControlChangeEvent::Effect1 { value } => Some(
            (ControllerLabelView::Special("Effect1"@), MidiValue::HighRes(value)),
        ),
        ControlChangeEvent::Effect2 { value } => Some(
            (ControllerLabelView::Special("Effect2"@), MidiValue::HighRes(value)),
        ),
        ControlChangeEvent::GeneralPurpose1 { value } => Some(
            (ControllerLabelView::Special("GeneralPurpose1"@), MidiValue::HighRes(value)),
        ),
        ControlChangeEvent::GeneralPurpose2 { value } => Some(
            (ControllerLabelView::Special("GeneralPurpose2"@), MidiValue::HighRes(value)),
        ),
        ControlChangeEvent::GeneralPurpose3 { value } => Some(
            (ControllerLabelView::Special("GeneralPurpose3"@), MidiValue::HighRes(value)),
        ),
        ControlChangeEvent::GeneralPurpose4 { value } => Some(
            (ControllerLabelView::Special("GeneralPurpose4"@), MidiValue::HighRes(value)),
        ),
        ControlChangeEvent::Other => None,
    }
}

/// The label under which an `UndefinedHighRes` controller pair is known.
fn undefined_high_res_label(control1: u8, control2: u8) -> (r: String)
    ensures
        r@ == "UndefinedHighRes-"@ + spec_decimal(control1 as nat) + "-"@ + spec_decimal(
            control2 as nat,
        ),
{
    let mut s = String::from_str("UndefinedHighRes-");
    s.append(decimal_string(control1 as u64).as_str());
    s.append("-");
    s.append(decimal_string(control2 as u64).as_str());
    proof {
        assert(s@ =~= "UndefinedHighRes-"@ + spec_decimal(control1 as nat) + "-"@ + spec_decimal(
            control2 as nat,
        ));
    }
    s
}

/// Extracts the controller label and value of a control-change event,
/// exactly as `spec_control_identity` states.
pub fn control_identity(control: &ControlChangeEvent) -> (r: Option<(ControllerLabel, MidiValue)>)
    ensures
        match (r, spec_control_identity(*control)) {
            (Some(p), Some(q)) => p.0@ == q.0 && p.1 == q.1,
            (None, None) => true,
            _ => false,
        },
{
    match control {
        ControlChangeEvent::Undefined { control, value } => Some(
            (ControllerLabel::Numbered(*control), MidiValue::LowRes(*value)),
        ),
        ControlChangeEvent::ModWheel { value } => Some(
            (ControllerLabel::Special(String::from_str("ModWheel")), MidiValue::HighRes(*value)),
        ),
        ControlChangeEvent::Breath { value } => Some(
            (ControllerLabel::Special(String::from_str("Breath")), MidiValue::HighRes(*value)),
        ),
        ControlChangeEvent::UndefinedHighRes { control1, control2, value } => Some(
            (
                ControllerLabel::Special(undefined_high_res_label(*control1, *control2)),
                MidiValue::HighRes(*value),
            ),
        ),
        ControlChangeEvent::Foot { value } => Some(
            (ControllerLabel::Special(String::from_str("Foot")), MidiValue::HighRes(*value)),
        ),
        ControlChangeEvent::Portamento { value } => Some(
            (ControllerLabel::Special(String::from_str("Portamento")), MidiValue::HighRes(*value)),
        ),
        ControlChangeEvent::DataEntry { value } => Some(
            (ControllerLabel::Special(String::from_str("DataEntry")), MidiValue::HighRes(*value)),
        ),
        ControlChangeEvent::Volume { value } => Some(
            (ControllerLabel::Special(String::from_str("Volume")), MidiValue::HighRes(*value)),
        ),
        ControlChangeEvent::Balance { value } => Some(
            (ControllerLabel::Special(String::from_str("Balance")), MidiValue::HighRes(*value)),
        ),
        ControlChangeEvent::Pan { value } => Some(
            (ControllerLabel::Special(String::from_str("Pan")), MidiValue::HighRes(*value)),
        ),
        ControlChangeEvent::Expression { value } => Some(
            (ControllerLabel::Special(String::from_str("Expression")), MidiValue::HighRes(*value)),
        ),
        ControlChangeEvent::Effect1 { value } => Some(
            (ControllerLabel::Special(String::from_str("Effect1")), MidiValue::HighRes(*value)),
        ),
        ControlChangeEvent::Effect2 { value } => Some(
            (ControllerLabel::Special(String::from_str("Effect2")), MidiValue::HighRes(*value)),
        ),
        ControlChangeEvent::GeneralPurpose1 { value } => Some(
            (
                ControllerLabel::Special(String::from_str("GeneralPurpose1")),
                MidiValue::HighRes(*value),
            ),
        ),
        ControlChangeEvent::GeneralPurpose2 { value } => Some(
            (
                ControllerLabel::Special(String::from_str("GeneralPurpose2")),
                MidiValue::HighRes(*value),
            ),
        ),
        ControlChangeEvent::GeneralPurpose3 { value } => Some(
            (
                ControllerLabel::Special(String::from_str("GeneralPurpose3")),
                MidiValue::HighRes(*value),
            ),
        ),
        ControlChangeEvent::GeneralPurpose4 { value } => Some(
            (
                ControllerLabel::Special(String::from_str("GeneralPurpose4")),
                MidiValue::HighRes(*value),
            ),
        ),
        ControlChangeEvent::Other => None,
    }
}

} // verus!
