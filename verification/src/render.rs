//! Human-readable renderings of events and payloads for the monitoring
//! logs, together with the decimal rendering of unsigned numbers that
//! they rely on. Every rendering has an exact character-level
//! specification.

use vstd::prelude::*;
use vstd::string::StringExecFns;
use crate::events::{
    spec_channel_to_int, channel_to_int, ChannelVoiceEvent, ControlChangeEvent, MidiEvent,
};
use crate::messages::{
    ControlChangePayload, ControlChangePayloadView, ControllerLabel, ControllerLabelView,
    KnobPayload, MidiValue, NotePayload,
};

verus! {

/// The character for a single decimal digit.
pub open spec fn spec_digit_char(d: nat) -> char {
    if d == 0 {
        '0'
    } else if d == 1 {
        '1'
    } else if d == 2 {
        '2'
    } else if d == 3 {
        '3'
    } else if d == 4 {
        '4'
    } else if d == 5 {
        '5'
    } else if d == 6 {
        '6'
    } else if d == 7 {
        '7'
    } else if d == 8 {
        '8'
    } else {
        '9'
    }
}

/// The decimal rendering of a natural number, most significant digit
/// first, with no leading zeros (a lone zero for 0).
pub open spec fn spec_decimal(n: nat) -> Seq<char>
    decreases n,
{
    if n < 10 {
        seq![spec_digit_char(n)]
    } else {
        spec_decimal(n / 10).push(spec_digit_char(n % 10))
    }
}

/// The string slice holding a single decimal digit.
fn digit_str(d: u8) -> (r: &'static str)
    requires
        d < 10,
    ensures
        r@ == seq![spec_digit_char(d as nat)],
{
    proof {
        reveal_strlit("0");
        reveal_strlit("1");
        reveal_strlit("2");
        reveal_strlit("3");
        reveal_strlit("4");
        reveal_strlit("5");
        reveal_strlit("6");
        reveal_strlit("7");
        reveal_strlit("8");
        reveal_strlit("9");
    }
    let r = match d {
        0 => "0",
        1 => "1",
        2 => "2",
        3 => "3",
        4 => "4",
        5 => "5",
        6 => "6",
        7 => "7",
        8 => "8",
        _ => "9",
    };
    proof {
        assert(r@ =~= seq![spec_digit_char(d as nat)]);
    }
    r
}

/// Renders a number in decimal, exactly as `spec_decimal` states.
pub fn decimal_string(n: u64) -> (r: String)
    ensures
        r@ == spec_decimal(n as nat),
    decreases n,
{
    if n < 10 {
        String::from_str(digit_str(n as u8))
    } else {
        let mut s = decimal_string(n / 10);
        s.append(digit_str((n % 10) as u8));
        proof {
            assert(s@ =~= spec_decimal(n as nat));
        }
        s
    }
}

/// The rendering of a controller label.
pub open spec fn spec_label_summary(label: ControllerLabelView) -> Seq<char> {
    match label {
        ControllerLabelView::Numbered(n) => "Numbered("@ + spec_decimal(n as nat) + ")"@,
        ControllerLabelView::Special(name) => "Special("@ + name + ")"@,
    }
}

/// Renders a controller label, exactly as `spec_label_summary` states.
pub fn label_summary(label: &ControllerLabel) -> (r: String)
    ensures
        r@ == spec_label_summary(label@),
{
    match label {
        ControllerLabel::Numbered(n) => {
            let mut s = String::from_str("Numbered(");
            s.append(decimal_string(*n as u64).as_str());
            s.append(")");
            proof {
                assert(s@ =~= spec_label_summary(label@));
            }
            s
        },
        ControllerLabel::Special(name) => {
            let mut s = String::from_str("Special(");
            s.append(name.as_str());
            s.append(")");
            proof {
                assert(s@ =~= spec_label_summary(label@));
            }
            s
        },
    }
}

/// The rendering of a controller value.
pub open spec fn spec_value_summary(value: MidiValue) -> Seq<char> {
    match value {
        MidiValue::LowRes(v) => "LowRes("@ + spec_decimal(v as nat) + ")"@,
        MidiValue::HighRes(v) => "HighRes("@ + spec_decimal(v as nat) + ")"@,
    }
}

/// Renders a controller value, exactly as `spec_value_summary` states.
pub fn value_summary(value: &MidiValue) -> (r: String)
    ensures
        r@ == spec_value_summary(*value),
{
    match value {
        MidiValue::LowRes(v) => {
            let mut s = String::from_str("LowRes(");
            s.append(decimal_string(*v as u64).as_str());
            s.append(")");
            proof {
                assert(s@ =~= spec_value_summary(*value));
            }
            s
        },
        MidiValue::HighRes(v) => {
            let mut s = String::from_str("HighRes(");
            s.append(decimal_string(*v as u64).as_str());
            s.append(")");
            proof {
                assert(s@ =~= spec_value_summary(*value));
            }
            s
        },
    }
}

/// The log line for a note payload.
pub open spec fn spec_note_summary(p: NotePayload) -> Seq<char> {
    "NotePayload channel="@ + spec_decimal(p.channel as nat) + " note="@ + spec_decimal(
        p.note as nat,
    ) + " velocity="@ + spec_decimal(p.velocity as nat)
}

/// Renders a note payload, exactly as `spec_note_summary` states.
pub fn note_summary(p: &NotePayload) -> (r: String)
    ensures
        r@ == spec_note_summary(*p),
{
    let mut s = String::from_str("NotePayload channel=");
    s.append(decimal_string(p.channel as u64).as_str());
    s.append(" note=");
    s.append(decimal_string(p.note as u64).as_str());
    s.append(" velocity=");
    s.append(decimal_string(p.velocity as u64).as_str());
    proof {
        assert(s@ =~= spec_note_summary(*p));
    }
    s
}

/// The log line for a control-change payload.
pub open spec fn spec_control_change_summary(p: ControlChangePayloadView) -> Seq<char> {
    "ControlChangePayload channel="@ + spec_decimal(p.channel as nat) + " controller="@
        + spec_label_summary(p.controller) + " value="@ + spec_value_summary(p.value)
}

/// Renders a control-change payload, exactly as
/// `spec_control_change_summary` states.
pub fn control_change_summary(p: &ControlChangePayload) -> (r: String)
    ensures
        r@ == spec_control_change_summary(p@),
{
    let mut s = String::from_str("ControlChangePayload channel=");
    s.append(decimal_string(p.channel as u64).as_str());
    s.append(" controller=");
    s.append(label_summary(&p.controller).as_str());
    s.append(" value=");
    s.append(value_summary(&p.value).as_str());
    proof {
        assert(s@ =~= spec_control_change_summary(p@));
    }
    s
}

/// The log line for a knob payload.
pub open spec fn spec_knob_summary(p: KnobPayload) -> Seq<char> {
    "KnobPayload index="@ + spec_decimal(p.index as nat) + " value="@ + spec_decimal(
        p.value as nat,
    ) + " max="@ + spec_decimal(p.max as nat)
}

/// Renders a knob payload, exactly as `spec_knob_summary` states.
pub fn knob_summary(p: &KnobPayload) -> (r: String)
    ensures
        r@ == spec_knob_summary(*p),
{
    let mut s = String::from_str("KnobPayload index=");
    s.append(decimal_string(p.index as u64).as_str());
    s.append(" value=");
    s.append(decimal_string(p.value as u64).as_str());
    s.append(" max=");
    s.append(decimal_string(p.max as u64).as_str());
    proof {
        assert(s@ =~= spec_knob_summary(*p));
    }
    s
}

/// The rendering of a control-change event's identity and raw value.
pub open spec fn spec_control_event_summary(c: ControlChangeEvent) -> Seq<char> {
    match c {
        ControlChangeEvent::Undefined { control, value } => "Undefined control="@ + spec_decimal(
            control as nat,
        ) + " value="@ + spec_decimal(value as nat),
        ControlChangeEvent::ModWheel { value } => "ModWheel"@ + " value="@ + spec_decimal(value as nat),
        ControlChangeEvent::Breath { value } => "Breath"@ + " value="@ + spec_decimal(value as nat),
        ControlChangeEvent::UndefinedHighRes { control1, control2, value } => {
            "UndefinedHighRes control1="@ + spec_decimal(control1 as nat) + " control2="@
                + spec_decimal(control2 as nat) + " value="@ + spec_decimal(value as nat)
        },
        ControlChangeEvent::Foot { value } => "Foot"@ + " value="@ + spec_decimal(value as nat),
        ControlChangeEvent::Portamento { value } => "Portamento"@ + " value="@ + spec_decimal(
            value as nat,
        ),
        ControlChangeEvent::DataEntry { value } => "DataEntry"@ + " value="@ + spec_decimal(value as nat),
        ControlChangeEvent::Volume { value } => "Volume"@ + " value="@ + spec_decimal(value as nat),
        ControlChangeEvent::Balance { value } => "Balance"@ + " value="@ + spec_decimal(value as nat),
        ControlChangeEvent::Pan { value } => "Pan"@ + " value="@ + spec_decimal(value as nat),
        ControlChangeEvent::Expression { value } => "Expression"@ + " value="@ + spec_decimal(
            value as nat,
        ),
        ControlChangeEvent::Effect1 { value } => "Effect1"@ + " value="@ + spec_decimal(value as nat),
        ControlChangeEvent::Effect2 { value } => "Effect2"@ + " value="@ + spec_decimal(value as nat),
        ControlChangeEvent::GeneralPurpose1 { value } => "GeneralPurpose1"@ + " value="@ + spec_decimal(
            value as nat,
        ),
        ControlChangeEvent::GeneralPurpose2 { value } => "GeneralPurpose2"@ + " value="@ + spec_decimal(
            value as nat,
        ),
        ControlChangeEvent::GeneralPurpose3 { value } => "GeneralPurpose3"@ + " value="@ + spec_decimal(
            value as nat,
        ),
        ControlChangeEvent::GeneralPurpose4 { value } => "GeneralPurpose4"@ + " value="@ + spec_decimal(
            value as nat,
        ),
        ControlChangeEvent::Other => "OtherControlChange"@,
    }
}

/// Renders a named controller's summary: the controller name followed by
/// its raw value.
fn named_control_summary(name: &str, value: u16) -> (r: String)
    ensures
        r@ == name@ + " value="@ + spec_decimal(value as nat),
{
    let mut s = String::from_str(name);
    s.append(" value=");
    s.append(decimal_string(value as u64).as_str());
    proof {
        assert(s@ =~= name@ + " value="@ + spec_decimal(value as nat));
    }
    s
}

/// Renders a control-change event, exactly as
/// `spec_control_event_summary` states.
pub fn control_event_summary(c: &ControlChangeEvent) -> (r: String)
    ensures
        r@ == spec_control_event_summary(*c),
{
    match c {
        ControlChangeEvent::Undefined { control, value } => {
            let mut s = String::from_str("Undefined control=");
            s.append(decimal_string(*control as u64).as_str());
            s.append(" value=");
            s.append(decimal_string(*value as u64).as_str());
            proof {
                assert(s@ =~= spec_control_event_summary(*c));
            }
            s
        },
        ControlChangeEvent::ModWheel { value } => named_control_summary("ModWheel", *value),
        ControlChangeEvent::Breath { value } => named_control_summary("Breath", *value),
        ControlChangeEvent::UndefinedHighRes { control1, control2, value } => {
            let mut s = String::from_str("UndefinedHighRes control1=");
            s.append(decimal_string(*control1 as u64).as_str());
            s.append(" control2=");
            s.append(decimal_string(*control2 as u64).as_str());
            s.append(" value=");
            s.append(decimal_string(*value as u64).as_str());
            proof {
                assert(s@ =~= spec_control_event_summary(*c));
            }
            s
        },
        ControlChangeEvent::Foot { value } => named_control_summary("Foot", *value),
        ControlChangeEvent::Portamento { value } => named_control_summary("Portamento", *value),
        ControlChangeEvent::DataEntry { value } => named_control_summary("DataEntry", *value),
        ControlChangeEvent::Volume { value } => named_control_summary("Volume", *value),
        ControlChangeEvent::Balance { value } => named_control_summary("Balance", *value),
        ControlChangeEvent::Pan { value } => named_control_summary("Pan", *value),
        ControlChangeEvent::Expression { value } => named_control_summary("Expression", *value),
        ControlChangeEvent::Effect1 { value } => named_control_summary("Effect1", *value),
        ControlChangeEvent::Effect2 { value } => named_control_summary("Effect2", *value),
        ControlChangeEvent::GeneralPurpose1 { value } => named_control_summary(
            "GeneralPurpose1",
            *value,
        ),
        ControlChangeEvent::GeneralPurpose2 { value } => named_control_summary(
            "GeneralPurpose2",
            *value,
        ),
        ControlChangeEvent::GeneralPurpose3 { value } => named_control_summary(
            "GeneralPurpose3",
            *value,
        ),
        ControlChangeEvent::GeneralPurpose4 { value } => named_control_summary(
            "GeneralPurpose4",
            *value,
        ),
        ControlChangeEvent::Other => String::from_str("OtherControlChange"),
    }
}

/// The log line for an inbound event: the debug/display form that the
/// raw outbound message wraps.
pub open spec fn spec_event_summary(e: MidiEvent) -> Seq<char> {
    match e {
        MidiEvent::ChannelVoice { channel, event } => {
            let ch = spec_decimal(spec_channel_to_int(channel) as nat);
            match event {
                ChannelVoiceEvent::NoteOn { note, velocity } => "NoteOn channel="@ + ch + " note="@
                    + spec_decimal(note as nat) + " velocity="@ + spec_decimal(velocity as nat),
                ChannelVoiceEvent::NoteOff { note, velocity } => "NoteOff channel="@ + ch
                    + " note="@ + spec_decimal(note as nat) + " velocity="@ + spec_decimal(
                    velocity as nat,
                ),
                ChannelVoiceEvent::ControlChange { control } => "ControlChange channel="@ + ch
                    + " "@ + spec_control_event_summary(control),
                ChannelVoiceEvent::Other => "ChannelVoice channel="@ + ch + " Other"@,
            }
        },
        MidiEvent::Other => "Other"@,
    }
}

/// Renders an inbound event, exactly as `spec_event_summary` states.
pub fn event_summary(e: &MidiEvent) -> (r: String)
    ensures
        r@ == spec_event_summary(*e),
{
    match e {
        MidiEvent::ChannelVoice { channel, event } => {
            let ch = decimal_string(channel_to_int(*channel) as u64);
            match event {
                ChannelVoiceEvent::NoteOn { note, velocity } => {
                    let mut s = String::from_str("NoteOn channel=");
                    s.append(ch.as_str());
                    s.append(" note=");
                    s.append(decimal_string(*note as u64).as_str());
                    s.append(" velocity=");
                    s.append(decimal_string(*velocity as u64).as_str());
                    proof {
                        assert(s@ =~= spec_event_summary(*e));
                    }
                    s
                },
                ChannelVoiceEvent::NoteOff { note, velocity } => {
                    let mut s = String::from_str("NoteOff channel=");
                    s.append(ch.as_str());
                    s.append(" note=");
                    s.append(decimal_string(*note as u64).as_str());
                    s.append(" velocity=");
                    s.append(decimal_string(*velocity as u64).as_str());
                    proof {
                        assert(s@ =~= spec_event_summary(*e));
                    }
                    s
                },
                ChannelVoiceEvent::ControlChange { control } => {
                    let mut s = String::from_str("ControlChange channel=");
                    s.append(ch.as_str());
                    s.append(" ");
                    s.append(control_event_summary(control).as_str());
                    proof {
                        assert(s@ =~= spec_event_summary(*e));
                    }
                    s
                },
                ChannelVoiceEvent::Other => {
                    let mut s = String::from_str("ChannelVoice channel=");
                    s.append(ch.as_str());
                    s.append(" Other");
                    proof {
                        assert(s@ =~= spec_event_summary(*e));
                    }
                    s
                },
            }
        },
        MidiEvent::Other => String::from_str("Other"),
    }
}

} // verus!
