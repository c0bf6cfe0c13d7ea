//! A verified MIDI mediation engine: translates raw per-device control
//! events into normalized outbound bus messages, decoding relative
//! controller values, resolving per-device knob mappings, and keeping
//! bounded monitoring logs plus per-port metadata.

pub mod decoder;
pub mod engine;
pub mod events;
pub mod mappings;
pub mod messages;
pub mod monitor;
pub mod ports;
pub mod render;
