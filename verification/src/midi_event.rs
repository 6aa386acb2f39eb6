//! The channel voice messages that a preset archive may contain, as plain
//! values, together with their status byte and data-byte encodings.

use vstd::prelude::*;
use crate::midi::{
    STATUS_CC, STATUS_CHANNEL_PRESSURE, STATUS_NOTE_OFF, STATUS_NOTE_ON, STATUS_PITCH_BEND,
    STATUS_POLY_KEY_PRESSURE, STATUS_PROGRAM_CHANGE,
};

verus! {

/// One channel voice message. System, meta, and realtime messages never
/// appear inside an archive and have no variant here.
#[derive(Clone, Copy, Debug, PartialEq, Eq, Structural)]
pub enum MidiEvent {
    NoteOff { channel: u8, note: u8, velocity: u8 },
    NoteOn { channel: u8, note: u8, velocity: u8 },
    PolyphonicKeyPressure { channel: u8, note: u8, pressure: u8 },
    ControlChange { channel: u8, cc: u8, value: u8 },
    ProgramChange { channel: u8, program: u8 },
    ChannelPressure { channel: u8, pressure: u8 },
    PitchBendChange { channel: u8, bend: u16 },
}

/// A well-formed event: the channel fits in the status nibble and every
/// data value fits in seven bits.
pub open spec fn wf_event(e: MidiEvent) -> bool {
    match e {
        MidiEvent::NoteOff { channel, note, velocity } => channel < 16 && note < 128 && velocity
            < 128,
        MidiEvent::NoteOn { channel, note, velocity } => channel < 16 && note < 128 && velocity
            < 128,
        MidiEvent::PolyphonicKeyPressure { channel, note, pressure } => channel < 16 && note < 128
            && pressure < 128,
        MidiEvent::ControlChange { channel, cc, value } => channel < 16 && cc < 128 && value < 128,
        MidiEvent::ProgramChange { channel, program } => channel < 16 && program < 128,
        MidiEvent::ChannelPressure { channel, pressure } => channel < 16 && pressure < 128,
        MidiEvent::PitchBendChange { channel, bend } => channel < 16 && bend < 0x4000,
    }
}

/// The event's channel.
pub open spec fn event_channel(e: MidiEvent) -> u8 {
    match e {
        MidiEvent::NoteOff { channel, .. } => channel,
        MidiEvent::NoteOn { channel, .. } => channel,
        MidiEvent::PolyphonicKeyPressure { channel, .. } => channel,
        MidiEvent::ControlChange { channel, .. } => channel,
        MidiEvent::ProgramChange { channel, .. } => channel,
        MidiEvent::ChannelPressure { channel, .. } => channel,
        MidiEvent::PitchBendChange { channel, .. } => channel,
    }
}

/// The status byte of a well-formed event: its kind's status with the
/// channel in the low nibble.
pub open spec fn event_status(e: MidiEvent) -> u8 {
    match e {
        MidiEvent::NoteOff { channel, .. } => (STATUS_NOTE_OFF + channel) as u8,
        MidiEvent::NoteOn { channel, .. } => (STATUS_NOTE_ON + channel) as u8,
        MidiEvent::PolyphonicKeyPressure { channel, .. } => (STATUS_POLY_KEY_PRESSURE
            + channel) as u8,
        MidiEvent::ControlChange { channel, .. } => (STATUS_CC + channel) as u8,
        MidiEvent::ProgramChange { channel, .. } => (STATUS_PROGRAM_CHANGE + channel) as u8,
        MidiEvent::ChannelPressure { channel, .. } => (STATUS_CHANNEL_PRESSURE + channel) as u8,
        MidiEvent::PitchBendChange { channel, .. } => (STATUS_PITCH_BEND + channel) as u8,
    }
}

/// The one or two data bytes that follow the status byte.
pub open spec fn event_data(e: MidiEvent) -> Seq<u8> {
    match e {
        MidiEvent::NoteOff { note, velocity, .. } => seq![note, velocity],
        MidiEvent::NoteOn { note, velocity, .. } => seq![note, velocity],
        MidiEvent::PolyphonicKeyPressure { note, pressure, .. } => seq![note, pressure],
        MidiEvent::ControlChange { cc, value, .. } => seq![cc, value],
        MidiEvent::ProgramChange { program, .. } => seq![program],
        MidiEvent::ChannelPressure { pressure, .. } => seq![pressure],
        MidiEvent::PitchBendChange { bend, .. } => seq![(bend / 128) as u8, (bend % 128) as u8],
    }
}

/// The status byte of a message: the kind's status with the channel or'd
/// into the low nibble.
pub fn status_byte(kind: u8, channel: u8) -> (r: u8)
    requires
        kind % 0x10 == 0,
        channel < 16,
    ensures
        r == kind + channel,
{
    proof {
        assert((kind | channel) == kind + channel) by (bit_vector)
            requires
                kind % 0x10 == 0 && channel < 16,
        ;
    }
    kind | channel
}

} // verus!
