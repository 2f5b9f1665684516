//! Logical MIDI messages and per-chunk framing errors.

use vstd::prelude::*;

verus! {

/// A decoded logical MIDI message.
///
/// Each variant corresponds to one category of the USB-MIDI event-packet
/// table, selected by the packet's code index number. Channel-voice
/// variants carry the channel (low nibble of the MIDI status byte,
/// `0..=15`) and the data bytes exactly as they stood in the packet;
/// no transformation is applied. A message exists only for the duration
/// of one dispatch call and is never persisted.
#[derive(Clone, Copy, Debug, PartialEq, Eq, Structural)]
pub enum MidiMessage {
    /// Note Off (code index `0x8`): channel, key number, release velocity.
    NoteOff { channel: u8, note: u8, velocity: u8 },
    /// Note On (code index `0x9`): channel, key number, strike velocity.
    NoteOn { channel: u8, note: u8, velocity: u8 },
    /// Polyphonic key pressure (code index `0xA`).
    PolyAftertouch { channel: u8, note: u8, pressure: u8 },
    /// Control Change (code index `0xB`): channel, controller, value.
    ControlChange { channel: u8, control: u8, value: u8 },
    /// Program Change (code index `0xC`), two significant bytes.
    ProgramChange { channel: u8, program: u8 },
    /// Channel pressure (code index `0xD`), two significant bytes.
    ChannelAftertouch { channel: u8, pressure: u8 },
    /// Pitch bend (code index `0xE`): channel, then low and high 7 bits.
    PitchBend { channel: u8, lsb: u8, msb: u8 },
    /// Two-byte System Common message (code index `0x2`).
    SystemCommonTwo { first: u8, second: u8 },
    /// Three-byte System Common message (code index `0x3`).
    SystemCommonThree { first: u8, second: u8, third: u8 },
    /// System Exclusive starts or continues (code index `0x4`); carries a
    /// raw three-byte fragment. Fragments are not assembled across packets.
    SysExContinue { first: u8, second: u8, third: u8 },
    /// Single-byte System Common message, or System Exclusive ending with
    /// one byte (code index `0x5`).
    SysExEndOne { first: u8 },
    /// System Exclusive ends with two bytes (code index `0x6`).
    SysExEndTwo { first: u8, second: u8 },
    /// System Exclusive ends with three bytes (code index `0x7`).
    SysExEndThree { first: u8, second: u8, third: u8 },
    /// Single unparsed byte (code index `0xF`).
    SingleByte { byte: u8 },
}

/// A framing error local to one 4-byte chunk.
///
/// A framing error is isolated to the packet that produced it: decoding
/// continues with the next chunk, and no output state changes.
#[derive(Clone, Copy, Debug, PartialEq, Eq, Structural)]
pub enum FramingError {
    /// The chunk's code index number is reserved (`0x0` or `0x1`), so the
    /// packet's payload length and category cannot be determined.
    UnknownCodeIndex,
}

} // verus!
