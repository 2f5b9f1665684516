//! The 4-byte USB-MIDI event packet.

use vstd::prelude::*;

verus! {

/// The low nibble of a packet's first byte: the code index number.
pub open spec fn spec_cin_of(b0: u8) -> u8 {
    b0 & 0x0F
}

/// The high nibble of a packet's first byte: the cable number.
pub open spec fn spec_cable_of(b0: u8) -> u8 {
    b0 >> 4
}

/// One USB-MIDI event packet: the fixed 4-byte framing unit of the
/// MIDI-streaming bulk endpoints.
///
/// The first wire byte packs the cable number (high nibble) and the code
/// index number (low nibble); the remaining three bytes carry up to three
/// MIDI data bytes, of which the code index number determines how many are
/// significant.
#[derive(Clone, Copy, Debug, PartialEq, Eq, Structural)]
pub struct EventPacket {
    /// Virtual cable the packet belongs to, `0..=15`.
    pub cable: u8,
    /// Code index number selecting payload length and category, `0..=15`.
    pub cin: u8,
    /// First trailing MIDI byte (the MIDI status byte for channel messages).
    pub midi1: u8,
    /// Second trailing MIDI byte.
    pub midi2: u8,
    /// Third trailing MIDI byte.
    pub midi3: u8,
}

impl EventPacket {
    /// Both nibble fields fit in four bits.
    pub open spec fn wf(self) -> bool {
        self.cable < 16 && self.cin < 16
    }

    /// The packet encoded in the 4 bytes `b0 b1 b2 b3`.
    pub open spec fn spec_from_bytes(b0: u8, b1: u8, b2: u8, b3: u8) -> EventPacket {
        EventPacket { cable: spec_cable_of(b0), cin: spec_cin_of(b0), midi1: b1, midi2: b2, midi3: b3 }
    }

    /// Splits one 4-byte chunk into its packet fields.
    pub fn from_bytes(b0: u8, b1: u8, b2: u8, b3: u8) -> (p: EventPacket)
        ensures
            p == EventPacket::spec_from_bytes(b0, b1, b2, b3),
            p.wf(),
    {
        proof {
            assert(b0 >> 4 < 16 && b0 & 0x0F < 16) by (bit_vector);
        }
        EventPacket { cable: b0 >> 4, cin: b0 & 0x0F, midi1: b1, midi2: b2, midi3: b3 }
    }
}

} // verus!
