//! Framing and decoding of raw bulk-endpoint bytes into logical MIDI
//! messages.
//!
//! A read cycle hands the decoder a raw byte buffer. The buffer is
//! partitioned into consecutive 4-byte chunks; trailing bytes that do not
//! complete a chunk are dropped and never carried into a later cycle. Each
//! chunk decodes independently: a reserved code index number yields a
//! [`FramingError`] for that chunk only, and decoding continues with the
//! next one.

use vstd::prelude::*;

use crate::message::{FramingError, MidiMessage};
use crate::packet::EventPacket;

verus! {

/// The message a single event packet decodes to, determined by the
/// packet's code index number as the USB-MIDI event-packet table gives it:
/// the code index number selects the category and how many of the three
/// trailing bytes are significant; bytes beyond that length are ignored.
/// Code index numbers `0x0` and `0x1` are reserved, as is any value a
/// malformed packet could carry outside `0..=15`.
pub open spec fn spec_decode_packet(p: EventPacket) -> Result<MidiMessage, FramingError> {
    match p.cin {
        0x2 => Ok(MidiMessage::SystemCommonTwo { first: p.midi1, second: p.midi2 }),
        0x3 => Ok(MidiMessage::SystemCommonThree { first: p.midi1, second: p.midi2, third: p.midi3 }),
        0x4 => Ok(MidiMessage::SysExContinue { first: p.midi1, second: p.midi2, third: p.midi3 }),
        0x5 => Ok(MidiMessage::SysExEndOne { first: p.midi1 }),
        0x6 => Ok(MidiMessage::SysExEndTwo { first: p.midi1, second: p.midi2 }),
        0x7 => Ok(MidiMessage::SysExEndThree { first: p.midi1, second: p.midi2, third: p.midi3 }),
        0x8 => Ok(MidiMessage::NoteOff { channel: p.midi1 & 0x0F, note: p.midi2, velocity: p.midi3 }),
        0x9 => Ok(MidiMessage::NoteOn { channel: p.midi1 & 0x0F, note: p.midi2, velocity: p.midi3 }),
        0xA => Ok(MidiMessage::PolyAftertouch { channel: p.midi1 & 0x0F, note: p.midi2, pressure: p.midi3 }),
        0xB => Ok(MidiMessage::ControlChange { channel: p.midi1 & 0x0F, control: p.midi2, value: p.midi3 }),
        0xC => Ok(MidiMessage::ProgramChange { channel: p.midi1 & 0x0F, program: p.midi2 }),
        0xD => Ok(MidiMessage::ChannelAftertouch { channel: p.midi1 & 0x0F, pressure: p.midi2 }),
        0xE => Ok(MidiMessage::PitchBend { channel: p.midi1 & 0x0F, lsb: p.midi2, msb: p.midi3 }),
        0xF => Ok(MidiMessage::SingleByte { byte: p.midi1 }),
        _ => Err(FramingError::UnknownCodeIndex),
    }
}

/// The packet framed by the `i`-th complete 4-byte chunk of `s`.
pub open spec fn spec_packet_at(s: Seq<u8>, i: int) -> EventPacket
    recommends
        0 <= i,
        4 * i + 4 <= s.len(),
{
    EventPacket::spec_from_bytes(s[4 * i], s[4 * i + 1], s[4 * i + 2], s[4 * i + 3])
}

/// Everything a raw byte buffer decodes to: one result per complete
/// 4-byte chunk, in buffer order, each the decoding of that chunk alone.
pub open spec fn spec_decode_all(s: Seq<u8>) -> Seq<Result<MidiMessage, FramingError>> {
    Seq::new(s.len() / 4, |i: int| spec_decode_packet(spec_packet_at(s, i)))
}

/// Decodes one event packet into a logical MIDI message, or reports a
/// framing error if its code index number is reserved.
pub fn decode_packet(p: &EventPacket) -> (r: Result<MidiMessage, FramingError>)
    ensures
        r == spec_decode_packet(*p),
{
    match p.cin {
        0x2 => Ok(MidiMessage::SystemCommonTwo { first: p.midi1, second: p.midi2 }),
        0x3 => Ok(MidiMessage::SystemCommonThree { first: p.midi1, second: p.midi2, third: p.midi3 }),
        0x4 => Ok(MidiMessage::SysExContinue { first: p.midi1, second: p.midi2, third: p.midi3 }),
        0x5 => Ok(MidiMessage::SysExEndOne { first: p.midi1 }),
        0x6 => Ok(MidiMessage::SysExEndTwo { first: p.midi1, second: p.midi2 }),
        0x7 => Ok(MidiMessage::SysExEndThree { first: p.midi1, second: p.midi2, third: p.midi3 }),
        0x8 => Ok(MidiMessage::NoteOff { channel: p.midi1 & 0x0F, note: p.midi2, velocity: p.midi3 }),
        0x9 => Ok(MidiMessage::NoteOn { channel: p.midi1 & 0x0F, note: p.midi2, velocity: p.midi3 }),
        0xA => Ok(MidiMessage::PolyAftertouch { channel: p.midi1 & 0x0F, note: p.midi2, pressure: p.midi3 }),
        0xB => Ok(MidiMessage::ControlChange { channel: p.midi1 & 0x0F, control: p.midi2, value: p.midi3 }),
        0xC => Ok(MidiMessage::ProgramChange { channel: p.midi1 & 0x0F, program: p.midi2 }),
        0xD => Ok(MidiMessage::ChannelAftertouch { channel: p.midi1 & 0x0F, pressure: p.midi2 }),
        0xE => Ok(MidiMessage::PitchBend { channel: p.midi1 & 0x0F, lsb: p.midi2, msb: p.midi3 }),
        0xF => Ok(MidiMessage::SingleByte { byte: p.midi1 }),
        _ => Err(FramingError::UnknownCodeIndex),
    }
}

/// Decodes a whole read buffer: partitions `bytes` into consecutive
/// 4-byte chunks, decodes each chunk independently, and drops any trailing
/// bytes that do not complete a chunk. Restartable: it keeps no state
/// across calls.
pub fn decode_all(bytes: &[u8]) -> (results: Vec<Result<MidiMessage, FramingError>>)
    ensures
        results@ == spec_decode_all(bytes@),
{
    let n: usize = bytes.len() / 4;
    proof {
        vstd::arithmetic::div_mod::lemma_fundamental_div_mod(bytes@.len() as int, 4);
        vstd::arithmetic::div_mod::lemma_mod_bound(bytes@.len() as int, 4);
    }
    let mut results: Vec<Result<MidiMessage, FramingError>> = Vec::new();
    let mut i: usize = 0;
    while i < n
        invariant
            n == bytes@.len() / 4,
            4 * n <= bytes@.len(),
            bytes@.len() <= usize::MAX,
            i <= n,
            results@.len() == i,
            forall|j: int| 0 <= j < i ==> results@[j] == spec_decode_all(bytes@)[j],
        decreases n - i,
    {
        let p = EventPacket::from_bytes(bytes[4 * i], bytes[4 * i + 1], bytes[4 * i + 2], bytes[4 * i + 3]);
        results.push(decode_packet(&p));
        i = i + 1;
    }
    proof {
        assert(results@ =~= spec_decode_all(bytes@));
    }
    results
}

/// Law: decoding never looks past the last complete chunk. A buffer whose
/// length is not a multiple of 4 decodes exactly as its longest prefix of
/// whole chunks does — one result per complete chunk, the remainder
/// silently discarded.
pub proof fn lemma_decode_all_ignores_tail(s: Seq<u8>)
    ensures
        spec_decode_all(s).len() == s.len() / 4,
        spec_decode_all(s) =~= spec_decode_all(s.take(4 * (s.len() as int / 4))),
{
    let n = s.len() as int / 4;
    vstd::arithmetic::div_mod::lemma_fundamental_div_mod(s.len() as int, 4);
    vstd::arithmetic::div_mod::lemma_mod_bound(s.len() as int, 4);
    assert(0 <= n && 4 * n <= s.len());
    assert(s.take(4 * n).len() == 4 * n);
    vstd::arithmetic::div_mod::lemma_div_multiples_vanish(n, 4);
    assert((4 * n) / 4 == n);
    assert forall|i: int| 0 <= i < n implies spec_decode_all(s.take(4 * n))[i] == spec_decode_all(s)[i] by {
        assert(s.take(4 * n)[4 * i] == s[4 * i]);
        assert(s.take(4 * n)[4 * i + 1] == s[4 * i + 1]);
        assert(s.take(4 * n)[4 * i + 2] == s[4 * i + 2]);
        assert(s.take(4 * n)[4 * i + 3] == s[4 * i + 3]);
    }
}

/// Law: a Note-On packet decodes to a message that carries the channel,
/// key number and velocity read directly from its trailing bytes, with no
/// transformation: the channel is the low nibble of the first trailing
/// byte, the key and velocity are the second and third bytes unchanged.
pub proof fn lemma_note_on_copies_fields(p: EventPacket)
    requires
        p.cin == 0x9,
    ensures
        spec_decode_packet(p) == Ok::<MidiMessage, FramingError>(MidiMessage::NoteOn {
            channel: p.midi1 & 0x0F,
            note: p.midi2,
            velocity: p.midi3,
        }),
{
}

/// Law: a well-formed packet fails to decode exactly when its code index
/// number is one of the two reserved values.
pub proof fn lemma_decode_err_iff_reserved(p: EventPacket)
    requires
        p.wf(),
    ensures
        spec_decode_packet(p) is Err <==> (p.cin == 0x0 || p.cin == 0x1),
        spec_decode_packet(p) is Err ==> spec_decode_packet(p) == Err::<MidiMessage, FramingError>(
            FramingError::UnknownCodeIndex,
        ),
{
}

/// Law: a chunk with a reserved code index number yields exactly one
/// `UnknownCodeIndex` result, and every other chunk of the same buffer
/// still decodes from its own bytes alone — the error is isolated, with
/// no effect on its neighbours.
pub proof fn lemma_reserved_chunk_isolated(s: Seq<u8>, i: int)
    requires
        0 <= i < spec_decode_all(s).len(),
        spec_packet_at(s, i).cin == 0x0 || spec_packet_at(s, i).cin == 0x1,
    ensures
        spec_decode_all(s)[i] == Err::<MidiMessage, FramingError>(FramingError::UnknownCodeIndex),
        forall|j: int| 0 <= j < spec_decode_all(s).len() ==> spec_decode_all(s)[j]
            == spec_decode_packet(spec_packet_at(s, j)),
{
}

} // verus!
