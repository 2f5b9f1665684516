use midi_bridge::decode::{decode_all, decode_packet};
use midi_bridge::message::{FramingError, MidiMessage};
use midi_bridge::packet::EventPacket;

#[test]
fn note_on_chunk_decodes_verbatim() {
    let results = decode_all(&[0x09, 0x90, 0x3C, 0x40]);
    assert_eq!(results.len(), 1);
    assert_eq!(
        results[0],
        Ok(MidiMessage::NoteOn { channel: 0, note: 60, velocity: 64 })
    );
}

#[test]
fn note_on_keeps_channel_nibble() {
    let results = decode_all(&[0x19, 0x95, 0x10, 0x7F]);
    assert_eq!(
        results[0],
        Ok(MidiMessage::NoteOn { channel: 5, note: 0x10, velocity: 0x7F })
    );
}

#[test]
fn note_off_chunk_decodes_verbatim() {
    let results = decode_all(&[0x08, 0x80, 0x3C, 0x00]);
    assert_eq!(results.len(), 1);
    assert_eq!(
        results[0],
        Ok(MidiMessage::NoteOff { channel: 0, note: 60, velocity: 0 })
    );
}

#[test]
fn control_change_chunk_decodes() {
    let results = decode_all(&[0x0B, 0xB2, 0x07, 0x64]);
    assert_eq!(
        results[0],
        Ok(MidiMessage::ControlChange { channel: 2, control: 7, value: 100 })
    );
}

#[test]
fn two_byte_categories_ignore_third_byte() {
    let program = decode_all(&[0x0C, 0xC1, 0x05, 0xAA]);
    assert_eq!(program[0], Ok(MidiMessage::ProgramChange { channel: 1, program: 5 }));
    let pressure = decode_all(&[0x0D, 0xD3, 0x44, 0xAA]);
    assert_eq!(
        pressure[0],
        Ok(MidiMessage::ChannelAftertouch { channel: 3, pressure: 0x44 })
    );
}

#[test]
fn system_and_sysex_categories_decode() {
    let results = decode_all(&[
        0x02, 0xF1, 0x04, 0x00, // two-byte System Common
        0x03, 0xF2, 0x01, 0x02, // three-byte System Common
        0x04, 0xF0, 0x11, 0x22, // SysEx start/continue
        0x05, 0xF7, 0x00, 0x00, // SysEx ends with one byte
        0x06, 0x33, 0xF7, 0x00, // SysEx ends with two bytes
        0x07, 0x44, 0x55, 0xF7, // SysEx ends with three bytes
        0x0F, 0xFE, 0x00, 0x00, // single byte
    ]);
    assert_eq!(results[0], Ok(MidiMessage::SystemCommonTwo { first: 0xF1, second: 0x04 }));
    assert_eq!(
        results[1],
        Ok(MidiMessage::SystemCommonThree { first: 0xF2, second: 0x01, third: 0x02 })
    );
    assert_eq!(
        results[2],
        Ok(MidiMessage::SysExContinue { first: 0xF0, second: 0x11, third: 0x22 })
    );
    assert_eq!(results[3], Ok(MidiMessage::SysExEndOne { first: 0xF7 }));
    assert_eq!(results[4], Ok(MidiMessage::SysExEndTwo { first: 0x33, second: 0xF7 }));
    assert_eq!(
        results[5],
        Ok(MidiMessage::SysExEndThree { first: 0x44, second: 0x55, third: 0xF7 })
    );
    assert_eq!(results[6], Ok(MidiMessage::SingleByte { byte: 0xFE }));
}

#[test]
fn pitch_bend_and_aftertouch_decode() {
    let results = decode_all(&[0x0E, 0xE4, 0x00, 0x40, 0x0A, 0xA6, 0x3C, 0x22]);
    assert_eq!(results[0], Ok(MidiMessage::PitchBend { channel: 4, lsb: 0x00, msb: 0x40 }));
    assert_eq!(
        results[1],
        Ok(MidiMessage::PolyAftertouch { channel: 6, note: 0x3C, pressure: 0x22 })
    );
}

#[test]
fn reserved_code_index_yields_error_and_decoding_continues() {
    let results = decode_all(&[
        0x00, 0x90, 0x3C, 0x40, // reserved code index 0x0
        0x01, 0x90, 0x3C, 0x40, // reserved code index 0x1
        0x09, 0x90, 0x3C, 0x40, // valid Note On after the bad chunks
    ]);
    assert_eq!(results.len(), 3);
    assert_eq!(results[0], Err(FramingError::UnknownCodeIndex));
    assert_eq!(results[1], Err(FramingError::UnknownCodeIndex));
    assert_eq!(
        results[2],
        Ok(MidiMessage::NoteOn { channel: 0, note: 60, velocity: 64 })
    );
}

#[test]
fn trailing_remainder_is_dropped() {
    // 70 bytes: 17 complete chunks, 2 bytes dropped.
    let mut bytes = Vec::new();
    for _ in 0..17 {
        bytes.extend_from_slice(&[0x09, 0x90, 0x3C, 0x40]);
    }
    bytes.extend_from_slice(&[0x09, 0x90]);
    assert_eq!(bytes.len(), 70);
    let results = decode_all(&bytes);
    assert_eq!(results.len(), 17);
    for r in &results {
        assert_eq!(*r, Ok(MidiMessage::NoteOn { channel: 0, note: 60, velocity: 64 }));
    }
}

#[test]
fn empty_buffer_decodes_to_nothing() {
    assert_eq!(decode_all(&[]).len(), 0);
    assert_eq!(decode_all(&[0x09, 0x90, 0x3C]).len(), 0);
}

#[test]
fn packet_fields_split_from_first_byte() {
    let p = EventPacket::from_bytes(0x79, 0x90, 0x3C, 0x40);
    assert_eq!(p.cable, 7);
    assert_eq!(p.cin, 9);
    assert_eq!((p.midi1, p.midi2, p.midi3), (0x90, 0x3C, 0x40));
    assert_eq!(
        decode_packet(&p),
        Ok(MidiMessage::NoteOn { channel: 0, note: 60, velocity: 64 })
    );
}
