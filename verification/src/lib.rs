//! Verified core of a dual-core USB-MIDI bridge device.
//!
//! The device presents itself to a USB host as an Audio-class MIDI-streaming
//! device, decodes incoming USB-MIDI event packets into logical MIDI
//! messages, and reacts to them by driving a mapped digital output.
//!
//! This crate holds the decision logic of that bridge, fully verified:
//! the framing and decoding of raw bulk-endpoint bytes into 4-byte USB-MIDI
//! event packets and logical MIDI messages ([`decode`]), the policy that maps
//! decoded messages to output-level changes ([`dispatch`]), the
//! control-transfer state machine that services enumeration ([`device`]),
//! and the per-poll-cycle step that ties a transport read outcome to
//! decoding and dispatch ([`cycle`]). The hardware shell around it — clock
//! and pin bring-up, the USB peripheral, the second core's busy-poll loop —
//! performs the I/O and feeds plain bytes into these functions.

pub mod message;
pub mod packet;
pub mod decode;
pub mod dispatch;
pub mod device;
pub mod cycle;
