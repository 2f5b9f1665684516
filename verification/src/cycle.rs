//! One poll cycle of the USB-owning core's busy loop.
//!
//! The polling core repeatedly advances the device state machine, asks
//! the MIDI class transport for whatever bytes are ready, and feeds them
//! through decode and dispatch. The loop itself belongs to the hardware
//! shell; this module holds its per-cycle decision: given the outcome of
//! one non-blocking read, what gets decoded and how the outputs change.
//! Nothing is carried from one cycle to the next but the output state —
//! the read buffer is fresh every iteration.

use vstd::prelude::*;

use crate::decode::{decode_all, spec_decode_all};
use crate::dispatch::{dispatch_all, spec_dispatch_all, OutputSet};
use crate::message::{FramingError, MidiMessage};

verus! {

/// What the transport's non-blocking read produced on one poll cycle.
pub enum ReadOutcome {
    /// No bytes were ready on the bulk-OUT endpoint. Not an error: the
    /// caller re-polls the device state machine and retries next cycle.
    WouldBlock,
    /// The raw bytes that were ready this cycle, at most one bulk
    /// transfer's worth.
    Data(Vec<u8>),
}

/// Runs the decision half of one poll cycle: decodes whatever one read
/// produced and dispatches every decoded message in order. On
/// `WouldBlock` nothing is decoded and the outputs do not change; on data
/// the returned results are exactly the buffer's decoding, and the
/// outputs end where dispatching those results leaves them.
pub fn poll_cycle(outcome: &ReadOutcome, outputs: &mut OutputSet) -> (results: Vec<
    Result<MidiMessage, FramingError>,
>)
    ensures
        outcome is WouldBlock ==> *final(outputs) == *old(outputs) && results@.len() == 0,
        outcome matches ReadOutcome::Data(bytes) ==> results@ == spec_decode_all(bytes@)
            && *final(outputs) == spec_dispatch_all(spec_decode_all(bytes@), *old(outputs)),
{
    match outcome {
        ReadOutcome::WouldBlock => Vec::new(),
        ReadOutcome::Data(bytes) => {
            let results = decode_all(bytes.as_slice());
            dispatch_all(&results, outputs);
            results
        },
    }
}

} // verus!
