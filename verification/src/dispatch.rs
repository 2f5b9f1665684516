//! Dispatch of decoded MIDI messages to the mapped digital output.
//!
//! The dispatch policy is the deployment's reaction to decoded messages:
//! Note On for the configured (channel, key) pair drives the mapped output
//! to its active level, Note Off for the same pair drives it to its
//! inactive level, and every other message is a no-op. Unmapped messages
//! are ignored by design — that is the intended filter behaviour, and no
//! error can arise at this layer.

use vstd::prelude::*;

use crate::message::{FramingError, MidiMessage};

verus! {

/// The state of the application's digital outputs: one configured
/// (channel, key) mapping and the current level of the output it maps to.
///
/// `active` is `true` when the mapped output is driven to its active
/// level. The mapping is fixed at construction; dispatch never alters it.
#[derive(Clone, Copy, Debug, PartialEq, Eq, Structural)]
pub struct OutputSet {
    /// MIDI channel of the configured mapping, `0..=15`.
    pub channel: u8,
    /// Key number of the configured mapping.
    pub note: u8,
    /// Whether the mapped output currently sits at its active level.
    pub active: bool,
}

/// The output state after one message is dispatched: Note On for the
/// configured pair activates the mapped output, Note Off for the
/// configured pair deactivates it, and anything else — other categories,
/// other channels, other keys — leaves the state untouched.
pub open spec fn spec_dispatch(m: MidiMessage, s: OutputSet) -> OutputSet {
    match m {
        MidiMessage::NoteOn { channel, note, .. } => if channel == s.channel && note == s.note {
            OutputSet { active: true, ..s }
        } else {
            s
        },
        MidiMessage::NoteOff { channel, note, .. } => if channel == s.channel && note == s.note {
            OutputSet { active: false, ..s }
        } else {
            s
        },
        _ => s,
    }
}

/// The output state after one per-chunk decode result is dispatched: a
/// framing error is isolated to its own chunk and changes nothing.
pub open spec fn spec_apply_result(r: Result<MidiMessage, FramingError>, s: OutputSet) -> OutputSet {
    match r {
        Ok(m) => spec_dispatch(m, s),
        Err(_) => s,
    }
}

/// The output state after a whole sequence of decode results is
/// dispatched in order.
pub open spec fn spec_dispatch_all(
    rs: Seq<Result<MidiMessage, FramingError>>,
    s: OutputSet,
) -> OutputSet
    decreases rs.len(),
{
    if rs.len() == 0 {
        s
    } else {
        spec_dispatch_all(rs.drop_first(), spec_apply_result(rs.first(), s))
    }
}

impl OutputSet {
    /// A fresh output state mapping `(channel, note)`, with the mapped
    /// output at its inactive level.
    pub fn new(channel: u8, note: u8) -> (s: OutputSet)
        ensures
            s == (OutputSet { channel, note, active: false }),
    {
        OutputSet { channel, note, active: false }
    }
}

/// Dispatches one decoded message, driving the mapped output active on a
/// matching Note On, inactive on a matching Note Off, and ignoring every
/// other message.
pub fn dispatch(m: &MidiMessage, outputs: &mut OutputSet)
    ensures
        *final(outputs) == spec_dispatch(*m, *old(outputs)),
{
    match *m {
        MidiMessage::NoteOn { channel, note, .. } => {
            if channel == outputs.channel && note == outputs.note {
                outputs.active = true;
            }
        },
        MidiMessage::NoteOff { channel, note, .. } => {
            if channel == outputs.channel && note == outputs.note {
                outputs.active = false;
            }
        },
        _ => {},
    }
}

/// Dispatches a whole read cycle's decode results in order. Framing
/// errors are skipped without side effects; decoded messages take effect
/// one after the other.
pub fn dispatch_all(results: &Vec<Result<MidiMessage, FramingError>>, outputs: &mut OutputSet)
    ensures
        *final(outputs) == spec_dispatch_all(results@, *old(outputs)),
{
    let mut i: usize = 0;
    proof {
        assert(results@.skip(0) =~= results@);
    }
    while i < results.len()
        invariant
            i <= results@.len(),
            spec_dispatch_all(results@.skip(i as int), *outputs) == spec_dispatch_all(
                results@,
                *old(outputs),
            ),
        decreases results@.len() - i,
    {
        proof {
            assert(results@.skip(i as int).first() == results@[i as int]);
            assert(results@.skip(i as int).drop_first() =~= results@.skip(i as int + 1));
        }
        match &results[i] {
            Ok(m) => dispatch(m, outputs),
            Err(_) => {},
        }
        i = i + 1;
    }
}

/// Law: dispatch is idempotent. Dispatching any message twice from the
/// same starting state leaves the outputs exactly where one dispatch
/// does — levels are driven, never toggled, so a repeated Note Off keeps
/// the mapped output inactive both times.
pub proof fn lemma_dispatch_idempotent(m: MidiMessage, s: OutputSet)
    ensures
        spec_dispatch(m, spec_dispatch(m, s)) == spec_dispatch(m, s),
{
}

/// Law: dispatch never rewrites the configured mapping; only the level of
/// the mapped output can change.
pub proof fn lemma_dispatch_preserves_mapping(m: MidiMessage, s: OutputSet)
    ensures
        spec_dispatch(m, s).channel == s.channel,
        spec_dispatch(m, s).note == s.note,
{
}

/// Law: a message that is not a Note On or Note Off for the configured
/// pair is a no-op — the intended filter behaviour of the dispatcher.
pub proof fn lemma_dispatch_unmapped_no_op(m: MidiMessage, s: OutputSet)
    requires
        !(m matches MidiMessage::NoteOn { channel, note, .. } && channel == s.channel && note
            == s.note),
        !(m matches MidiMessage::NoteOff { channel, note, .. } && channel == s.channel && note
            == s.note),
    ensures
        spec_dispatch(m, s) == s,
{
}

/// Law: read cycles compose. Dispatching the results of two cycles one
/// after the other ends in the same output state as dispatching their
/// concatenation in one pass — splitting a byte stream across reads
/// changes nothing about where the outputs land.
pub proof fn lemma_dispatch_all_append(
    a: Seq<Result<MidiMessage, FramingError>>,
    b: Seq<Result<MidiMessage, FramingError>>,
    s: OutputSet,
)
    ensures
        spec_dispatch_all(a + b, s) == spec_dispatch_all(b, spec_dispatch_all(a, s)),
    decreases a.len(),
{
    if a.len() == 0 {
        assert(a + b =~= b);
    } else {
        assert((a + b).first() == a.first());
        assert((a + b).drop_first() =~= a.drop_first() + b);
        lemma_dispatch_all_append(a.drop_first(), b, spec_apply_result(a.first(), s));
    }
}

/// Law: a framing error has no side effects on the outputs.
pub proof fn lemma_framing_error_no_side_effects(e: FramingError, s: OutputSet)
    ensures
        spec_apply_result(Err(e), s) == s,
{
}

} // verus!
