//! The per-block harmonizer: expands every note event into a fixed triad
//! (root, +4 and +8 semitones) and stages the expansion in an outgoing
//! buffer that is flushed once on the audio call of the same block.
//!
//! A transposed copy whose key would leave the valid 0..=127 range is
//! dropped rather than clamped or wrapped: the root is always emitted, the
//! +4 copy only for keys up to 123, the +8 copy only for keys up to 119.

use vstd::prelude::*;

use crate::midi::{DecodedEvent, HostEvent, NoteEvent, NoteKind, decode_event, spec_decode};

verus! {

/// The note event a triad member stands for: the given fields at the given
/// key.
pub open spec fn note_at(kind: NoteKind, channel: u8, key: u8, velocity: u8, offset: i32) -> NoteEvent {
    NoteEvent { kind, channel, key, velocity, offset }
}

/// The triad a decoded note expands to: the root, then the +4 copy if its
/// key stays within 0..=127, then the +8 copy under the same condition.
pub open spec fn triad_spec(kind: NoteKind, channel: u8, key: u8, velocity: u8, offset: i32) -> Seq<NoteEvent> {
    seq![note_at(kind, channel, key, velocity, offset)]
        + (if key + 4 <= 127 {
            seq![note_at(kind, channel, (key + 4) as u8, velocity, offset)]
        } else {
            Seq::<NoteEvent>::empty()
        })
        + (if key + 8 <= 127 {
            seq![note_at(kind, channel, (key + 8) as u8, velocity, offset)]
        } else {
            Seq::<NoteEvent>::empty()
        })
}

/// What one host event contributes to the block's output: its triad if its
/// payload decodes as a note, nothing otherwise.
pub open spec fn expand_spec(e: HostEvent) -> Seq<NoteEvent> {
    match e {
        HostEvent::Midi { data, offset } => match spec_decode(data@) {
            DecodedEvent::NoteOn { channel, key, velocity } => triad_spec(
                NoteKind::On,
                channel,
                key,
                velocity,
                offset,
            ),
            DecodedEvent::NoteOff { channel, key, velocity } => triad_spec(
                NoteKind::Off,
                channel,
                key,
                velocity,
                offset,
            ),
            DecodedEvent::NonNote => Seq::<NoteEvent>::empty(),
        },
        HostEvent::Other => Seq::<NoteEvent>::empty(),
    }
}

/// The whole block's output: the concatenation of every event's expansion,
/// in host-delivered order.
pub open spec fn harmonize_spec(events: Seq<HostEvent>) -> Seq<NoteEvent>
    decreases events.len(),
{
    if events.len() == 0 {
        Seq::<NoteEvent>::empty()
    } else {
        harmonize_spec(events.drop_last()) + expand_spec(events.last())
    }
}

/// Append the triad of a decoded note to the staged output.
fn push_triad(out: &mut Vec<NoteEvent>, kind: NoteKind, channel: u8, key: u8, velocity: u8, offset: i32)
    ensures
        final(out)@ == old(out)@ + triad_spec(kind, channel, key, velocity, offset),
{
    out.push(NoteEvent { kind, channel, key, velocity, offset });
    if key <= 123 {
        out.push(NoteEvent { kind, channel, key: key + 4, velocity, offset });
    }
    if key <= 119 {
        out.push(NoteEvent { kind, channel, key: key + 8, velocity, offset });
    }
    proof {
        assert(out@ =~= old(out)@ + triad_spec(kind, channel, key, velocity, offset));
    }
}

/// Expand one host event: the triad of its note, or nothing.
pub fn expand_event(e: &HostEvent) -> (out: Vec<NoteEvent>)
    ensures
        out@ == expand_spec(*e),
{
    let mut out: Vec<NoteEvent> = Vec::new();
    match e {
        HostEvent::Midi { data, offset } => match decode_event(data) {
            DecodedEvent::NoteOn { channel, key, velocity } => {
                push_triad(&mut out, NoteKind::On, channel, key, velocity, *offset);
            },
            DecodedEvent::NoteOff { channel, key, velocity } => {
                push_triad(&mut out, NoteKind::Off, channel, key, velocity, *offset);
            },
            DecodedEvent::NonNote => {},
        },
        HostEvent::Other => {},
    }
    proof {
        assert(out@ =~= expand_spec(*e));
    }
    out
}

/// Harmonize a whole block: every note event replaced by its triad, every
/// other event dropped, in host-delivered order.
pub fn harmonize_block(events: &Vec<HostEvent>) -> (out: Vec<NoteEvent>)
    ensures
        out@ == harmonize_spec(events@),
{
    let mut out: Vec<NoteEvent> = Vec::new();
    let mut i: usize = 0;
    while i < events.len()
        invariant
            i <= events.len(),
            out@ == harmonize_spec(events@.take(i as int)),
        decreases events.len() - i,
    {
        let ev = events[i];
        let mut expanded = expand_event(&ev);
        out.append(&mut expanded);
        proof {
            assert(events@.take(i as int + 1).drop_last() =~= events@.take(i as int));
            assert(events@.take(i as int + 1).last() == events@[i as int]);
        }
        i += 1;
    }
    proof {
        assert(events@.take(events@.len() as int) =~= events@);
    }
    out
}

/// Law: an input event whose payload decodes as a note-on with key k at
/// most 119, channel c and velocity v, at offset t, contributes exactly the
/// three events (k, c, v, t), (k + 4, c, v, t), (k + 8, c, v, t), in that
/// order, and no others.
pub proof fn lemma_note_on_expansion(data: [u8; 3], offset: i32, c: u8, k: u8, v: u8)
    requires
        spec_decode(data@) == (DecodedEvent::NoteOn { channel: c, key: k, velocity: v }),
        k <= 119,
    ensures
        expand_spec(HostEvent::Midi { data, offset }) == seq![
            note_at(NoteKind::On, c, k, v, offset),
            note_at(NoteKind::On, c, (k + 4) as u8, v, offset),
            note_at(NoteKind::On, c, (k + 8) as u8, v, offset),
        ],
{
    assert(expand_spec(HostEvent::Midi { data, offset }) =~= seq![
        note_at(NoteKind::On, c, k, v, offset),
        note_at(NoteKind::On, c, (k + 4) as u8, v, offset),
        note_at(NoteKind::On, c, (k + 8) as u8, v, offset),
    ]);
}

/// Law: the note-off counterpart of `lemma_note_on_expansion`.
pub proof fn lemma_note_off_expansion(data: [u8; 3], offset: i32, c: u8, k: u8, v: u8)
    requires
        spec_decode(data@) == (DecodedEvent::NoteOff { channel: c, key: k, velocity: v }),
        k <= 119,
    ensures
        expand_spec(HostEvent::Midi { data, offset }) == seq![
            note_at(NoteKind::Off, c, k, v, offset),
            note_at(NoteKind::Off, c, (k + 4) as u8, v, offset),
            note_at(NoteKind::Off, c, (k + 8) as u8, v, offset),
        ],
{
    assert(expand_spec(HostEvent::Midi { data, offset }) =~= seq![
        note_at(NoteKind::Off, c, k, v, offset),
        note_at(NoteKind::Off, c, (k + 4) as u8, v, offset),
        note_at(NoteKind::Off, c, (k + 8) as u8, v, offset),
    ]);
}

/// Law: an event that does not decode as a note — a non-note MIDI message,
/// an undecodable payload, or a non-MIDI host event — contributes no output
/// at all.
pub proof fn lemma_non_note_dropped(e: HostEvent)
    requires
        e matches HostEvent::Midi { data, .. } ==> spec_decode(data@) == DecodedEvent::NonNote,
    ensures
        expand_spec(e) == Seq::<NoteEvent>::empty(),
{
}

/// Law: the harmonized block grows event by event, each input contributing
/// exactly its own expansion at the end, so the output keeps the
/// host-delivered input order.
pub proof fn lemma_harmonize_in_order(events: Seq<HostEvent>, e: HostEvent)
    ensures
        harmonize_spec(events.push(e)) == harmonize_spec(events) + expand_spec(e),
{
    assert(events.push(e).drop_last() =~= events);
    assert(events.push(e).last() == e);
}

/// Whether every event of a staged sequence is well formed.
pub open spec fn all_wf(s: Seq<NoteEvent>) -> bool {
    forall|i: int| 0 <= i < s.len() ==> s[i].wf()
}

/// Law: every event the harmonizer stages is well formed — in particular,
/// no staged key ever leaves the 0..=127 range, because out-of-range
/// transposed copies are dropped.
pub proof fn lemma_harmonize_wf(events: Seq<HostEvent>)
    ensures
        all_wf(harmonize_spec(events)),
    decreases events.len(),
{
    if events.len() > 0 {
        lemma_harmonize_wf(events.drop_last());
    }
}

/// The plugin's per-block state: the outgoing buffer of staged note events.
/// Filled once per block by `process_events`, emptied once per block by
/// `flush_events`; nothing survives from one block into the next.
pub struct HarmonizerCore {
    staged: Vec<NoteEvent>,
}

impl HarmonizerCore {
    /// The staged outgoing events, oldest first.
    pub closed spec fn staged_view(&self) -> Seq<NoteEvent> {
        self.staged@
    }

    /// A fresh instance stages nothing.
    pub fn new() -> (core: HarmonizerCore)
        ensures
            core.staged_view() == Seq::<NoteEvent>::empty(),
    {
        HarmonizerCore { staged: Vec::new() }
    }

    /// Event phase of a block: harmonize the block's events and stage the
    /// result. The buffer is replaced, never appended to, so the staged
    /// events depend on this block's input alone.
    pub fn process_events(&mut self, events: &Vec<HostEvent>)
        ensures
            final(self).staged_view() == harmonize_spec(events@),
    {
        self.staged = harmonize_block(events);
    }

    /// Audio phase of a block: hand the staged events over exactly once and
    /// leave the stage empty, so nothing leaks into the next block.
    pub fn flush_events(&mut self) -> (out: Vec<NoteEvent>)
        ensures
            out@ == old(self).staged_view(),
            final(self).staged_view() == Seq::<NoteEvent>::empty(),
    {
        let mut out: Vec<NoteEvent> = Vec::new();
        core::mem::swap(&mut out, &mut self.staged);
        out
    }

    /// Read-only view of the staged events.
    pub fn staged(&self) -> (out: &Vec<NoteEvent>)
        ensures
            out@ == self.staged_view(),
    {
        &self.staged
    }
}

} // verus!
