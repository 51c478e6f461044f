//! The event model: raw host events, decoded note messages, and the
//! three-byte wire codec for channel note messages.

use vstd::prelude::*;

use midly::live::LiveEvent;
use midly::MidiMessage;

verus! {

/// One event as delivered by the host for the current block: either a MIDI
/// event carrying a three-byte payload and a sample offset within the block,
/// or some other kind of host event the harmonizer has no use for.
#[derive(Clone, Copy, Debug)]
pub enum HostEvent {
    Midi { data: [u8; 3], offset: i32 },
    Other,
}

/// Whether a note event starts or stops a key.
#[derive(Clone, Copy, Debug, PartialEq, Eq, Structural)]
pub enum NoteKind {
    On,
    Off,
}

/// A decoded note event: the unit the harmonizer stages and the host
/// ultimately receives back.
#[derive(Clone, Copy, Debug, PartialEq, Eq, Structural)]
pub struct NoteEvent {
    pub kind: NoteKind,
    pub channel: u8,
    pub key: u8,
    pub velocity: u8,
    /// Position of the event within the current block, in samples.
    pub offset: i32,
}

impl NoteEvent {
    /// A note event is well formed when every field fits its MIDI range:
    /// 16 channels, 7-bit key, 7-bit velocity.
    pub open spec fn wf(self) -> bool {
        self.channel <= 15 && self.key <= 127 && self.velocity <= 127
    }
}

/// What a three-byte payload decodes to: a note-on, a note-off, or anything
/// else (a non-note message, or a payload that is no live MIDI message at
/// all; the harmonizer treats both alike and drops them).
#[derive(Clone, Copy, Debug, PartialEq, Eq, Structural)]
pub enum DecodedEvent {
    NoteOn { channel: u8, key: u8, velocity: u8 },
    NoteOff { channel: u8, key: u8, velocity: u8 },
    NonNote,
}

/// What decoding a three-byte payload yields: a note-on for status bytes
/// 0x90..=0x9F, a note-off for 0x80..=0x8F, in both cases only when the two
/// data bytes are 7-bit clean; everything else is not a note.
pub open spec fn spec_decode(b: Seq<u8>) -> DecodedEvent {
    if b.len() == 3 && 0x90 <= b[0] && b[0] <= 0x9f && b[1] < 0x80 && b[2] < 0x80 {
        DecodedEvent::NoteOn { channel: (b[0] - 0x90) as u8, key: b[1], velocity: b[2] }
    } else if b.len() == 3 && 0x80 <= b[0] && b[0] <= 0x8f && b[1] < 0x80 && b[2] < 0x80 {
        DecodedEvent::NoteOff { channel: (b[0] - 0x80) as u8, key: b[1], velocity: b[2] }
    } else {
        DecodedEvent::NonNote
    }
}

/// Relies on midly's `LiveEvent::parse`: a payload whose status byte has
/// high nibble 0x9 (respectively 0x8) and whose data bytes are both below
/// 0x80 parses as `LiveEvent::Midi` carrying `MidiMessage::NoteOn`
/// (respectively `NoteOff`) with the channel taken from the low status
/// nibble and key and velocity from the data bytes; a data byte of 0x80 or
/// above truncates the data and makes such a payload fail to parse; every
/// other payload parses as a non-note message or fails to parse.
#[verifier::external_body]
pub(crate) fn decode_raw(data: &[u8; 3]) -> (r: DecodedEvent)
    ensures
        r == spec_decode(data@),
{
    match LiveEvent::parse(data) {
        Ok(LiveEvent::Midi { channel, message }) => match message {
            MidiMessage::NoteOn { key, vel } => DecodedEvent::NoteOn {
                channel: channel.as_int(), key: key.as_int(), velocity: vel.as_int(),
            },
            MidiMessage::NoteOff { key, vel } => DecodedEvent::NoteOff {
                channel: channel.as_int(), key: key.as_int(), velocity: vel.as_int(),
            },
            _ => DecodedEvent::NonNote,
        },
        _ => DecodedEvent::NonNote,
    }
}

/// Decode the payload of a host event. Public face of the decoder: what the
/// harmonizer uses to decide whether an event is a note.
pub fn decode_event(data: &[u8; 3]) -> (r: DecodedEvent)
    ensures
        r == spec_decode(data@),
{
    decode_raw(data)
}

/// The wire form of a well-formed note event: status byte carrying kind and
/// channel, then the key and velocity data bytes.
pub open spec fn spec_encode(e: NoteEvent) -> Seq<u8> {
    let status: u8 = match e.kind {
        NoteKind::On => (0x90 + e.channel) as u8,
        NoteKind::Off => (0x80 + e.channel) as u8,
    };
    seq![status, e.key, e.velocity]
}

/// Encode a well-formed note event into its three-byte wire form.
pub fn encode_note(e: &NoteEvent) -> (r: [u8; 3])
    requires
        e.wf(),
    ensures
        r@ == spec_encode(*e),
{
    let status: u8 = match e.kind {
        NoteKind::On => 0x90 + e.channel,
        NoteKind::Off => 0x80 + e.channel,
    };
    let r = [status, e.key, e.velocity];
    proof {
        assert(r@ =~= spec_encode(*e));
    }
    r
}

/// Whether a note event's fields are well formed, decided at run time;
/// callers outside the proof world use it to guard `encode_note`.
pub fn is_wf(e: &NoteEvent) -> (b: bool)
    ensures
        b == e.wf(),
{
    e.channel <= 15 && e.key <= 127 && e.velocity <= 127
}

/// Law: encoding a well-formed note event and decoding the bytes again
/// yields a note of the same kind with the same channel, key and velocity.
pub proof fn lemma_encode_decode(e: NoteEvent)
    requires
        e.wf(),
    ensures
        spec_decode(spec_encode(e)) == (match e.kind {
            NoteKind::On => DecodedEvent::NoteOn {
                channel: e.channel,
                key: e.key,
                velocity: e.velocity,
            },
            NoteKind::Off => DecodedEvent::NoteOff {
                channel: e.channel,
                key: e.key,
                velocity: e.velocity,
            },
        }),
{
}

} // verus!
