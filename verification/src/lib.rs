//! Core of a real-time MIDI harmonizer plugin.
//!
//! Once per audio block the host hands the plugin a list of raw events.
//! Every note-on / note-off among them is expanded into a fixed triad
//! (the root plus copies 4 and 8 semitones above), the expansion is staged
//! in an outgoing buffer, and on the audio call of the same block the
//! staged events are flushed to the host while audio samples pass through
//! unchanged. These modules hold that per-block engine: the event model
//! and wire codec, the harmonizer and its staging buffer, the audio
//! pass-through, the capability responder, and the static plugin metadata.

pub mod audio;
pub mod capability;
pub mod harmonizer;
pub mod meta;
pub mod midi;
