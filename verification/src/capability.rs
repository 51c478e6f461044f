//! The capability responder: a stateless, pure answer to host queries about
//! what the plugin can do. Sending and receiving events — note events in
//! particular — is supported; nothing else is.

use vstd::prelude::*;

verus! {

/// A host capability query. The named variants mirror the queries a host
/// can pose; anything the plugin does not recognize is `Unrecognized`.
#[derive(Clone, Copy, Debug, PartialEq, Eq, Structural)]
pub enum Capability {
    SendEvents,
    SendMidiEvent,
    ReceiveEvents,
    ReceiveMidiEvent,
    ReceiveTimeInfo,
    Offline,
    MidiProgramNames,
    Bypass,
    ReceiveSysExEvent,
    MidiSingleNoteTuningChange,
    MidiKeyBasedInstrumentControl,
    Unrecognized,
}

/// The plugin's answer to a capability query.
#[derive(Clone, Copy, Debug, PartialEq, Eq, Structural)]
pub enum Support {
    Yes,
    No,
}

/// The queries the plugin answers yes to: sending and receiving events and
/// note events.
pub open spec fn event_capability(q: Capability) -> bool {
    q == Capability::SendEvents || q == Capability::SendMidiEvent
        || q == Capability::ReceiveEvents || q == Capability::ReceiveMidiEvent
}

/// Answer a capability query: yes exactly for the four event capabilities,
/// no for everything else, unrecognized queries included.
pub fn capability_response(query: Capability) -> (r: Support)
    ensures
        r == (if event_capability(query) {
            Support::Yes
        } else {
            Support::No
        }),
{
    match query {
        Capability::SendEvents
        | Capability::SendMidiEvent
        | Capability::ReceiveEvents
        | Capability::ReceiveMidiEvent => Support::Yes,
        _ => Support::No,
    }
}

} // verus!
