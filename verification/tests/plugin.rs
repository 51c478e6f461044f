use jt51_plugin::audio::copy_samples;
use jt51_plugin::capability::{capability_response, Capability, Support};
use jt51_plugin::meta::plugin_metadata;

#[test]
fn event_capabilities_are_supported() {
    assert_eq!(capability_response(Capability::SendEvents), Support::Yes);
    assert_eq!(capability_response(Capability::SendMidiEvent), Support::Yes);
    assert_eq!(capability_response(Capability::ReceiveEvents), Support::Yes);
    assert_eq!(capability_response(Capability::ReceiveMidiEvent), Support::Yes);
}

#[test]
fn other_capabilities_are_not() {
    assert_eq!(capability_response(Capability::ReceiveTimeInfo), Support::No);
    assert_eq!(capability_response(Capability::Offline), Support::No);
    assert_eq!(capability_response(Capability::MidiProgramNames), Support::No);
    assert_eq!(capability_response(Capability::Bypass), Support::No);
    assert_eq!(capability_response(Capability::ReceiveSysExEvent), Support::No);
    assert_eq!(capability_response(Capability::MidiSingleNoteTuningChange), Support::No);
    assert_eq!(capability_response(Capability::MidiKeyBasedInstrumentControl), Support::No);
    assert_eq!(capability_response(Capability::Unrecognized), Support::No);
}

#[test]
fn metadata_is_fixed() {
    let m = plugin_metadata();
    assert_eq!(m.name, "JT51Plugin");
    assert_eq!(m.vendor, "Hans Baier");
    assert_eq!(m.unique_id, 19750001);
}

#[test]
fn f32_samples_pass_through_unchanged() {
    let input: Vec<f32> = vec![0.0, -1.5, 0.25, 3.125e-3, f32::MAX, f32::MIN];
    let out = copy_samples(&input);
    assert_eq!(out, input);
}

#[test]
fn f64_samples_pass_through_unchanged() {
    let input: Vec<f64> = vec![0.0, -2.5, 1.0e-12, 7.75, f64::MAX];
    let out = copy_samples(&input);
    assert_eq!(out, input);
}

#[test]
fn empty_channel_passes_through() {
    let input: Vec<f32> = vec![];
    let out = copy_samples(&input);
    assert!(out.is_empty());
}
