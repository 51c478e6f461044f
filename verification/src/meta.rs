//! Static plugin metadata: what the plugin reports about itself to the host
//! once, at instantiation.

use vstd::prelude::*;

verus! {

/// The plugin's static identity: display name, vendor, and the unique
/// numeric identifier the host files the plugin under.
pub struct PluginMetadata {
    pub name: String,
    pub vendor: String,
    pub unique_id: i32,
}

/// The metadata this plugin always reports.
pub fn plugin_metadata() -> (m: PluginMetadata)
    ensures
        m.name@ == "JT51Plugin"@,
        m.vendor@ == "Hans Baier"@,
        m.unique_id == 19750001,
{
    PluginMetadata {
        name: "JT51Plugin".to_string(),
        vendor: "Hans Baier".to_string(),
        unique_id: 19750001,
    }
}

} // verus!
