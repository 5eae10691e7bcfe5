use vstd::prelude::*;

verus! {

/// Command-line settings of the agent.
#[derive(Debug, Clone, PartialEq)]
pub struct Args {
    /// Whether the agent runs as a netdata plugin; not taken from the command line.
    pub netdata_plugin: Option<bool>,
    /// Update frequency passed by netdata when run as its plugin, in seconds.
    pub netdata_freq: u64,
    /// Path to the install script.
    pub install: Option<String>,
    /// Path to the get_sysinfo script.
    pub get_sysinfo: Option<String>,
}

} // verus!
