use vstd::prelude::*;

verus! {

/// Network credentials, fixed at build time. The embedding program reads
/// them from its build environment and hands them in as plain strings.
pub struct Config {
    pub wifi_ssid: String,
    pub wifi_pass: String,
}

impl Config {
    /// Builds the configuration from the given credentials, verbatim.
    pub fn load(wifi_ssid: String, wifi_pass: String) -> (c: Config)
        ensures
            c.wifi_ssid@ == wifi_ssid@,
            c.wifi_pass@ == wifi_pass@,
    {
        Config { wifi_ssid, wifi_pass }
    }
}

} // verus!
