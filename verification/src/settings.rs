//! Process-level settings with their defaults.

use vstd::prelude::*;
use vstd::string::StringExecFns;

verus! {

/// Settings the surrounding process configures the server with.
pub struct Settings {
    pub host: String,
    pub port: u16,
    pub debug: bool,
    pub resource_prefix_format: String,
}

impl Settings {
    /// The default settings: local host, port 8000, no debugging, and the
    /// default resource prefix.
    pub fn new() -> (s: Self)
        ensures
            s.host@ == "127.0.0.1"@,
            s.port == 8000,
            s.debug == false,
            s.resource_prefix_format@ == "resource://"@,
    {
        Settings {
            host: String::from_str("127.0.0.1"),
            port: 8000,
            debug: false,
            resource_prefix_format: default_resource_prefix_format(),
        }
    }

    /// Whether debugging output is requested.
    pub fn debug(&self) -> (d: bool)
        ensures
            d == self.debug,
    {
        self.debug
    }

    /// The format used to prefix resource URIs.
    pub fn resource_prefix_format(&self) -> (r: &str)
        ensures
            r@ == self.resource_prefix_format@,
    {
        self.resource_prefix_format.as_str()
    }
}

impl Default for Settings {
    /// Same as `new`.
    fn default() -> (s: Self)
        ensures
            s.host@ == "127.0.0.1"@,
            s.port == 8000,
            s.debug == false,
            s.resource_prefix_format@ == "resource://"@,
    {
        Settings::new()
    }
}

/// The resource prefix used when none is configured.
pub fn default_resource_prefix_format() -> (r: String)
    ensures
        r@ == "resource://"@,
{
    String::from_str("resource://")
}

} // verus!
