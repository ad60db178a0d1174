//! What the service is configured with at startup, and the self-check of
//! the cache that startup depends on.

use vstd::prelude::*;
use crate::upstream::Provider;

verus! {

/// The settings of one process, read once at startup and handed to every
/// request.
#[derive(Debug, Clone, PartialEq, Eq)]
pub struct Environment {
    pub endpoint: String,
    pub api_key: String,
    pub redis_host: String,
    pub redis_port: String,
}

/// The address of the cache: `redis://{host}:{port}`.
pub open spec fn redis_url_of(host: Seq<char>, port: Seq<char>) -> Seq<char> {
    "redis://"@ + host + ":"@ + port
}

/// The name of the setting whose value is never shown.
pub open spec fn secret_setting() -> Seq<char> {
    "API_KEY"@
}

/// The line that records a setting at startup: its name and its value, but
/// for the API key, whose value is replaced by three dots.
pub open spec fn log_line_of(var: Seq<char>, value: Seq<char>) -> Seq<char> {
    if var == secret_setting() {
        "API_KEY: ..."@
    } else {
        var + ": "@ + value
    }
}

/// Writes the line that records setting `var` with `value`, hiding the API
/// key.
pub fn log_line(var: &str, value: &str) -> (line: String)
    ensures
        line@ == log_line_of(var@, value@),
{
    let mut line = String::from_str(var);
    if line == String::from_str("API_KEY") {
        String::from_str("API_KEY: ...")
    } else {
        line.append(": ");
        line.append(value);
        line
    }
}

/// The key that the self-check writes and reads back.
pub open spec fn probe_key() -> Seq<char> {
    "foo"@
}

/// The value that the self-check writes under the probe key.
pub open spec fn probe_value() -> Seq<char> {
    "bar"@
}

/// One entry to write to the cache at startup and to read back.
#[derive(Debug, Clone, PartialEq, Eq)]
pub struct Probe {
    pub key: String,
    pub value: String,
}

impl Environment {
    /// The address under which the cache is reached.
    pub fn redis_url(&self) -> (url: String)
        ensures
            url@ == redis_url_of(self.redis_host@, self.redis_port@),
    {
        let mut url = String::from_str("redis://");
        url.append(self.redis_host.as_str());
        url.append(":");
        url.append(self.redis_port.as_str());
        url
    }

    /// The provider that lookups are sent to.
    pub fn provider(&self) -> (provider: Provider)
        ensures
            provider.endpoint@ == self.endpoint@,
            provider.api_key@ == self.api_key@,
    {
        Provider {
            endpoint: String::from_str(self.endpoint.as_str()),
            api_key: String::from_str(self.api_key.as_str()),
        }
    }
}

impl Probe {
    /// The entry of the self-check.
    pub fn new() -> (probe: Probe)
        ensures
            probe.key@ == probe_key(),
            probe.value@ == probe_value(),
    {
        Probe { key: String::from_str("foo"), value: String::from_str("bar") }
    }

    /// Whether the cache passed: `read` is what it gave back for the probe
    /// key after the probe was written.
    pub fn passed(&self, read: &String) -> (ok: bool)
        ensures
            ok == (read@ == self.value@),
    {
        *read == self.value
    }
}

} // verus!
