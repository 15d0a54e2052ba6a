//! Configuration: where the relay listens, where it forwards to, and how
//! long it waits for the downstream service.
//!
//! The settings are read once, when the process starts, and do not change
//! afterwards. This module does not read the environment; it says under
//! which variable each setting is looked up and what stands in for a
//! variable that is not set.

use vstd::prelude::*;

verus! {

/// The number of seconds that a forwarded request may take before it counts
/// as a failure to reach the downstream service.
pub const DEFAULT_TIMEOUT_SECS: u64 = 5;

/// The settings that come from the environment.
#[derive(Clone, Copy, Debug, PartialEq, Eq, Structural)]
pub enum Setting {
    /// The address to listen on.
    Host,
    /// The port to listen on.
    Port,
    /// The base URL of the downstream service.
    Downstream,
}

/// The configuration of a relay.
#[derive(Clone, Debug, PartialEq, Eq)]
pub struct Config {
    /// The address to listen on.
    pub host: String,
    /// The port to listen on.
    pub port: String,
    /// The base URL of the downstream service.
    pub downstream: String,
    /// The path below the base URL to which observations are posted.
    pub subpath: String,
    /// The number of seconds that a forwarded request may take.
    pub timeout_secs: u64,
}

/// The path below the base URL to which observations are posted.
pub open spec fn default_subpath() -> Seq<char> {
    "/api/tweet"@
}

impl Setting {
    /// The name of the environment variable that holds the setting.
    pub open spec fn variable_text(self) -> Seq<char> {
        match self {
            Setting::Host => "HOST"@,
            Setting::Port => "PORT"@,
            Setting::Downstream => "GO_SERVICE_URL"@,
        }
    }

    /// What the setting is where its variable is not set.
    pub open spec fn default_text(self) -> Seq<char> {
        match self {
            Setting::Host => "0.0.0.0"@,
            Setting::Port => "3000"@,
            Setting::Downstream => "http://go-grpc-client-service:8080"@,
        }
    }

    /// The setting, given what was found under its variable.
    pub open spec fn resolved(self, found: Option<String>) -> Seq<char> {
        match found {
            Some(value) => value@,
            None => self.default_text(),
        }
    }

    /// The name of the environment variable that holds the setting.
    pub fn variable(&self) -> (name: &'static str)
        ensures
            name@ == self.variable_text(),
    {
        match self {
            Setting::Host => "HOST",
            Setting::Port => "PORT",
            Setting::Downstream => "GO_SERVICE_URL",
        }
    }

    /// What the setting is where its variable is not set.
    pub fn default_value(&self) -> (value: &'static str)
        ensures
            value@ == self.default_text(),
    {
        match self {
            Setting::Host => "0.0.0.0",
            Setting::Port => "3000",
            Setting::Downstream => "http://go-grpc-client-service:8080",
        }
    }

    /// The setting, given what was found under its variable: that value as
    /// it is, an empty one too, or the default where nothing was found.
    pub fn resolve(&self, found: Option<String>) -> (value: String)
        ensures
            value@ == self.resolved(found),
    {
        match found {
            Some(value) => value,
            None => String::from_str(self.default_value()),
        }
    }
}

impl Config {
    /// Builds the configuration from what was found under the three
    /// variables. The path below the base URL and the timeout are fixed.
    pub fn resolve(host: Option<String>, port: Option<String>, downstream: Option<String>) -> (config:
        Config)
        ensures
            config.host@ == Setting::Host.resolved(host),
            config.port@ == Setting::Port.resolved(port),
            config.downstream@ == Setting::Downstream.resolved(downstream),
            config.subpath@ == default_subpath(),
            config.timeout_secs == DEFAULT_TIMEOUT_SECS,
    {
        Config {
            host: Setting::Host.resolve(host),
            port: Setting::Port.resolve(port),
            downstream: Setting::Downstream.resolve(downstream),
            subpath: String::from_str("/api/tweet"),
            timeout_secs: DEFAULT_TIMEOUT_SECS,
        }
    }

    /// The address to bind: host, a colon, port.
    pub open spec fn bind_text(self) -> Seq<char> {
        self.host@ + ":"@ + self.port@
    }

    /// The URL to which observations are posted: the base URL with the path
    /// written after it.
    pub open spec fn forward_text(self) -> Seq<char> {
        self.downstream@ + self.subpath@
    }

    /// The address to bind: host, a colon, port.
    pub fn bind_address(&self) -> (address: String)
        ensures
            address@ == self.bind_text(),
    {
        let mut address = self.host.clone();
        address.append(":");
        address.append(self.port.as_str());
        address
    }

    /// The URL to which observations are posted.
    pub fn forward_url(&self) -> (url: String)
        ensures
            url@ == self.forward_text(),
    {
        let mut url = self.downstream.clone();
        url.append(self.subpath.as_str());
        url
    }
}

} // verus!
