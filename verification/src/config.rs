//! Server bind configuration: host, port and TLS flag, resolved from
//! optionally supplied values with fixed defaults.  Reading the process
//! environment is the caller's concern; the resolution rule lives here.

use vstd::prelude::*;
use vstd::string::*;

verus! {

/// The bind configuration of the service.
#[derive(Debug, Clone)]
pub struct Config {
    host: String,
    port: u16,
    is_secure: bool,
}

impl Config {
    /// The configured host.
    pub closed spec fn host_spec(&self) -> Seq<char> {
        self.host@
    }

    /// The configured port.
    pub closed spec fn port_spec(&self) -> u16 {
        self.port
    }

    /// Whether the service is configured as secure.
    pub closed spec fn is_secure_spec(&self) -> bool {
        self.is_secure
    }

    /// Resolve a configuration from optionally supplied values: a missing
    /// host falls back to the loopback address, a missing port to the
    /// default port, a missing security flag to insecure.
    pub fn resolve(host: Option<String>, port: Option<u16>, is_secure: Option<bool>) -> (r: Config)
        ensures
            host matches Some(h) ==> r.host_spec() == h@,
            host is None ==> r.host_spec() == "127.0.0.1"@,
            port matches Some(p) ==> r.port_spec() == p,
            port is None ==> r.port_spec() == 8000,
            is_secure matches Some(b) ==> r.is_secure_spec() == b,
            is_secure is None ==> r.is_secure_spec() == false,
    {
        let host: String = match host {
            Option::Some(h) => h,
            Option::None => "127.0.0.1".to_owned(),
        };
        let port: u16 = match port {
            Option::Some(p) => p,
            Option::None => 8000,
        };
        let is_secure: bool = match is_secure {
            Option::Some(b) => b,
            Option::None => false,
        };
        Config { host, port, is_secure }
    }

    pub fn host(&self) -> (r: String)
        ensures
            r@ == self.host_spec(),
    {
        self.host.clone()
    }

    pub fn port(&self) -> (r: u16)
        ensures
            r == self.port_spec(),
    {
        self.port
    }

    pub fn is_secure(&self) -> (r: bool)
        ensures
            r == self.is_secure_spec(),
    {
        self.is_secure
    }
}

} // verus!
