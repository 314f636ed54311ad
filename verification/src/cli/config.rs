//! The client's own configuration file: where the daemon listens.
use vstd::prelude::*;
use crate::config::{socket_address, socket_address_string};
use crate::text::copy_str;

verus! {

/// The client's configuration.
#[derive(Debug)]
pub struct AppConfig {
    pub server: ServerConfig,
}

/// Where the daemon listens.
#[derive(Debug)]
pub struct ServerConfig {
    pub host: String,
    pub port: u16,
}

impl Default for AppConfig {
    /// The values used when neither the file nor the environment sets one.
    fn default() -> (r: Self)
        ensures
            r.server.host@ == "0.0.0.0"@,
            r.server.port == 8080,
    {
        AppConfig { server: ServerConfig { host: copy_str("0.0.0.0"), port: 8080 } }
    }
}

impl AppConfig {
    /// `host:port` of the daemon.
    pub fn get_address(&self) -> (s: String)
        ensures
            s@ == socket_address(self.server.host@, self.server.port),
    {
        socket_address_string(&self.server.host, self.server.port)
    }
}

} // verus!
