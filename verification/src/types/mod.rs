//! Types shared between the daemon, the process supervisor and the client.

pub mod server;
pub mod tcp;
