//! Payloads exchanged over the daemon's TCP protocol.

pub mod schemas;
