//! The first generation of the supervisor, kept for its configuration file
//! format and its finer-grained state machine (with loading, saving and
//! backup states).

pub mod config;
pub mod server;
pub mod state;

pub use self::state::ServerState;
