//! Server lifecycle: the events read from the log, the state machine and the
//! version metadata.

pub mod event;
pub mod state;
pub mod version;
