//! The daemon: its wire protocol and the decisions of its actor, its TCP
//! front end and its start-up recovery.

pub mod protocol;
pub mod actor;
pub mod wait;
pub mod recovery;
pub mod tcp;
