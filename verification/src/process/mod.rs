//! Supervision of the server's JVM: the log grammar, the lifecycle state
//! machine, the pid file format and the commands written to the server.

pub mod logs;
pub mod state;
pub mod error;
pub mod pidfile;
pub mod process;
