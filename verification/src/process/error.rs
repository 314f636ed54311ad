//! Failures of the process supervisor.
use vstd::prelude::*;

verus! {

/// `std::io::Error`, carried through unchanged from the operation that
/// failed.
#[verifier::external_type_specification]
#[verifier::external_body]
pub struct ExIoError(std::io::Error);

/// Why an operation of the supervisor failed.
#[derive(Debug)]
pub enum Error {
    /// The working directory could not be created.
    CreateWorkingDirectoryFailed(std::io::Error),
    /// The runtime directory (which holds the pid file) could not be created.
    CreateRuntimeDirectoryFailed(std::io::Error),
    /// `eula.txt` could not be written.
    CreateEulaFileFailed(std::io::Error),
    /// The pid file could not be written.
    CreatePidFileFailed(std::io::Error),
    /// The pid file could not be read, or does not hold a pid.
    ReadPidFileFailed(std::io::Error),
    /// The pid file could not be removed.
    RemovePidFileFailed(std::io::Error),
    /// The working directory could not be resolved to an absolute path.
    ResolveWorkingDirectoryFailed(std::io::Error),
    /// Writing to the server's standard input failed, or the command was
    /// refused before it was written.
    WriteStdinFailed(std::io::Error),
    /// A command was sent while no server was running.
    WriteWhileNotRunningError,
    /// The configured jar does not exist.
    JarFileDoesNotExist,
    /// The JVM could not be spawned.
    SpawnFailed(std::io::Error),
}

/// The kinds of I/O error that the supervisor reports for refused input.
#[derive(Debug, Clone, Copy, PartialEq, Eq, Structural)]
pub enum IoErrorKind {
    /// `std::io::ErrorKind::InvalidInput`: a parameter was refused.
    InvalidInput,
    /// `std::io::ErrorKind::InvalidData`: data read was not valid.
    InvalidData,
}

/// Which error of the supervisor an I/O error made by the library is
/// reported as.
#[derive(Debug, Clone, Copy, PartialEq, Eq, Structural)]
pub enum IoFailure {
    /// [`Error::WriteStdinFailed`].
    WriteStdin,
    /// [`Error::ReadPidFileFailed`].
    ReadPidFile,
}

/// `std::io::Error::kind` of the I/O error that `e` carries, as one of the
/// kinds above; what it gives for another kind, or for a variant that
/// carries no I/O error, is not stated.
pub uninterp spec fn io_kind_of(e: Error) -> Option<IoErrorKind>;

/// `std::io::Error::new(kind, msg)`, reported as the error `failure` names.
/// The contract claims what std documents of `new` and `kind`: the error's
/// kind is the one it was made with. Its message is carried but not stated.
#[verifier::external_body]
pub(crate) fn io_failure(failure: IoFailure, kind: IoErrorKind, msg: &str) -> (e: Error)
    ensures
        failure == IoFailure::WriteStdin ==> e is WriteStdinFailed,
        failure == IoFailure::ReadPidFile ==> e is ReadPidFileFailed,
        io_kind_of(e) == Some(kind),
{
    let kind = match kind {
        IoErrorKind::InvalidInput => std::io::ErrorKind::InvalidInput,
        IoErrorKind::InvalidData => std::io::ErrorKind::InvalidData,
    };
    let io = std::io::Error::new(kind, msg.to_string());
    match failure {
        IoFailure::WriteStdin => Error::WriteStdinFailed(io),
        IoFailure::ReadPidFile => Error::ReadPidFileFailed(io),
    }
}

} // verus!
