//! The failure taxonomy of a command-backed reader. Every failure is
//! reported to the immediate caller of the failing operation; there is no
//! internal retry, and teardown never raises one of these.

use vstd::prelude::*;

verus! {

/// What went wrong while constructing a reader or producing its next event.
#[derive(Debug, Clone, Copy, PartialEq, Eq, Structural)]
pub enum ReaderError {
    /// The operating system could not create the process.
    SpawnFailure,
    /// The output pipe could not be obtained from the newly created process.
    StreamCaptureFailure,
    /// An I/O error occurred while pulling bytes from the output pipe.
    ReadFailure,
}

impl ReaderError {
    /// A fixed description of the failure, suitable for wrapping the
    /// underlying cause when the failure is reported.
    pub fn describe(&self) -> (m: &'static str)
        ensures
            self is SpawnFailure ==> m@ == "could not spawn process"@,
            self is StreamCaptureFailure ==> m@ == "could not capture stdout of spawned process"@,
            self is ReadFailure ==> m@ == "could not read from output stream"@,
    {
        match self {
            ReaderError::SpawnFailure => "could not spawn process",
            ReaderError::StreamCaptureFailure => "could not capture stdout of spawned process",
            ReaderError::ReadFailure => "could not read from output stream",
        }
    }
}

} // verus!
