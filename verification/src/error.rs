//! Failure kinds of the session commands.

use vstd::prelude::*;

verus! {

/// Why a session command failed.
#[derive(Debug, PartialEq, Eq)]
pub enum SessionError {
    /// The port could not be acquired, or the streaming sink rejected a chunk;
    /// the text describes the underlying failure.
    OpenFailed(String),
    /// The command needs an active session and none is running.
    NotRunning,
    /// The accumulator holds more bytes than the usage counter can express.
    Overflow,
    /// Writing the accumulator to storage failed.
    WriteFailed,
    /// The search pattern is not a valid regular expression.
    InvalidPattern,
}

} // verus!
