//! Failures of a recording session and how two of them combine.
use vstd::prelude::*;

verus! {

/// A destination that the relay writes to.
#[derive(Clone, Copy, Debug, PartialEq, Eq, Structural)]
pub enum Sink {
    /// The master side of the pseudo-terminal: what the shell reads.
    Master,
    /// The standard output of the recorder: what the user sees.
    Stdout,
    /// The capture file.
    Capture,
}

/// Why a session could not be set up, or why it broke.
#[derive(Clone, Copy, Debug, PartialEq, Eq, Structural)]
pub enum SessionError {
    /// The window size or the terminal attributes could not be read.
    DeviceQuery,
    /// Terminal attributes could not be applied.
    DeviceConfig,
    /// The shell variable holds text that is not Unicode.
    ShellUndecodable,
    /// The shell path holds a zero byte, so no program can be named by it.
    ShellInteriorNul,
    /// No pseudo-terminal pair could be allocated.
    PtyCreation,
    /// No process could be created.
    ProcessSpawn,
    /// The spawned process could not turn into the shell.
    ShellExec,
    /// The capture file could not be opened.
    FileAccess,
    /// Waiting for input on the keyboard and the master failed.
    ReadinessWait,
    /// A write to `sink` failed outright.
    WriteFailed { sink: Sink },
    /// A write to `sink` took `written` bytes where `read` had been read.
    PartialTransfer { sink: Sink, read: usize, written: usize },
}

/// What a failed session reports: the failure that decided the outcome and,
/// where putting the terminal back failed as well, that second failure.
#[derive(Clone, Copy, Debug, PartialEq, Eq, Structural)]
pub struct Failure {
    pub primary: SessionError,
    pub secondary: Option<SessionError>,
}

/// The outcome of a whole run, from the outcome of the session proper and
/// the outcome of restoring the terminal afterwards.
///
/// The session's failure comes first. A failed restoration is the primary
/// failure only of a session that went well, and is chained behind the
/// session's own failure otherwise.
pub open spec fn combined(
    session: Result<(), SessionError>,
    restoration: Result<(), SessionError>,
) -> Result<(), Failure> {
    match (session, restoration) {
        (Ok(_), Ok(_)) => Ok(()),
        (Ok(_), Err(late)) => Err(Failure { primary: late, secondary: None }),
        (Err(first), Ok(_)) => Err(Failure { primary: first, secondary: None }),
        (Err(first), Err(late)) => Err(Failure { primary: first, secondary: Some(late) }),
    }
}

/// Combines the outcome of the session with that of the restoration.
pub fn conclude(session: Result<(), SessionError>, restoration: Result<(), SessionError>) -> (outcome:
    Result<(), Failure>)
    ensures
        outcome == combined(session, restoration),
{
    match session {
        Ok(_) => match restoration {
            Ok(_) => Ok(()),
            Err(late) => Err(Failure { primary: late, secondary: None }),
        },
        Err(first) => match restoration {
            Ok(_) => Err(Failure { primary: first, secondary: None }),
            Err(late) => Err(Failure { primary: first, secondary: Some(late) }),
        },
    }
}

} // verus!
