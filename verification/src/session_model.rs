//! A recording session as a mathematical state machine.
//!
//! A session goes through its phases in a fixed order: it probes the window
//! size, takes a snapshot of the terminal attributes, resolves the shell,
//! launches the shell in a pseudo-terminal, puts the terminal into raw mode,
//! opens the capture file and runs the relay. Once the snapshot is taken,
//! every way out leads through one restoration of the terminal to that
//! snapshot, whatever went wrong before.
//!
//! As with the relay, the machine performs nothing itself: each [`Phase`]
//! has one [`Demand`] outstanding and moves on when it is told the outcome
//! as an [`Occurrence`].
use crate::attributes::{raw_form, TerminalAttributes};
use crate::fault::{combined, Failure, SessionError};
use crate::relay_model::{Request, Signal, Stage};
use crate::shell::{names_a_program, resolved, resolved_shell_names_a_program, ShellSetting};
use crate::window::{probed, WindowGeometry};
use vstd::prelude::*;

verus! {

/// The name of the capture file, in the working directory.
pub const CAPTURE_FILE: &'static str = "typescript";

/// What the parent of a launched shell holds: the descriptor of the master
/// side of the pseudo-terminal, and the identifier of the child process.
/// The identifier is for information only; the session never waits for the
/// child.
#[derive(Clone, Copy, Debug, PartialEq, Eq, Structural)]
pub struct SessionHandles {
    pub master: i32,
    pub child: i32,
}

/// On which side of a launch the caller finds itself.
#[derive(Clone, Copy, Debug, PartialEq, Eq, Structural)]
pub enum SessionOutcome {
    /// The caller is the new process. All it may do is become the shell.
    ChildRole,
    /// The caller is the process that launched.
    ParentRole { handles: SessionHandles },
}

/// The outcome of a demand, as the caller reports it back.
pub enum Occurrence {
    /// The window-size query returned `status` and left `reported`.
    WindowQueried { status: i32, reported: WindowGeometry },
    /// The terminal attributes were read.
    AttributesCaptured { attributes: TerminalAttributes },
    /// The terminal attributes could not be read.
    CaptureFailed,
    /// The environment was asked for the shell.
    ShellVariableRead { setting: ShellSetting },
    /// The launch went through.
    Launched { outcome: SessionOutcome },
    /// The launch failed for want of a pseudo-terminal.
    PtyUnavailable,
    /// The launch failed for want of a process.
    SpawnFailed,
    /// The new process could not become the shell.
    ExecFailed,
    /// The attributes asked for are in force.
    AttributesApplied,
    /// The attributes asked for could not be put in force.
    ApplyFailed,
    /// The capture file is open.
    CaptureOpened,
    /// The capture file could not be opened.
    CaptureRefused,
    /// The outcome of a request of the relay.
    Relayed { signal: Signal },
}

/// What the session asks its caller to do next.
pub enum Demand {
    /// Query the size of the terminal's window.
    ProbeWindow,
    /// Read the terminal's attributes.
    CaptureAttributes,
    /// Ask the environment for the shell.
    ReadShellVariable,
    /// Create a pseudo-terminal of this geometry and with these attributes,
    /// and a new process attached to it.
    Launch { geometry: WindowGeometry, attributes: TerminalAttributes },
    /// Replace the process image with this shell, with no argument but its
    /// own name.
    Exec { shell: Seq<char> },
    /// Put the terminal into raw mode by applying these attributes.
    EnterRawMode { attributes: TerminalAttributes },
    /// Create the capture file, or empty it if it exists.
    OpenCapture,
    /// Do what the relay asks for.
    Relay { request: Request },
    /// Put the terminal back by applying these attributes.
    Restore { attributes: TerminalAttributes },
    /// Leave, with this outcome.
    Exit { outcome: Result<(), Failure> },
}

/// Where the session stands.
pub enum Phase {
    Probing,
    Capturing { geometry: WindowGeometry },
    Resolving { geometry: WindowGeometry, original: TerminalAttributes },
    Launching { geometry: WindowGeometry, original: TerminalAttributes, shell: Seq<char> },
    Executing { original: TerminalAttributes, shell: Seq<char> },
    EnteringRaw { original: TerminalAttributes, raw: TerminalAttributes, handles: SessionHandles },
    OpeningCapture { original: TerminalAttributes, handles: SessionHandles },
    Relaying { original: TerminalAttributes, handles: SessionHandles, relay: Stage },
    Restoring { original: TerminalAttributes, session: Result<(), SessionError> },
    Done { outcome: Result<(), Failure> },
}

/// The phase of a session that fails before any snapshot was taken: there
/// is nothing to restore, so it is over at once.
pub open spec fn refused(error: SessionError) -> Phase {
    Phase::Done { outcome: combined(Err(error), Ok(())) }
}

impl Phase {
    /// The demand that is outstanding in this phase.
    pub open spec fn demand(self) -> Demand {
        match self {
            Phase::Probing => Demand::ProbeWindow,
            Phase::Capturing { .. } => Demand::CaptureAttributes,
            Phase::Resolving { .. } => Demand::ReadShellVariable,
            Phase::Launching { geometry, original, .. } => Demand::Launch {
                geometry,
                attributes: original,
            },
            Phase::Executing { shell, .. } => Demand::Exec { shell },
            Phase::EnteringRaw { raw, .. } => Demand::EnterRawMode { attributes: raw },
            Phase::OpeningCapture { .. } => Demand::OpenCapture,
            Phase::Relaying { relay, .. } => Demand::Relay { request: relay.request() },
            Phase::Restoring { original, .. } => Demand::Restore { attributes: original },
            Phase::Done { outcome } => Demand::Exit { outcome },
        }
    }

    /// Whether `occurrence` is an outcome of the outstanding demand.
    pub open spec fn accepts(self, occurrence: Occurrence) -> bool {
        match self {
            Phase::Probing => occurrence is WindowQueried,
            Phase::Capturing { .. } => occurrence is AttributesCaptured || occurrence is CaptureFailed,
            Phase::Resolving { .. } => occurrence is ShellVariableRead,
            Phase::Launching { .. } => occurrence is Launched || occurrence is PtyUnavailable
                || occurrence is SpawnFailed,
            Phase::Executing { .. } => occurrence is ExecFailed,
            Phase::EnteringRaw { .. } => occurrence is AttributesApplied || occurrence is ApplyFailed,
            Phase::OpeningCapture { .. } => occurrence is CaptureOpened || occurrence is CaptureRefused,
            Phase::Relaying { relay, .. } => occurrence matches Occurrence::Relayed { signal }
                && relay.accepts(signal),
            Phase::Restoring { .. } => occurrence is AttributesApplied || occurrence is ApplyFailed,
            Phase::Done { .. } => false,
        }
    }

    /// The phase after `occurrence`. An occurrence that the phase does not
    /// accept changes nothing.
    pub open spec fn next(self, occurrence: Occurrence) -> Phase {
        match self {
            Phase::Probing => match occurrence {
                Occurrence::WindowQueried { status, reported } => match probed(status, reported) {
                    Ok(geometry) => Phase::Capturing { geometry },
                    Err(error) => refused(error),
                },
                _ => self,
            },
            Phase::Capturing { geometry } => match occurrence {
                Occurrence::AttributesCaptured { attributes } => Phase::Resolving {
                    geometry,
                    original: attributes,
                },
                Occurrence::CaptureFailed => refused(SessionError::DeviceQuery),
                _ => self,
            },
            Phase::Resolving { geometry, original } => match occurrence {
                Occurrence::ShellVariableRead { setting } => match resolved(setting) {
                    Ok(shell) => Phase::Launching { geometry, original, shell },
                    Err(error) => Phase::Restoring { original, session: Err(error) },
                },
                _ => self,
            },
            Phase::Launching { original, shell, .. } => match occurrence {
                Occurrence::Launched { outcome } => match outcome {
                    SessionOutcome::ChildRole => Phase::Executing { original, shell },
                    SessionOutcome::ParentRole { handles } => Phase::EnteringRaw {
                        original,
                        raw: raw_form(original),
                        handles,
                    },
                },
                Occurrence::PtyUnavailable => Phase::Restoring {
                    original,
                    session: Err(SessionError::PtyCreation),
                },
                Occurrence::SpawnFailed => Phase::Restoring {
                    original,
                    session: Err(SessionError::ProcessSpawn),
                },
                _ => self,
            },
            Phase::Executing { original, .. } => match occurrence {
                Occurrence::ExecFailed => Phase::Restoring {
                    original,
                    session: Err(SessionError::ShellExec),
                },
                _ => self,
            },
            Phase::EnteringRaw { original, handles, .. } => match occurrence {
                Occurrence::AttributesApplied => Phase::OpeningCapture { original, handles },
                Occurrence::ApplyFailed => Phase::Restoring {
                    original,
                    session: Err(SessionError::DeviceConfig),
                },
                _ => self,
            },
            Phase::OpeningCapture { original, handles } => match occurrence {
                Occurrence::CaptureOpened => Phase::Relaying {
                    original,
                    handles,
                    relay: Stage::Waiting,
                },
                Occurrence::CaptureRefused => Phase::Restoring {
                    original,
                    session: Err(SessionError::FileAccess),
                },
                _ => self,
            },
            Phase::Relaying { original, handles, relay } => match occurrence {
                Occurrence::Relayed { signal } => match relay.next(signal) {
                    Stage::Ended { result } => Phase::Restoring { original, session: result },
                    onward => Phase::Relaying { original, handles, relay: onward },
                },
                _ => self,
            },
            Phase::Restoring { session, .. } => match occurrence {
                Occurrence::AttributesApplied => Phase::Done { outcome: combined(session, Ok(())) },
                Occurrence::ApplyFailed => Phase::Done {
                    outcome: combined(session, Err(SessionError::DeviceConfig)),
                },
                _ => self,
            },
            Phase::Done { .. } => self,
        }
    }

    /// What holds of the data of every phase that a session can reach: the
    /// shell can name a program, the raw attributes are the raw form of the
    /// snapshot, and the relay is under way and well formed.
    pub open spec fn well_formed(self) -> bool {
        match self {
            Phase::Launching { shell, .. } => names_a_program(shell),
            Phase::Executing { shell, .. } => names_a_program(shell),
            Phase::EnteringRaw { original, raw, .. } => raw == raw_form(original),
            Phase::Relaying { relay, .. } => relay.well_formed() && !(relay is Ended),
            _ => true,
        }
    }

    /// The handles of the launched shell, in the phases that have them.
    pub open spec fn handles(self) -> Option<SessionHandles> {
        match self {
            Phase::EnteringRaw { handles, .. } => Some(handles),
            Phase::OpeningCapture { handles, .. } => Some(handles),
            Phase::Relaying { handles, .. } => Some(handles),
            _ => None,
        }
    }
}

/// A well-formed phase stays well formed, whatever occurs.
pub proof fn well_formedness_is_kept(phase: Phase, occurrence: Occurrence)
    requires
        phase.well_formed(),
    ensures
        phase.next(occurrence).well_formed(),
{
    if let Occurrence::ShellVariableRead { setting } = occurrence {
        resolved_shell_names_a_program(setting);
    }
}

} // verus!
