//! A recording session in executable form.
//!
//! A [`Session`] is driven from outside, as a [`Relay`] is: ask it for the
//! [`SessionAction`] that is pending, perform it, and report the outcome as
//! a [`SessionEvent`] to [`Session::step`]. Every answer is the one that the
//! model in [`crate::session_model`] gives.
use crate::attributes::{make_raw, TerminalAttributes};
use crate::fault::{conclude, Failure, SessionError};
use crate::relay::{Relay, RelayAction, RelayEvent};
use crate::session_model::{
    well_formedness_is_kept, Demand, Occurrence, Phase, SessionHandles, SessionOutcome,
};
use crate::shell::{resolve_shell, ShellVariable};
use crate::window::{get_window, WindowGeometry};
use vstd::prelude::*;

verus! {

/// The outcome of an action. Its view is an [`Occurrence`].
#[derive(Debug, PartialEq, Eq)]
pub enum SessionEvent {
    WindowQueried { status: i32, reported: WindowGeometry },
    AttributesCaptured { attributes: TerminalAttributes },
    CaptureFailed,
    ShellVariableRead { variable: ShellVariable },
    Launched { outcome: SessionOutcome },
    PtyUnavailable,
    SpawnFailed,
    ExecFailed,
    AttributesApplied,
    ApplyFailed,
    CaptureOpened,
    CaptureRefused,
    Relayed { event: RelayEvent },
}

impl View for SessionEvent {
    type V = Occurrence;

    open spec fn view(&self) -> Occurrence {
        match *self {
            SessionEvent::WindowQueried { status, reported } => Occurrence::WindowQueried {
                status,
                reported,
            },
            SessionEvent::AttributesCaptured { attributes } => Occurrence::AttributesCaptured {
                attributes,
            },
            SessionEvent::CaptureFailed => Occurrence::CaptureFailed,
            SessionEvent::ShellVariableRead { variable } => Occurrence::ShellVariableRead {
                setting: variable@,
            },
            SessionEvent::Launched { outcome } => Occurrence::Launched { outcome },
            SessionEvent::PtyUnavailable => Occurrence::PtyUnavailable,
            SessionEvent::SpawnFailed => Occurrence::SpawnFailed,
            SessionEvent::ExecFailed => Occurrence::ExecFailed,
            SessionEvent::AttributesApplied => Occurrence::AttributesApplied,
            SessionEvent::ApplyFailed => Occurrence::ApplyFailed,
            SessionEvent::CaptureOpened => Occurrence::CaptureOpened,
            SessionEvent::CaptureRefused => Occurrence::CaptureRefused,
            SessionEvent::Relayed { event } => Occurrence::Relayed { signal: event@ },
        }
    }
}

/// What the session asks for. Its view is a [`Demand`]. The shell's path
/// and the bytes of a write are lent by the session that asks.
#[derive(Debug, PartialEq, Eq)]
pub enum SessionAction<'a> {
    ProbeWindow,
    CaptureAttributes,
    ReadShellVariable,
    Launch { geometry: WindowGeometry, attributes: TerminalAttributes },
    Exec { shell: &'a str },
    EnterRawMode { attributes: TerminalAttributes },
    OpenCapture,
    Relay { action: RelayAction<'a> },
    Restore { attributes: TerminalAttributes },
    Exit { outcome: Result<(), Failure> },
}

impl<'a> View for SessionAction<'a> {
    type V = Demand;

    open spec fn view(&self) -> Demand {
        match *self {
            SessionAction::ProbeWindow => Demand::ProbeWindow,
            SessionAction::CaptureAttributes => Demand::CaptureAttributes,
            SessionAction::ReadShellVariable => Demand::ReadShellVariable,
            SessionAction::Launch { geometry, attributes } => Demand::Launch {
                geometry,
                attributes,
            },
            SessionAction::Exec { shell } => Demand::Exec { shell: shell@ },
            SessionAction::EnterRawMode { attributes } => Demand::EnterRawMode { attributes },
            SessionAction::OpenCapture => Demand::OpenCapture,
            SessionAction::Relay { action } => Demand::Relay { request: action@ },
            SessionAction::Restore { attributes } => Demand::Restore { attributes },
            SessionAction::Exit { outcome } => Demand::Exit { outcome },
        }
    }
}

/// The session's state. Its view is a [`Phase`].
#[derive(Debug, PartialEq, Eq)]
pub enum Session {
    Probing,
    Capturing { geometry: WindowGeometry },
    Resolving { geometry: WindowGeometry, original: TerminalAttributes },
    Launching { geometry: WindowGeometry, original: TerminalAttributes, shell: String },
    Executing { original: TerminalAttributes, shell: String },
    EnteringRaw { original: TerminalAttributes, raw: TerminalAttributes, handles: SessionHandles },
    OpeningCapture { original: TerminalAttributes, handles: SessionHandles },
    Relaying { original: TerminalAttributes, handles: SessionHandles, relay: Relay },
    Restoring { original: TerminalAttributes, session: Result<(), SessionError> },
    Done { outcome: Result<(), Failure> },
}

impl View for Session {
    type V = Phase;

    open spec fn view(&self) -> Phase {
        match *self {
            Session::Probing => Phase::Probing,
            Session::Capturing { geometry } => Phase::Capturing { geometry },
            Session::Resolving { geometry, original } => Phase::Resolving { geometry, original },
            Session::Launching { geometry, original, shell } => Phase::Launching {
                geometry,
                original,
                shell: shell@,
            },
            Session::Executing { original, shell } => Phase::Executing { original, shell: shell@ },
            Session::EnteringRaw { original, raw, handles } => Phase::EnteringRaw {
                original,
                raw,
                handles,
            },
            Session::OpeningCapture { original, handles } => Phase::OpeningCapture {
                original,
                handles,
            },
            Session::Relaying { original, handles, relay } => Phase::Relaying {
                original,
                handles,
                relay: relay@,
            },
            Session::Restoring { original, session } => Phase::Restoring { original, session },
            Session::Done { outcome } => Phase::Done { outcome },
        }
    }
}

impl Session {
    /// A session that has done nothing yet.
    pub fn new() -> (session: Session)
        ensures
            session@ == Phase::Probing,
    {
        Session::Probing
    }

    /// The action that the session is waiting on.
    pub fn pending(&self) -> (action: SessionAction<'_>)
        ensures
            action@ == self@.demand(),
    {
        match self {
            Session::Probing => SessionAction::ProbeWindow,
            Session::Capturing { .. } => SessionAction::CaptureAttributes,
            Session::Resolving { .. } => SessionAction::ReadShellVariable,
            Session::Launching { geometry, original, .. } => SessionAction::Launch {
                geometry: *geometry,
                attributes: *original,
            },
            Session::Executing { shell, .. } => SessionAction::Exec { shell: shell.as_str() },
            Session::EnteringRaw { raw, .. } => SessionAction::EnterRawMode { attributes: *raw },
            Session::OpeningCapture { .. } => SessionAction::OpenCapture,
            Session::Relaying { relay, .. } => SessionAction::Relay { action: relay.pending() },
            Session::Restoring { original, .. } => SessionAction::Restore { attributes: *original },
            Session::Done { outcome } => SessionAction::Exit { outcome: *outcome },
        }
    }

    /// The handles of the launched shell, while the session has them.
    pub fn handles(&self) -> (handles: Option<SessionHandles>)
        ensures
            handles == self@.handles(),
    {
        match self {
            Session::EnteringRaw { handles, .. } => Some(*handles),
            Session::OpeningCapture { handles, .. } => Some(*handles),
            Session::Relaying { handles, .. } => Some(*handles),
            _ => None,
        }
    }

    /// The session after the outcome `event` of its pending action. An event
    /// that is no outcome of that action leaves the session as it is.
    pub fn step(self, event: SessionEvent) -> (next: Session)
        ensures
            next@ == self@.next(event@),
            self@.well_formed() ==> next@.well_formed(),
    {
        proof {
            if self@.well_formed() {
                well_formedness_is_kept(self@, event@);
            }
        }
        match self {
            Session::Probing => match event {
                SessionEvent::WindowQueried { status, reported } => match get_window(
                    status,
                    reported,
                ) {
                    Ok(geometry) => Session::Capturing { geometry },
                    Err(error) => Session::Done { outcome: conclude(Err(error), Ok(())) },
                },
                _ => Session::Probing,
            },
            Session::Capturing { geometry } => match event {
                SessionEvent::AttributesCaptured { attributes } => Session::Resolving {
                    geometry,
                    original: attributes,
                },
                SessionEvent::CaptureFailed => Session::Done {
                    outcome: conclude(Err(SessionError::DeviceQuery), Ok(())),
                },
                _ => Session::Capturing { geometry },
            },
            Session::Resolving { geometry, original } => match event {
                SessionEvent::ShellVariableRead { variable } => match resolve_shell(variable) {
                    Ok(shell) => Session::Launching { geometry, original, shell },
                    Err(error) => Session::Restoring { original, session: Err(error) },
                },
                _ => Session::Resolving { geometry, original },
            },
            Session::Launching { geometry, original, shell } => match event {
                SessionEvent::Launched { outcome } => match outcome {
                    SessionOutcome::ChildRole => Session::Executing { original, shell },
                    SessionOutcome::ParentRole { handles } => Session::EnteringRaw {
                        original,
                        raw: make_raw(&original),
                        handles,
                    },
                },
                SessionEvent::PtyUnavailable => Session::Restoring {
                    original,
                    session: Err(SessionError::PtyCreation),
                },
                SessionEvent::SpawnFailed => Session::Restoring {
                    original,
                    session: Err(SessionError::ProcessSpawn),
                },
                _ => Session::Launching { geometry, original, shell },
            },
            Session::Executing { original, shell } => match event {
                SessionEvent::ExecFailed => Session::Restoring {
                    original,
                    session: Err(SessionError::ShellExec),
                },
                _ => Session::Executing { original, shell },
            },
            Session::EnteringRaw { original, raw, handles } => match event {
                SessionEvent::AttributesApplied => Session::OpeningCapture { original, handles },
                SessionEvent::ApplyFailed => Session::Restoring {
                    original,
                    session: Err(SessionError::DeviceConfig),
                },
                _ => Session::EnteringRaw { original, raw, handles },
            },
            Session::OpeningCapture { original, handles } => match event {
                SessionEvent::CaptureOpened => Session::Relaying {
                    original,
                    handles,
                    relay: Relay::new(),
                },
                SessionEvent::CaptureRefused => Session::Restoring {
                    original,
                    session: Err(SessionError::FileAccess),
                },
                _ => Session::OpeningCapture { original, handles },
            },
            Session::Relaying { original, handles, relay } => match event {
                SessionEvent::Relayed { event } => match relay.step(event) {
                    Relay::Ended { result } => Session::Restoring { original, session: result },
                    onward => Session::Relaying { original, handles, relay: onward },
                },
                _ => Session::Relaying { original, handles, relay },
            },
            Session::Restoring { original, session } => match event {
                SessionEvent::AttributesApplied => Session::Done {
                    outcome: conclude(session, Ok(())),
                },
                SessionEvent::ApplyFailed => Session::Done {
                    outcome: conclude(session, Err(SessionError::DeviceConfig)),
                },
                _ => Session::Restoring { original, session },
            },
            Session::Done { outcome } => Session::Done { outcome },
        }
    }
}

} // verus!
