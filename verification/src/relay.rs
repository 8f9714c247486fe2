//! The relay in executable form.
//!
//! A [`Relay`] is driven from outside: ask it for the [`RelayAction`] that
//! is pending, perform it, and report the outcome as a [`RelayEvent`] to
//! [`Relay::step`]. Every answer is the one that the model in
//! [`crate::relay_model`] gives.
use crate::fault::{SessionError, Sink};
use crate::relay_model::{
    write_verdict, Request, Signal, Source, Stage, Verdict, BUFFER_CAPACITY,
};
use vstd::prelude::*;

verus! {

/// The outcome of an action. Its view is a [`Signal`].
#[derive(Debug, PartialEq, Eq)]
pub enum RelayEvent {
    Ready { keyboard: bool, master: bool },
    WaitFailed,
    ReadCompleted { bytes: Vec<u8> },
    ReadFailed,
    WriteCompleted { count: usize },
    WriteFailed,
}

impl View for RelayEvent {
    type V = Signal;

    open spec fn view(&self) -> Signal {
        match *self {
            RelayEvent::Ready { keyboard, master } => Signal::Ready { keyboard, master },
            RelayEvent::WaitFailed => Signal::WaitFailed,
            RelayEvent::ReadCompleted { bytes } => Signal::ReadCompleted { bytes: bytes@ },
            RelayEvent::ReadFailed => Signal::ReadFailed,
            RelayEvent::WriteCompleted { count } => Signal::WriteCompleted { count },
            RelayEvent::WriteFailed => Signal::WriteFailed,
        }
    }
}

/// What the relay asks for. Its view is a [`Request`]. The bytes of a write
/// are lent by the relay that asks for it.
#[derive(Debug, PartialEq, Eq)]
pub enum RelayAction<'a> {
    Wait,
    Read { source: Source, capacity: usize },
    Write { sink: Sink, bytes: &'a [u8] },
    Finish { result: Result<(), SessionError> },
}

impl<'a> View for RelayAction<'a> {
    type V = Request;

    open spec fn view(&self) -> Request {
        match *self {
            RelayAction::Wait => Request::Wait,
            RelayAction::Read { source, capacity } => Request::Read { source, capacity },
            RelayAction::Write { sink, bytes } => Request::Write { sink, bytes: bytes@ },
            RelayAction::Finish { result } => Request::Finish { result },
        }
    }
}

/// The relay's state. Its view is a [`Stage`].
#[derive(Debug, PartialEq, Eq)]
pub enum Relay {
    Waiting,
    ReadingKeyboard { master_ready: bool },
    WritingMaster { chunk: Vec<u8>, master_ready: bool },
    ReadingMaster,
    WritingStdout { chunk: Vec<u8> },
    WritingCapture { chunk: Vec<u8> },
    Ended { result: Result<(), SessionError> },
}

impl View for Relay {
    type V = Stage;

    open spec fn view(&self) -> Stage {
        match *self {
            Relay::Waiting => Stage::Waiting,
            Relay::ReadingKeyboard { master_ready } => Stage::ReadingKeyboard { master_ready },
            Relay::WritingMaster { chunk, master_ready } => Stage::WritingMaster {
                chunk: chunk@,
                master_ready,
            },
            Relay::ReadingMaster => Stage::ReadingMaster,
            Relay::WritingStdout { chunk } => Stage::WritingStdout { chunk: chunk@ },
            Relay::WritingCapture { chunk } => Stage::WritingCapture { chunk: chunk@ },
            Relay::Ended { result } => Stage::Ended { result },
        }
    }
}

/// Judges the outcome of a write of `requested` bytes to `sink`.
pub fn judge_write(sink: Sink, requested: usize, event: &RelayEvent) -> (verdict: Verdict)
    ensures
        verdict == write_verdict(sink, requested as nat, event@),
{
    match event {
        RelayEvent::WriteCompleted { count } => if *count == requested {
            Verdict::Complete
        } else {
            Verdict::Broken {
                error: SessionError::PartialTransfer { sink, read: requested, written: *count },
            }
        },
        RelayEvent::WriteFailed => Verdict::Broken { error: SessionError::WriteFailed { sink } },
        _ => Verdict::Unrelated,
    }
}

impl Relay {
    /// A relay at the start of its first round.
    pub fn new() -> (relay: Relay)
        ensures
            relay@ == Stage::Waiting,
    {
        Relay::Waiting
    }

    /// The action that the relay is waiting on.
    pub fn pending(&self) -> (action: RelayAction<'_>)
        ensures
            action@ == self@.request(),
    {
        match self {
            Relay::Waiting => RelayAction::Wait,
            Relay::ReadingKeyboard { .. } => RelayAction::Read {
                source: Source::Keyboard,
                capacity: BUFFER_CAPACITY,
            },
            Relay::WritingMaster { chunk, .. } => RelayAction::Write {
                sink: Sink::Master,
                bytes: chunk.as_slice(),
            },
            Relay::ReadingMaster => RelayAction::Read {
                source: Source::Master,
                capacity: BUFFER_CAPACITY,
            },
            Relay::WritingStdout { chunk } => RelayAction::Write {
                sink: Sink::Stdout,
                bytes: chunk.as_slice(),
            },
            Relay::WritingCapture { chunk } => RelayAction::Write {
                sink: Sink::Capture,
                bytes: chunk.as_slice(),
            },
            Relay::Ended { result } => RelayAction::Finish { result: *result },
        }
    }

    /// The relay after the outcome `event` of its pending action. An event
    /// that is no outcome of that action leaves the relay as it is.
    pub fn step(self, event: RelayEvent) -> (next: Relay)
        ensures
            next@ == self@.next(event@),
            self@.well_formed() ==> next@.well_formed(),
    {
        match self {
            Relay::Waiting => match event {
                RelayEvent::Ready { keyboard, master } => if keyboard {
                    Relay::ReadingKeyboard { master_ready: master }
                } else if master {
                    Relay::ReadingMaster
                } else {
                    Relay::Waiting
                },
                RelayEvent::WaitFailed => Relay::Ended { result: Err(SessionError::ReadinessWait) },
                _ => Relay::Waiting,
            },
            Relay::ReadingKeyboard { master_ready } => match event {
                RelayEvent::ReadCompleted { bytes } => if bytes.len() <= BUFFER_CAPACITY {
                    Relay::WritingMaster { chunk: bytes, master_ready }
                } else {
                    Relay::ReadingKeyboard { master_ready }
                },
                RelayEvent::ReadFailed => Relay::Ended { result: Ok(()) },
                _ => Relay::ReadingKeyboard { master_ready },
            },
            Relay::WritingMaster { chunk, master_ready } => match judge_write(
                Sink::Master,
                chunk.len(),
                &event,
            ) {
                Verdict::Complete => if master_ready {
                    Relay::ReadingMaster
                } else {
                    Relay::Waiting
                },
                Verdict::Broken { error } => Relay::Ended { result: Err(error) },
                Verdict::Unrelated => Relay::WritingMaster { chunk, master_ready },
            },
            Relay::ReadingMaster => match event {
                RelayEvent::ReadCompleted { bytes } => if bytes.len() <= BUFFER_CAPACITY {
                    Relay::WritingStdout { chunk: bytes }
                } else {
                    Relay::ReadingMaster
                },
                RelayEvent::ReadFailed => Relay::Ended { result: Ok(()) },
                _ => Relay::ReadingMaster,
            },
            Relay::WritingStdout { chunk } => match judge_write(
                Sink::Stdout,
                chunk.len(),
                &event,
            ) {
                Verdict::Complete => Relay::WritingCapture { chunk },
                Verdict::Broken { error } => Relay::Ended { result: Err(error) },
                Verdict::Unrelated => Relay::WritingStdout { chunk },
            },
            Relay::WritingCapture { chunk } => match judge_write(
                Sink::Capture,
                chunk.len(),
                &event,
            ) {
                Verdict::Complete => Relay::Waiting,
                Verdict::Broken { error } => Relay::Ended { result: Err(error) },
                Verdict::Unrelated => Relay::WritingCapture { chunk },
            },
            Relay::Ended { result } => Relay::Ended { result },
        }
    }
}

} // verus!
