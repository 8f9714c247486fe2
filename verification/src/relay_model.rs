//! The relay as a mathematical state machine.
//!
//! The relay moves bytes between three endpoints. It waits until the
//! keyboard or the master side of the pseudo-terminal has input, reads from
//! whichever is ready, and writes what it read onward: keyboard input to the
//! master, shell output to the standard output and then to the capture file.
//! A read that fails ends the relay in success, because it means that the
//! other party is gone. A write that fails, or that takes fewer bytes than
//! were read, ends it in failure.
//!
//! The machine performs no input or output itself. In each [`Stage`] it has
//! one [`Request`] outstanding, and it moves on when it is told the outcome
//! as a [`Signal`].
use crate::fault::{SessionError, Sink};
use vstd::prelude::*;

verus! {

/// The number of bytes that one read may return at most.
pub const BUFFER_CAPACITY: usize = 256;

/// An endpoint that the relay reads from.
#[derive(Clone, Copy, Debug, PartialEq, Eq, Structural)]
pub enum Source {
    /// The keyboard: the standard input of the recorder.
    Keyboard,
    /// The master side of the pseudo-terminal: what the shell printed.
    Master,
}

/// The outcome of a request, as the caller reports it back.
pub enum Signal {
    /// The wait is over; the flags say which sources have input.
    Ready { keyboard: bool, master: bool },
    /// The wait itself failed.
    WaitFailed,
    /// A read returned these bytes.
    ReadCompleted { bytes: Seq<u8> },
    /// A read failed.
    ReadFailed,
    /// A write took `count` bytes.
    WriteCompleted { count: usize },
    /// A write failed outright.
    WriteFailed,
}

/// What the relay asks its caller to do next.
pub enum Request {
    /// Block, without a timeout, until the keyboard or the master has input.
    Wait,
    /// Read at most `capacity` bytes from `source`.
    Read { source: Source, capacity: usize },
    /// Write `bytes` to `sink`, once.
    Write { sink: Sink, bytes: Seq<u8> },
    /// Stop: the relay is over, with this result.
    Finish { result: Result<(), SessionError> },
}

/// Where the relay stands.
pub enum Stage {
    /// Between two rounds: nothing is in flight.
    Waiting,
    /// A read from the keyboard is outstanding. `master_ready` remembers
    /// whether the same wait found input on the master too.
    ReadingKeyboard { master_ready: bool },
    /// Keyboard input is being written to the master.
    WritingMaster { chunk: Seq<u8>, master_ready: bool },
    /// A read from the master is outstanding.
    ReadingMaster,
    /// Shell output is being written to the standard output.
    WritingStdout { chunk: Seq<u8> },
    /// The same shell output is being written to the capture file.
    WritingCapture { chunk: Seq<u8> },
    /// The relay is over.
    Ended { result: Result<(), SessionError> },
}

/// How a write went.
#[derive(Clone, Copy, Debug, PartialEq, Eq, Structural)]
pub enum Verdict {
    /// Every byte was taken.
    Complete,
    /// The write broke the relay.
    Broken { error: SessionError },
    /// The signal is no outcome of a write.
    Unrelated,
}

/// The verdict on a write of `requested` bytes to `sink`, given its
/// outcome. A write is complete only when it took exactly the bytes that
/// were read: the relay neither buffers nor retries, so any other count is
/// fatal, and so is a write that failed outright.
pub open spec fn write_verdict(sink: Sink, requested: nat, signal: Signal) -> Verdict {
    match signal {
        Signal::WriteCompleted { count } => if count == requested {
            Verdict::Complete
        } else {
            Verdict::Broken {
                error: SessionError::PartialTransfer {
                    sink,
                    read: requested as usize,
                    written: count,
                },
            }
        },
        Signal::WriteFailed => Verdict::Broken { error: SessionError::WriteFailed { sink } },
        _ => Verdict::Unrelated,
    }
}

impl Stage {
    /// The request that is outstanding in this stage.
    pub open spec fn request(self) -> Request {
        match self {
            Stage::Waiting => Request::Wait,
            Stage::ReadingKeyboard { .. } => Request::Read {
                source: Source::Keyboard,
                capacity: BUFFER_CAPACITY,
            },
            Stage::WritingMaster { chunk, .. } => Request::Write {
                sink: Sink::Master,
                bytes: chunk,
            },
            Stage::ReadingMaster => Request::Read {
                source: Source::Master,
                capacity: BUFFER_CAPACITY,
            },
            Stage::WritingStdout { chunk } => Request::Write { sink: Sink::Stdout, bytes: chunk },
            Stage::WritingCapture { chunk } => Request::Write { sink: Sink::Capture, bytes: chunk },
            Stage::Ended { result } => Request::Finish { result },
        }
    }

    /// Whether `signal` is an outcome of the outstanding request. A read
    /// that returns more than was asked for is no such outcome.
    pub open spec fn accepts(self, signal: Signal) -> bool {
        match self.request() {
            Request::Wait => signal is Ready || signal is WaitFailed,
            Request::Read { capacity, .. } => match signal {
                Signal::ReadCompleted { bytes } => bytes.len() <= capacity,
                Signal::ReadFailed => true,
                _ => false,
            },
            Request::Write { .. } => signal is WriteCompleted || signal is WriteFailed,
            Request::Finish { .. } => false,
        }
    }

    /// The stage after `signal`. A signal that the stage does not accept
    /// changes nothing.
    pub open spec fn next(self, signal: Signal) -> Stage {
        match self {
            Stage::Waiting => match signal {
                Signal::Ready { keyboard, master } => if keyboard {
                    Stage::ReadingKeyboard { master_ready: master }
                } else if master {
                    Stage::ReadingMaster
                } else {
                    Stage::Waiting
                },
                Signal::WaitFailed => Stage::Ended { result: Err(SessionError::ReadinessWait) },
                _ => self,
            },
            Stage::ReadingKeyboard { master_ready } => match signal {
                Signal::ReadCompleted { bytes } => if bytes.len() <= BUFFER_CAPACITY {
                    Stage::WritingMaster { chunk: bytes, master_ready }
                } else {
                    self
                },
                Signal::ReadFailed => Stage::Ended { result: Ok(()) },
                _ => self,
            },
            Stage::WritingMaster { chunk, master_ready } => match write_verdict(
                Sink::Master,
                chunk.len(),
                signal,
            ) {
                Verdict::Complete => if master_ready {
                    Stage::ReadingMaster
                } else {
                    Stage::Waiting
                },
                Verdict::Broken { error } => Stage::Ended { result: Err(error) },
                Verdict::Unrelated => self,
            },
            Stage::ReadingMaster => match signal {
                Signal::ReadCompleted { bytes } => if bytes.len() <= BUFFER_CAPACITY {
                    Stage::WritingStdout { chunk: bytes }
                } else {
                    self
                },
                Signal::ReadFailed => Stage::Ended { result: Ok(()) },
                _ => self,
            },
            Stage::WritingStdout { chunk } => match write_verdict(
                Sink::Stdout,
                chunk.len(),
                signal,
            ) {
                Verdict::Complete => Stage::WritingCapture { chunk },
                Verdict::Broken { error } => Stage::Ended { result: Err(error) },
                Verdict::Unrelated => self,
            },
            Stage::WritingCapture { chunk } => match write_verdict(
                Sink::Capture,
                chunk.len(),
                signal,
            ) {
                Verdict::Complete => Stage::Waiting,
                Verdict::Broken { error } => Stage::Ended { result: Err(error) },
                Verdict::Unrelated => self,
            },
            Stage::Ended { .. } => self,
        }
    }

    /// No more bytes are in flight than one read can return.
    pub open spec fn well_formed(self) -> bool {
        match self {
            Stage::WritingMaster { chunk, .. } => chunk.len() <= BUFFER_CAPACITY,
            Stage::WritingStdout { chunk } => chunk.len() <= BUFFER_CAPACITY,
            Stage::WritingCapture { chunk } => chunk.len() <= BUFFER_CAPACITY,
            _ => true,
        }
    }
}

} // verus!
