//! What a run of the relay has moved, and what holds of every run.
//!
//! A run is the sequence of signals that the relay was given, starting from
//! [`Stage::Waiting`]. Its [`Ledger`] is read off the requests and signals
//! alone: the bytes that reads returned, the bytes that writes were asked to
//! carry, and the bytes of the writes that were reported complete.
use crate::fault::{SessionError, Sink};
use crate::relay_model::{Request, Signal, Source, Stage};
use vstd::prelude::*;

verus! {

/// One byte stream for each sink.
pub struct Flow {
    pub master: Seq<u8>,
    pub stdout: Seq<u8>,
    pub capture: Seq<u8>,
}

impl Flow {
    /// The empty flow.
    pub open spec fn none() -> Flow {
        Flow { master: Seq::empty(), stdout: Seq::empty(), capture: Seq::empty() }
    }

    /// This flow with `bytes` added at the end of the stream of `sink`.
    pub open spec fn plus(self, sink: Sink, bytes: Seq<u8>) -> Flow {
        match sink {
            Sink::Master => Flow { master: self.master + bytes, ..self },
            Sink::Stdout => Flow { stdout: self.stdout + bytes, ..self },
            Sink::Capture => Flow { capture: self.capture + bytes, ..self },
        }
    }
}

/// The bytes that a run has moved so far.
pub struct Ledger {
    /// Everything that reads from the keyboard returned, in order.
    pub typed: Seq<u8>,
    /// Everything that reads from the master returned, in order.
    pub produced: Seq<u8>,
    /// Everything that write requests carried, by sink.
    pub offered: Flow,
    /// Everything that writes reported as complete carried, by sink.
    pub taken: Flow,
}

impl Ledger {
    /// The ledger of a run that has not begun.
    pub open spec fn blank() -> Ledger {
        Ledger {
            typed: Seq::empty(),
            produced: Seq::empty(),
            offered: Flow::none(),
            taken: Flow::none(),
        }
    }

    /// This ledger after `stage` was given `signal`. A signal that the stage
    /// does not accept moves nothing. An accepted one may report bytes read
    /// or a write completed, and the request that follows it may offer bytes
    /// to a sink.
    pub open spec fn observe(self, stage: Stage, signal: Signal) -> Ledger {
        if !stage.accepts(signal) {
            self
        } else {
            let heard = match (stage.request(), signal) {
                (Request::Read { source, .. }, Signal::ReadCompleted { bytes }) => match source {
                    Source::Keyboard => Ledger { typed: self.typed + bytes, ..self },
                    Source::Master => Ledger { produced: self.produced + bytes, ..self },
                },
                (Request::Write { sink, bytes }, Signal::WriteCompleted { count }) => if count
                    == bytes.len() {
                    Ledger { taken: self.taken.plus(sink, bytes), ..self }
                } else {
                    self
                },
                _ => self,
            };
            match stage.next(signal).request() {
                Request::Write { sink, bytes } => Ledger {
                    offered: heard.offered.plus(sink, bytes),
                    ..heard
                },
                _ => heard,
            }
        }
    }
}

/// The stage that the relay is in after the run `signals`.
pub open spec fn stage_after(signals: Seq<Signal>) -> Stage
    decreases signals.len(),
{
    if signals.len() == 0 {
        Stage::Waiting
    } else {
        stage_after(signals.drop_last()).next(signals.last())
    }
}

/// The ledger of the run `signals`.
pub open spec fn ledger_after(signals: Seq<Signal>) -> Ledger
    decreases signals.len(),
{
    if signals.len() == 0 {
        Ledger::blank()
    } else {
        ledger_after(signals.drop_last()).observe(
            stage_after(signals.drop_last()),
            signals.last(),
        )
    }
}

/// The bytes that the stage still has to get a sink to take before it may
/// read again: the chunk of a write that is outstanding, and nothing
/// otherwise.
pub open spec fn owed(stage: Stage, sink: Sink) -> Seq<u8> {
    match stage.request() {
        Request::Write { sink: target, bytes } => if target == sink {
            bytes
        } else {
            Seq::empty()
        },
        _ => Seq::empty(),
    }
}

/// Whether the relay has stopped because of a failure.
pub open spec fn broken(stage: Stage) -> bool {
    stage matches Stage::Ended { result } && result is Err
}

/// How the ledger of a run hangs together with the stage that the run has
/// reached.
pub open spec fn balanced(stage: Stage, ledger: Ledger) -> bool {
    &&& stage.well_formed()
    &&& ledger.offered.master =~= ledger.typed
    &&& ledger.offered.stdout =~= ledger.produced
    &&& ledger.offered.capture =~= ledger.taken.stdout
    &&& ledger.taken.master.is_prefix_of(ledger.offered.master)
    &&& ledger.taken.stdout.is_prefix_of(ledger.offered.stdout)
    &&& ledger.taken.capture.is_prefix_of(ledger.offered.capture)
    &&& !broken(stage) ==> {
        &&& ledger.taken.master + owed(stage, Sink::Master) =~= ledger.offered.master
        &&& ledger.taken.stdout + owed(stage, Sink::Stdout) =~= ledger.offered.stdout
        &&& ledger.taken.capture + owed(stage, Sink::Capture) =~= ledger.offered.capture
    }
}

/// One signal keeps stage and ledger balanced.
proof fn balance_is_kept(stage: Stage, ledger: Ledger, signal: Signal)
    requires
        balanced(stage, ledger),
    ensures
        balanced(stage.next(signal), ledger.observe(stage, signal)),
{
}

/// Stage and ledger are balanced after every run.
pub proof fn every_run_is_balanced(signals: Seq<Signal>)
    ensures
        balanced(stage_after(signals), ledger_after(signals)),
    decreases signals.len(),
{
    if signals.len() > 0 {
        every_run_is_balanced(signals.drop_last());
        balance_is_kept(
            stage_after(signals.drop_last()),
            ledger_after(signals.drop_last()),
            signals.last(),
        );
    }
}

/// Whatever is typed reaches the master unchanged.
///
/// After every run, the bytes that were offered to the master are the
/// bytes that were read from the keyboard, byte for byte and in order.
/// The master has taken a prefix of them; and unless the relay has broken,
/// all that it has not taken yet is the one chunk whose write is still
/// outstanding.
pub proof fn keyboard_input_reaches_master(signals: Seq<Signal>)
    ensures
        ledger_after(signals).offered.master == ledger_after(signals).typed,
        ledger_after(signals).taken.master.is_prefix_of(ledger_after(signals).typed),
        !broken(stage_after(signals)) ==> ledger_after(signals).taken.master + owed(
            stage_after(signals),
            Sink::Master,
        ) == ledger_after(signals).typed,
{
    every_run_is_balanced(signals);
}

/// Whatever the shell prints reaches the standard output and the capture
/// file as one and the same copy.
///
/// After every run, the bytes that were offered to the standard output are
/// the bytes that were read from the master, and the bytes that were
/// offered to the capture file are the bytes that the standard output has
/// taken, in both cases byte for byte and in order. Each sink has taken a
/// prefix of what it was offered. Whenever the relay is neither broken nor
/// in the middle of writing shell output, both sinks have taken everything
/// that the shell has printed.
pub proof fn shell_output_reaches_both_sinks(signals: Seq<Signal>)
    ensures
        ledger_after(signals).offered.stdout == ledger_after(signals).produced,
        ledger_after(signals).offered.capture == ledger_after(signals).taken.stdout,
        ledger_after(signals).taken.stdout.is_prefix_of(ledger_after(signals).produced),
        ledger_after(signals).taken.capture.is_prefix_of(ledger_after(signals).taken.stdout),
        !broken(stage_after(signals)) && !(stage_after(signals) is WritingStdout) && !(stage_after(
            signals,
        ) is WritingCapture) ==> {
            &&& ledger_after(signals).taken.stdout == ledger_after(signals).produced
            &&& ledger_after(signals).taken.capture == ledger_after(signals).produced
        },
{
    every_run_is_balanced(signals);
}

/// No run leaves more bytes in flight than one read can return.
pub proof fn chunks_fit_the_buffer(signals: Seq<Signal>)
    ensures
        stage_after(signals).well_formed(),
{
    every_run_is_balanced(signals);
}

/// A write that takes another number of bytes than were read is fatal, on
/// every channel: the relay ends at once with a partial-transfer failure
/// that names the sink and both counts.
pub proof fn short_write_is_fatal(stage: Stage, count: usize)
    requires
        stage.request() is Write,
        count != stage.request()->bytes.len(),
    ensures
        stage.next(Signal::WriteCompleted { count }) == (Stage::Ended {
            result: Err(
                SessionError::PartialTransfer {
                    sink: stage.request()->sink,
                    read: stage.request()->bytes.len() as usize,
                    written: count,
                },
            ),
        }),
{
}

/// A write that takes exactly the bytes that were read never ends the
/// relay.
pub proof fn full_write_goes_on(stage: Stage)
    requires
        stage.request() is Write,
        stage.well_formed(),
    ensures
        !(stage.next(Signal::WriteCompleted { count: stage.request()->bytes.len() as usize })
            is Ended),
{
}

/// A read that fails, on the keyboard or on the master, ends the relay in
/// success: the other party is gone, and that is how a session ends.
pub proof fn read_failure_ends_in_success(stage: Stage)
    requires
        stage.request() is Read,
    ensures
        stage.next(Signal::ReadFailed) == (Stage::Ended { result: Ok(()) }),
{
}

/// The relay ends for one of four reasons and for no other: in success,
/// because a read failed; in failure, because the wait failed, because a
/// write failed outright, or because a write took another number of bytes
/// than were read. The failure names the sink and the counts of the write
/// that caused it.
pub proof fn relay_ends_for_a_reason(stage: Stage, signal: Signal)
    requires
        !(stage is Ended),
        stage.next(signal) is Ended,
    ensures
        match stage.next(signal)->result {
            Ok(_) => stage.request() is Read && signal is ReadFailed,
            Err(SessionError::ReadinessWait) => stage.request() is Wait && signal is WaitFailed,
            Err(SessionError::WriteFailed { sink }) => {
                &&& stage.request() matches Request::Write { sink: target, .. }
                &&& target == sink
                &&& signal is WriteFailed
            },
            Err(SessionError::PartialTransfer { sink, read, written }) => {
                &&& stage.request() matches Request::Write { sink: target, bytes }
                &&& target == sink
                &&& signal == (Signal::WriteCompleted { count: written })
                &&& written != bytes.len()
                &&& read == bytes.len() as usize
            },
            Err(_) => false,
        },
{
}

} // verus!
