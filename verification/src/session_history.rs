//! What a run of a session has done to the terminal, and what holds of
//! every run.
//!
//! A run is the sequence of occurrences that the session was given,
//! starting from [`Phase::Probing`]. Its [`Record`] is read off the demands
//! and occurrences alone.
use crate::attributes::{raw_form, TerminalAttributes};
use crate::fault::{Failure, SessionError};
use crate::relay_history::{every_run_is_balanced, ledger_after, stage_after};
use crate::relay_model::{Signal, Stage};
use crate::session_model::{well_formedness_is_kept, Demand, Occurrence, Phase};
use crate::shell::names_a_program;
use vstd::prelude::*;

verus! {

/// What a run has done to the terminal so far.
pub struct Record {
    /// The snapshot of the terminal's attributes, once it is taken.
    pub snapshot: Option<TerminalAttributes>,
    /// How many snapshots were taken.
    pub snapshots: nat,
    /// The attributes that the session has asked to put in force, in order.
    pub settings: Seq<TerminalAttributes>,
    /// How many of those requests were restorations.
    pub restorations: nat,
    /// The attributes that the terminal is known to have: those of the
    /// snapshot, or those of the last request that was reported applied.
    /// Nothing is known before the snapshot, nor after a request that
    /// failed.
    pub in_force: Option<TerminalAttributes>,
}

impl Record {
    /// The record of a run that has not begun.
    pub open spec fn blank() -> Record {
        Record {
            snapshot: None,
            snapshots: 0,
            settings: Seq::empty(),
            restorations: 0,
            in_force: None,
        }
    }

    /// This record after `phase` was given `occurrence`. An occurrence that
    /// the phase does not accept leaves no trace.
    pub open spec fn observe(self, phase: Phase, occurrence: Occurrence) -> Record {
        if !phase.accepts(occurrence) {
            self
        } else {
            let heard = match (phase.demand(), occurrence) {
                (_, Occurrence::AttributesCaptured { attributes }) => Record {
                    snapshot: Some(attributes),
                    snapshots: self.snapshots + 1,
                    in_force: Some(attributes),
                    ..self
                },
                (Demand::EnterRawMode { attributes }, Occurrence::AttributesApplied) => Record {
                    in_force: Some(attributes),
                    ..self
                },
                (Demand::Restore { attributes }, Occurrence::AttributesApplied) => Record {
                    in_force: Some(attributes),
                    ..self
                },
                (_, Occurrence::ApplyFailed) => Record { in_force: None, ..self },
                _ => self,
            };
            match phase.next(occurrence).demand() {
                Demand::EnterRawMode { attributes } => Record {
                    settings: heard.settings.push(attributes),
                    ..heard
                },
                Demand::Restore { attributes } => Record {
                    settings: heard.settings.push(attributes),
                    restorations: heard.restorations + 1,
                    ..heard
                },
                _ => heard,
            }
        }
    }
}

/// The phase that the session is in after the run `occurrences`.
pub open spec fn phase_after(occurrences: Seq<Occurrence>) -> Phase
    decreases occurrences.len(),
{
    if occurrences.len() == 0 {
        Phase::Probing
    } else {
        phase_after(occurrences.drop_last()).next(occurrences.last())
    }
}

/// The record of the run `occurrences`.
pub open spec fn record_after(occurrences: Seq<Occurrence>) -> Record
    decreases occurrences.len(),
{
    if occurrences.len() == 0 {
        Record::blank()
    } else {
        record_after(occurrences.drop_last()).observe(
            phase_after(occurrences.drop_last()),
            occurrences.last(),
        )
    }
}

/// Whether `outcome` reports that attributes could not be applied, as the
/// failure that decided it or as the one chained behind.
pub open spec fn reports_config_failure(outcome: Result<(), Failure>) -> bool {
    outcome matches Err(failure) && (failure.primary == SessionError::DeviceConfig
        || failure.secondary == Some(SessionError::DeviceConfig))
}

/// Whether `settings` is what a session asks of a terminal whose snapshot
/// is `original`, from its first request to the restoration: at most one
/// request for the raw form, and then one for the snapshot itself.
pub open spec fn closed_with(settings: Seq<TerminalAttributes>, original: TerminalAttributes) -> bool {
    settings =~= seq![original] || settings =~= seq![raw_form(original), original]
}

/// Whether `record` is that of a session which has taken its snapshot and
/// has asked nothing of the terminal yet.
pub open spec fn untouched(record: Record, original: TerminalAttributes) -> bool {
    &&& record.snapshot == Some(original)
    &&& record.snapshots == 1
    &&& record.in_force == Some(original)
    &&& record.settings =~= Seq::<TerminalAttributes>::empty()
    &&& record.restorations == 0
}

/// Whether `record` is that of a session which has put the terminal into
/// raw mode and has not asked for anything since.
pub open spec fn raw_mode_entered(record: Record, original: TerminalAttributes) -> bool {
    &&& record.snapshot == Some(original)
    &&& record.snapshots == 1
    &&& record.in_force == Some(raw_form(original))
    &&& record.settings =~= seq![raw_form(original)]
    &&& record.restorations == 0
}

/// How the record of a run hangs together with the phase that the run has
/// reached.
pub open spec fn coherent(phase: Phase, record: Record) -> bool {
    &&& phase.well_formed()
    &&& match phase {
        Phase::Probing | Phase::Capturing { .. } => record == Record::blank(),
        Phase::Resolving { original, .. }
        | Phase::Launching { original, .. }
        | Phase::Executing { original, .. } => untouched(record, original),
        Phase::EnteringRaw { original, raw, .. } => {
            &&& record.snapshot == Some(original)
            &&& record.snapshots == 1
            &&& record.in_force == Some(original)
            &&& record.settings =~= seq![raw]
            &&& record.restorations == 0
        },
        Phase::OpeningCapture { original, .. } | Phase::Relaying { original, .. } => {
            raw_mode_entered(record, original)
        },
        Phase::Restoring { original, .. } => {
            &&& record.snapshot == Some(original)
            &&& record.snapshots == 1
            &&& closed_with(record.settings, original)
            &&& record.restorations == 1
        },
        Phase::Done { outcome } => match record.snapshot {
            None => {
                &&& record == Record::blank()
                &&& outcome is Err
            },
            Some(original) => {
                &&& record.snapshots == 1
                &&& closed_with(record.settings, original)
                &&& record.restorations == 1
                &&& record.in_force == Some(original) || (record.in_force is None
                    && reports_config_failure(outcome))
                &&& outcome is Ok ==> record.in_force == Some(original)
            },
        },
    }
}

/// One occurrence keeps phase and record coherent.
proof fn coherence_is_kept(phase: Phase, record: Record, occurrence: Occurrence)
    requires
        coherent(phase, record),
    ensures
        coherent(phase.next(occurrence), record.observe(phase, occurrence)),
{
    well_formedness_is_kept(phase, occurrence);
}

/// Phase and record are coherent after every run.
pub proof fn every_run_is_coherent(occurrences: Seq<Occurrence>)
    ensures
        coherent(phase_after(occurrences), record_after(occurrences)),
    decreases occurrences.len(),
{
    if occurrences.len() > 0 {
        every_run_is_coherent(occurrences.drop_last());
        coherence_is_kept(
            phase_after(occurrences.drop_last()),
            record_after(occurrences.drop_last()),
            occurrences.last(),
        );
    }
}

/// The signals that the run `occurrences` has passed on to the relay.
pub open spec fn relayed(occurrences: Seq<Occurrence>) -> Seq<Signal>
    decreases occurrences.len(),
{
    if occurrences.len() == 0 {
        Seq::empty()
    } else {
        let before = relayed(occurrences.drop_last());
        match (phase_after(occurrences.drop_last()), occurrences.last()) {
            (Phase::Relaying { .. }, Occurrence::Relayed { signal }) => before.push(signal),
            _ => before,
        }
    }
}

/// How the phase of a session hangs together with the run of its relay.
pub open spec fn in_step(phase: Phase, signals: Seq<Signal>) -> bool {
    match phase {
        Phase::Relaying { relay, .. } => relay == stage_after(signals),
        Phase::Restoring { session, .. } => (signals.len() == 0 && session is Err) || stage_after(
            signals,
        ) == (Stage::Ended { result: session }),
        Phase::Done { outcome } => outcome is Ok ==> stage_after(signals) == (Stage::Ended {
            result: Ok(()),
        }),
        _ => signals.len() == 0,
    }
}

/// The relay inside a session is in step with the signals passed on to it,
/// after every run.
proof fn every_run_is_in_step(occurrences: Seq<Occurrence>)
    ensures
        in_step(phase_after(occurrences), relayed(occurrences)),
    decreases occurrences.len(),
{
    if occurrences.len() > 0 {
        let earlier = occurrences.drop_last();
        every_run_is_in_step(earlier);
        match (phase_after(earlier), occurrences.last()) {
            (Phase::Relaying { .. }, Occurrence::Relayed { signal }) => {
                assert(relayed(earlier).push(signal).drop_last() =~= relayed(earlier));
            },
            (Phase::Restoring { session, .. }, _) => {
                if let Ok(unit) = session {
                    assert(unit == ());
                }
            },
            _ => {},
        }
    }
}

/// The terminal is put back exactly once, and to its snapshot.
///
/// No run takes more than one snapshot or asks for more than one
/// restoration, and none asks for a restoration without a snapshot. A run
/// that has come to its end without a snapshot has asked nothing of the
/// terminal. A run that has come to its end with a snapshot has asked for
/// the raw form of the snapshot at most once, and then, as the last thing
/// and exactly once, for the snapshot itself; and either the terminal is
/// known to have the attributes of the snapshot again, or the outcome
/// reports that attributes could not be applied. This holds of every way to
/// the end, the failures included.
pub proof fn terminal_is_restored(occurrences: Seq<Occurrence>)
    ensures
        record_after(occurrences).snapshots <= 1,
        record_after(occurrences).restorations <= record_after(occurrences).snapshots,
        record_after(occurrences).snapshot is Some <==> record_after(occurrences).snapshots == 1,
        phase_after(occurrences) matches Phase::Done { outcome } ==> match record_after(
            occurrences,
        ).snapshot {
            None => record_after(occurrences).settings.len() == 0 && outcome is Err,
            Some(original) => {
                &&& closed_with(record_after(occurrences).settings, original)
                &&& record_after(occurrences).restorations == 1
                &&& record_after(occurrences).in_force == Some(original)
                    || reports_config_failure(outcome)
                &&& outcome is Ok ==> record_after(occurrences).in_force == Some(original)
            },
        },
{
    every_run_is_coherent(occurrences);
}

/// What a session asks for is what its run has earned.
///
/// Raw mode is asked for with the raw form of the snapshot and with nothing
/// else; a launch and a restoration are asked for with the snapshot itself;
/// the shell to execute can name a program; and the relay is never passed on
/// once it has ended, because the restoration takes its place.
pub proof fn session_asks_for_the_expected(occurrences: Seq<Occurrence>)
    ensures
        match phase_after(occurrences).demand() {
            Demand::EnterRawMode { attributes } => record_after(occurrences).snapshot matches Some(
                original,
            ) && attributes == raw_form(original),
            Demand::Restore { attributes } => record_after(occurrences).snapshot == Some(
                attributes,
            ),
            Demand::Launch { attributes, .. } => record_after(occurrences).snapshot == Some(
                attributes,
            ),
            Demand::Exec { shell } => names_a_program(shell),
            Demand::Relay { request } => !(request is Finish),
            _ => true,
        },
{
    every_run_is_coherent(occurrences);
}

/// A read that fails during the relay, on the keyboard or on the master,
/// closes the session in success: the next thing asked for is the
/// restoration of the snapshot, and once that is applied the session leaves
/// without a failure.
pub proof fn read_failure_closes_session(phase: Phase)
    requires
        phase matches Phase::Relaying { relay, .. } && relay.request() is Read,
    ensures
        phase.next(Occurrence::Relayed { signal: Signal::ReadFailed }).demand() == (Demand::Restore {
            attributes: phase->Relaying_original,
        }),
        phase.next(Occurrence::Relayed { signal: Signal::ReadFailed }).next(
            Occurrence::AttributesApplied,
        ) == (Phase::Done { outcome: Ok(()) }),
{
}

/// A session that leaves in success has lost nothing.
///
/// Its relay has ended by a read that failed. By then the master had taken
/// everything that was typed, the standard output and the capture file had
/// each taken everything that the shell printed, and the terminal has the
/// attributes of the snapshot again.
pub proof fn successful_session_lost_nothing(occurrences: Seq<Occurrence>)
    requires
        phase_after(occurrences) == (Phase::Done { outcome: Ok(()) }),
    ensures
        stage_after(relayed(occurrences)) == (Stage::Ended { result: Ok(()) }),
        ledger_after(relayed(occurrences)).taken.master == ledger_after(
            relayed(occurrences),
        ).typed,
        ledger_after(relayed(occurrences)).taken.stdout == ledger_after(
            relayed(occurrences),
        ).produced,
        ledger_after(relayed(occurrences)).taken.capture == ledger_after(
            relayed(occurrences),
        ).produced,
        record_after(occurrences).snapshot is Some,
        record_after(occurrences).in_force == record_after(occurrences).snapshot,
{
    every_run_is_coherent(occurrences);
    every_run_is_in_step(occurrences);
    every_run_is_balanced(relayed(occurrences));
}

} // verus!
