//! The fault recovery handler: the terminal state machine entered on an
//! unrecoverable fault, and the boot-time classification that shares its
//! logic.
//!
//! The lifecycle marker read at fault time classifies the fault. Before the
//! watchdog is demonstrably running (marker absent or just-started) there is
//! no guaranteed way to force recovery, so the handler halts for external
//! intervention rather than risk a silent reboot storm. Any later marker is
//! recoverable: stamp the ledger for a normal re-entry, signal the fault on
//! the indicator for a fixed duration, then perform one deterministic full
//! reset.

use crate::indicator::StatusLedMode;
use crate::lifecycle::{checksum_of, decoded, Lifecycle};
use vstd::prelude::*;

verus! {

/// Whether a fault with this lifecycle marker must halt: only a marker that
/// proves the watchdog was running permits a software-driven recovery.
pub open spec fn halts(marker: Option<u32>) -> bool {
    marker is None || marker == Some(Lifecycle::WATCHDOG_STARTED)
}

/// The two terminal outcomes of a fault.
#[derive(Clone, Copy, Debug, PartialEq, Eq, Structural)]
pub enum FaultOutcome {
    /// Trap and never return; an external supervisor must intervene.
    Halt,
    /// Signal, then perform one deterministic full reset.
    Recover,
}

/// Classifies a fault by the lifecycle marker read at fault time: early
/// faults (no marker, or the watchdog only just started) halt, later faults
/// recover.
pub fn classify_fault(marker: Option<u32>) -> (r: FaultOutcome)
    ensures
        r == FaultOutcome::Halt <==> halts(marker),
        r == FaultOutcome::Recover <==> !halts(marker),
{
    match marker {
        None => FaultOutcome::Halt,
        Some(m) => {
            if m == Lifecycle::WATCHDOG_STARTED {
                FaultOutcome::Halt
            } else {
                FaultOutcome::Recover
            }
        },
    }
}

/// One step of the graceful recovery path, performed by the caller in the
/// stated order.
#[derive(Clone, Copy, Debug, PartialEq, Eq, Structural)]
pub enum RecoveryStep {
    /// Stamp the ledger so the next boot re-enters the normal cycle.
    StoreMarker(u32),
    /// Drive the indicator to its fault-signaling mode.
    SetIndicator(StatusLedMode),
    /// Let the signal stay visible for the fixed signal duration, in seconds.
    DelaySecs(u32),
    /// Perform the one deterministic full reset; nothing runs after it.
    Reset,
}

/// The graceful recovery path: one marker store, one fault signal, one
/// fixed delay, then exactly one reset.
pub open spec fn recovery_steps(signal_secs: u32) -> Seq<RecoveryStep> {
    seq![
        RecoveryStep::StoreMarker(Lifecycle::CYCLE_COMPLETE),
        RecoveryStep::SetIndicator(StatusLedMode::Blink),
        RecoveryStep::DelaySecs(signal_secs),
        RecoveryStep::Reset,
    ]
}

/// What the fault handler decides: halt forever, or run the graceful
/// recovery steps.
#[derive(Debug)]
pub enum FaultPlan {
    /// Trap and never return.
    Halt,
    /// Run these steps in order; the last one is the single reset.
    Recover(Vec<RecoveryStep>),
}

/// The unhandled-fault entry point, shared by the platform fault trap and
/// by application startup when the previous run ended mid-cycle. Reads the
/// ledger, halts on an early fault, and otherwise stamps the ledger for a
/// normal re-entry and hands back the recovery steps ending in the single
/// reset.
pub fn recover_from_fault(ledger: &mut Lifecycle, signal_secs: u32) -> (r: FaultPlan)
    ensures
        halts(decoded(old(ledger).word0, old(ledger).word1)) ==> (r matches FaultPlan::Halt
            && *final(ledger) == *old(ledger)),
        !halts(decoded(old(ledger).word0, old(ledger).word1)) ==> (r matches FaultPlan::Recover(
            steps,
        ) && steps@ == recovery_steps(signal_secs) && final(ledger).word0
            == Lifecycle::CYCLE_COMPLETE && final(ledger).word1 == checksum_of(
            Lifecycle::CYCLE_COMPLETE,
        )),
{
    let marker = ledger.load();
    match classify_fault(marker) {
        FaultOutcome::Halt => FaultPlan::Halt,
        FaultOutcome::Recover => {
            ledger.store(Lifecycle::CYCLE_COMPLETE);
            let mut steps: Vec<RecoveryStep> = Vec::new();
            steps.push(RecoveryStep::StoreMarker(Lifecycle::CYCLE_COMPLETE));
            steps.push(RecoveryStep::SetIndicator(StatusLedMode::Blink));
            steps.push(RecoveryStep::DelaySecs(signal_secs));
            steps.push(RecoveryStep::Reset);
            proof {
                assert(steps@ =~= recovery_steps(signal_secs));
            }
            FaultPlan::Recover(steps)
        },
    }
}

/// Where a boot proceeds after reading the ledger.
#[derive(Clone, Copy, Debug, PartialEq, Eq, Structural)]
pub enum BootPath {
    /// No prior marker: a cold power-on; proceed as a first run.
    FirstBoot,
    /// The previous cycle completed gracefully; proceed with a normal cycle.
    NormalCycle,
    /// The previous run ended mid-cycle; divert to graceful recovery.
    GracefulRecovery,
}

/// Classifies a boot by the marker the previous run left behind. A missing
/// marker is a normal first boot, never a fault; only a mid-cycle marker
/// diverts to recovery.
pub fn classify_boot(marker: Option<u32>) -> (r: BootPath)
    ensures
        marker is None ==> r == BootPath::FirstBoot,
        marker == Some(Lifecycle::CYCLE_COMPLETE) ==> r == BootPath::NormalCycle,
        (marker matches Some(m) && m != Lifecycle::CYCLE_COMPLETE) ==> r
            == BootPath::GracefulRecovery,
{
    match marker {
        None => BootPath::FirstBoot,
        Some(m) => {
            if m == Lifecycle::CYCLE_COMPLETE {
                BootPath::NormalCycle
            } else {
                BootPath::GracefulRecovery
            }
        },
    }
}

/// Halt-vs-recover classification over the whole marker alphabet: a fault
/// halts exactly for an absent or just-started marker, and every later
/// marker recovers.
pub proof fn lemma_halt_vs_recover(marker: Option<u32>)
    ensures
        halts(marker) <==> (marker is None || marker == Some(Lifecycle::WATCHDOG_STARTED)),
        marker == Some(Lifecycle::RADIO_READY) ==> !halts(marker),
        marker == Some(Lifecycle::APP_ENTERED) ==> !halts(marker),
        marker == Some(Lifecycle::CYCLE_COMPLETE) ==> !halts(marker),
{
}

/// Graceful recovery re-arms a normal cycle: the marker it stores reads
/// back as the terminal marker, so the next boot continues normally and a
/// fault raised then would again be recoverable.
pub proof fn lemma_recovery_rearms_normal_boot()
    ensures
        decoded(Lifecycle::CYCLE_COMPLETE, checksum_of(Lifecycle::CYCLE_COMPLETE)) == Some(
            Lifecycle::CYCLE_COMPLETE,
        ),
        !halts(Some(Lifecycle::CYCLE_COMPLETE)),
{
    crate::lifecycle::lemma_store_load_round_trip(Lifecycle::CYCLE_COMPLETE);
}

} // verus!
