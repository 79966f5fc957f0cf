//! The staleness-gated pipeline: the decisions a stage worker takes around
//! one expensive operation, phrased over the latest-value slot.
//!
//! A worker observes the slot (taking a version token), waits out a debounce
//! delay if the previous run succeeded, abandons the run if the slot changed
//! during the wait, and finally delivers its result only if the slot still
//! holds the observed version.  The expensive operation itself and the waits
//! are performed by the caller between these steps; no step here blocks.

use vstd::prelude::*;

use crate::slot::{publish_transition, Slot, SlotValue};

verus! {

/// The phases one stage run moves through.
#[derive(Debug, Clone, Copy, PartialEq, Eq, Structural)]
pub enum StagePhase {
    Idle,
    Debouncing,
    Running,
    Delivered,
    Superseded,
}

/// What happened to a stage run since its last phase.
#[derive(Debug, Clone, Copy, PartialEq, Eq, Structural)]
pub enum StageEvent {
    InputArrived,
    WaitElapsedCurrent,
    WaitElapsedSuperseded,
    RunFinishedCurrent,
    RunFinishedStale,
}

/// The per-stage state machine: a new input starts a debounce; the wait ends
/// in a run if the input is still current and abandons the run otherwise; a
/// finished run is delivered only if its input is still current.  A finished
/// run's phase takes a new input back to debouncing; any other pairing of
/// phase and event leaves the phase alone.
pub fn stage_step(phase: StagePhase, event: StageEvent) -> (r: StagePhase)
    ensures
        phase == StagePhase::Idle && event == StageEvent::InputArrived ==> r
            == StagePhase::Debouncing,
        phase == StagePhase::Debouncing && event == StageEvent::WaitElapsedCurrent ==> r
            == StagePhase::Running,
        phase == StagePhase::Debouncing && event == StageEvent::WaitElapsedSuperseded ==> r
            == StagePhase::Superseded,
        phase == StagePhase::Running && event == StageEvent::RunFinishedCurrent ==> r
            == StagePhase::Delivered,
        phase == StagePhase::Running && event == StageEvent::RunFinishedStale ==> r
            == StagePhase::Superseded,
        (phase == StagePhase::Delivered || phase == StagePhase::Superseded) && event
            == StageEvent::InputArrived ==> r == StagePhase::Debouncing,
        !(event == StageEvent::InputArrived && (phase == StagePhase::Idle || phase
            == StagePhase::Delivered || phase == StagePhase::Superseded)) && !(phase
            == StagePhase::Debouncing && (event == StageEvent::WaitElapsedCurrent || event
            == StageEvent::WaitElapsedSuperseded)) && !(phase == StagePhase::Running && (event
            == StageEvent::RunFinishedCurrent || event == StageEvent::RunFinishedStale)) ==> r
            == phase,
{
    match (phase, event) {
        (StagePhase::Idle, StageEvent::InputArrived) => StagePhase::Debouncing,
        (StagePhase::Delivered, StageEvent::InputArrived) => StagePhase::Debouncing,
        (StagePhase::Superseded, StageEvent::InputArrived) => StagePhase::Debouncing,
        (StagePhase::Debouncing, StageEvent::WaitElapsedCurrent) => StagePhase::Running,
        (StagePhase::Debouncing, StageEvent::WaitElapsedSuperseded) => StagePhase::Superseded,
        (StagePhase::Running, StageEvent::RunFinishedCurrent) => StagePhase::Delivered,
        (StagePhase::Running, StageEvent::RunFinishedStale) => StagePhase::Superseded,
        _ => phase,
    }
}

/// Per-stage control state: whether the previous run succeeded, and the fixed
/// debounce interval in milliseconds.
pub struct StageControl {
    pub last_successful: bool,
    pub debounce_ms: u64,
}

impl StageControl {
    /// A fresh stage; no run has succeeded yet, so the first run is prompt.
    pub fn new(debounce_ms: u64) -> (r: Self)
        ensures
            r.last_successful == false,
            r.debounce_ms == debounce_ms,
    {
        StageControl { last_successful: false, debounce_ms }
    }

    /// How long to wait before running: the debounce interval after a
    /// success, no delay after a failure, so error states are reflected
    /// promptly.
    pub fn debounce_delay(&self) -> (d: u64)
        ensures
            d == if self.last_successful {
                self.debounce_ms
            } else {
                0
            },
    {
        if self.last_successful {
            self.debounce_ms
        } else {
            0
        }
    }

    /// Records whether the run that just finished succeeded.
    pub fn record_outcome(&mut self, ok: bool)
        ensures
            final(self).last_successful == ok,
            final(self).debounce_ms == old(self).debounce_ms,
    {
        self.last_successful = ok;
    }
}

/// Step one of a stage run: read the current input from the slot, marking it
/// observed, and take the version token for the later staleness checks.
pub fn observe<T: SlotValue>(slot: &mut Slot<T>) -> (r: (T, u64))
    ensures
        r.0.content() == old(slot).content(),
        r.1 == old(slot).version_spec(),
        final(slot).content() == old(slot).content(),
        final(slot).version_spec() == old(slot).version_spec(),
        final(slot).seen_spec() == final(slot).version_spec(),
{
    let value = slot.read_and_mark();
    let token = slot.version();
    (value, token)
}

/// After the debounce wait: whether the observed input has been superseded,
/// in which case the run is abandoned without invoking the expensive
/// operation at all.
pub fn superseded<T: SlotValue>(slot: &Slot<T>, token: u64) -> (r: bool)
    ensures
        r == (slot.version_spec() != token),
{
    slot.version() != token
}

/// The staleness gate at delivery time: the result of a run is handed on only
/// if the slot still holds the version the run observed; a stale in-flight
/// result is dropped rather than applied.
pub fn gate<T: SlotValue, R>(slot: &Slot<T>, token: u64, result: R) -> (r: Option<R>)
    ensures
        slot.version_spec() == token ==> r == Some(result),
        slot.version_spec() != token ==> r is None,
{
    if slot.version() == token {
        Some(result)
    } else {
        None
    }
}

/// A result computed from a superseded input is never delivered: once a newer
/// value of different content is published after a worker observed the slot,
/// delivery fails the staleness check, whatever the result was.
pub proof fn lemma_stale_result_not_delivered<T: SlotValue>(
    observed: Slot<T>,
    token: u64,
    later: Slot<T>,
    c: Seq<char>,
)
    requires
        token == observed.version_spec(),
        publish_transition(observed, later, c),
        c != observed.content(),
    ensures
        later.version_spec() != token,
{
}

} // verus!
