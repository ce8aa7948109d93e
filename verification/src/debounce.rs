//! The double check: a "not playing" verdict is probed once more, after a
//! delay, before it counts.

use crate::audiosys::outcome_model;
use crate::audiosys::AudioListenerError;
use crate::audiosys::AudioStatus;
use crate::audiosys::ErrorModel;
use vstd::prelude::*;

verus! {

/// The double check between two probes: the delay it is set to, and whether
/// a second probe is under way.
#[derive(Debug)]
pub struct DoubleCheck {
    delay: u64,
    in_flight: bool,
}

/// What a [`DoubleCheck`] stands for.
pub struct GuardModel {
    /// Seconds to wait before the second probe; zero switches it off.
    pub delay: u64,
    /// A second probe is under way.
    pub in_flight: bool,
}

/// What the double check makes of a probe's outcome.
#[derive(Debug, PartialEq, Eq)]
pub enum Settlement {
    /// Wait that many seconds, then probe again.
    Recheck(u64),
    /// The outcome stands.
    Final(Result<AudioStatus, AudioListenerError>),
}

/// What a [`Settlement`] stands for.
pub enum SettlementModel {
    Recheck(u64),
    Final(Result<AudioStatus, ErrorModel>),
}

impl View for DoubleCheck {
    type V = GuardModel;

    closed spec fn view(&self) -> GuardModel {
        GuardModel { delay: self.delay, in_flight: self.in_flight }
    }
}

impl View for Settlement {
    type V = SettlementModel;

    open spec fn view(&self) -> SettlementModel {
        match self {
            Settlement::Recheck(delay) => SettlementModel::Recheck(*delay),
            Settlement::Final(outcome) => SettlementModel::Final(outcome_model(*outcome)),
        }
    }
}

/// The outcome is probed again: the double check is switched on, no second
/// probe is under way yet, and the probe said "not playing".
pub open spec fn wants_recheck(
    guard: GuardModel,
    outcome: Result<AudioStatus, ErrorModel>,
) -> bool {
    &&& guard.delay != 0
    &&& !guard.in_flight
    &&& outcome == Ok::<AudioStatus, ErrorModel>(AudioStatus::NotPlaying)
}

/// What the double check makes of `outcome`.
pub open spec fn settlement(
    guard: GuardModel,
    outcome: Result<AudioStatus, ErrorModel>,
) -> SettlementModel {
    if wants_recheck(guard, outcome) {
        SettlementModel::Recheck(guard.delay)
    } else {
        SettlementModel::Final(outcome)
    }
}

/// The double check after `outcome` went through it: a second probe is
/// under way exactly when one was asked for.
pub open spec fn settled(
    guard: GuardModel,
    outcome: Result<AudioStatus, ErrorModel>,
) -> GuardModel {
    GuardModel { delay: guard.delay, in_flight: wants_recheck(guard, outcome) }
}

/// The answer of a whole status check whose first probe ended in `first`
/// and whose second probe, if there is one, ends in `second`.
pub open spec fn checked_outcome(
    guard: GuardModel,
    first: Result<AudioStatus, ErrorModel>,
    second: Result<AudioStatus, ErrorModel>,
) -> Result<AudioStatus, ErrorModel> {
    if wants_recheck(guard, first) {
        second
    } else {
        first
    }
}

impl DoubleCheck {
    /// A double check with the given delay in seconds and no second probe
    /// under way.
    pub fn new(delay: u64) -> (guard: DoubleCheck)
        ensures
            guard@ == (GuardModel { delay, in_flight: false }),
    {
        DoubleCheck { delay, in_flight: false }
    }

    /// Seconds to wait before the second probe.
    pub fn delay(&self) -> (delay: u64)
        ensures
            delay == self@.delay,
    {
        self.delay
    }

    /// Whether a second probe is under way.
    pub fn in_flight(&self) -> (in_flight: bool)
        ensures
            in_flight == self@.in_flight,
    {
        self.in_flight
    }

    /// Takes the outcome of a probe and says whether it stands.
    ///
    /// A "not playing" verdict is sent back for one more probe where the
    /// double check is on and this is not that second probe already. Every
    /// other outcome stands, and is handed back as it came.
    pub fn settle(&mut self, outcome: Result<AudioStatus, AudioListenerError>) -> (decision:
        Settlement)
        ensures
            final(self)@ == settled(old(self)@, outcome_model(outcome)),
            decision@ == settlement(old(self)@, outcome_model(outcome)),
            decision is Final ==> decision == Settlement::Final(outcome),
    {
        if self.delay != 0 && !self.in_flight {
            let silent = match &outcome {
                Ok(status) => *status == AudioStatus::NotPlaying,
                Err(_) => false,
            };
            if silent {
                self.in_flight = true;
                return Settlement::Recheck(self.delay);
            }
        }
        self.in_flight = false;
        Settlement::Final(outcome)
    }
}

/// Once an outcome stands, no second probe is under way.
pub proof fn lemma_final_clears_guard(guard: GuardModel, outcome: Result<AudioStatus, ErrorModel>)
    ensures
        settlement(guard, outcome) is Final ==> !settled(guard, outcome).in_flight,
        settlement(guard, outcome) is Recheck ==> settled(guard, outcome).in_flight,
{
}

/// The second probe is the last: while it is under way every outcome
/// stands, and so does every outcome where the delay is zero.
pub proof fn lemma_at_most_one_recheck(guard: GuardModel, outcome: Result<AudioStatus, ErrorModel>)
    requires
        guard.in_flight || guard.delay == 0,
    ensures
        settlement(guard, outcome) == SettlementModel::Final(outcome),
        !settled(guard, outcome).in_flight,
{
}

/// After "not playing" the second probe decides: with the double check on
/// and idle, the first verdict asks for a second probe after the delay, the
/// outcome of that probe stands whatever it is, and the double check is
/// idle again afterwards.
pub proof fn lemma_second_probe_decides(delay: u64, second: Result<AudioStatus, ErrorModel>)
    requires
        delay != 0,
    ensures
        ({
            let idle = GuardModel { delay, in_flight: false };
            let silent = Ok::<AudioStatus, ErrorModel>(AudioStatus::NotPlaying);
            let waiting = settled(idle, silent);
            &&& settlement(idle, silent) == SettlementModel::Recheck(delay)
            &&& waiting.in_flight
            &&& settlement(waiting, second) == SettlementModel::Final(second)
            &&& settled(waiting, second) == idle
            &&& checked_outcome(idle, silent, second) == second
        }),
{
}

/// Only "not playing" is ever probed again: a `Playing` verdict and an
/// error stand at once.
pub proof fn lemma_only_silence_is_rechecked(
    guard: GuardModel,
    outcome: Result<AudioStatus, ErrorModel>,
)
    requires
        outcome != Ok::<AudioStatus, ErrorModel>(AudioStatus::NotPlaying),
    ensures
        settlement(guard, outcome) == SettlementModel::Final(outcome),
        checked_outcome(guard, outcome, outcome) == outcome,
{
}

} // verus!
