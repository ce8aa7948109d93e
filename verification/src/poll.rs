//! What the listener does with the outcome of a check.

use crate::audiosys::outcome_model;
use crate::audiosys::AudioListenerError;
use crate::audiosys::AudioStatus;
use crate::audiosys::ErrorModel;
use vstd::prelude::*;

verus! {

/// What follows a check of the audio status.
#[derive(Debug, Clone, Copy, PartialEq, Eq, Structural)]
pub enum PollAction {
    /// Nothing is playing: turn the monitors off, then check again after
    /// the interval.
    TurnOffMonitors,
    /// Audio is playing: leave the monitors alone, and check again after
    /// the interval.
    KeepMonitors,
    /// The check failed: stop listening.
    Stop,
}

/// What follows a check that ended in `outcome`.
pub open spec fn reaction(outcome: Result<AudioStatus, ErrorModel>) -> PollAction {
    match outcome {
        Ok(AudioStatus::NotPlaying) => PollAction::TurnOffMonitors,
        Ok(AudioStatus::Playing) => PollAction::KeepMonitors,
        Err(_) => PollAction::Stop,
    }
}

/// Decides what follows a check of the audio status.
pub fn react(outcome: &Result<AudioStatus, AudioListenerError>) -> (action: PollAction)
    ensures
        action == reaction(outcome_model(*outcome)),
{
    match outcome {
        Ok(AudioStatus::NotPlaying) => PollAction::TurnOffMonitors,
        Ok(AudioStatus::Playing) => PollAction::KeepMonitors,
        Err(_) => PollAction::Stop,
    }
}

} // verus!
