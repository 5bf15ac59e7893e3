//! The voice controller: owner of the single active playback voice.
//!
//! The controller is a two-state machine, `Idle` or `Sounding`. A trigger
//! request with a decodable sample always leaves it `Sounding`, stopping any
//! voice that was sounding before the new one starts (strict monophony). A
//! trigger whose sample failed to decode is a no-op: the state is preserved
//! and the audio output is not touched.

use vstd::prelude::*;

verus! {

/// Whether a voice is currently sounding on the audio output.
#[derive(Clone, Copy, PartialEq, Eq, Structural, Debug)]
pub enum VoiceState {
    /// No voice is sounding.
    Idle,
    /// Exactly one voice is sounding.
    Sounding,
}

/// What the audio output must do to honour one trigger request.
#[derive(Clone, Copy, PartialEq, Eq, Structural, Debug)]
pub enum TriggerAction {
    /// Stop the voice that was sounding, then start the new one.
    StopThenStart,
    /// Start the new voice; nothing was sounding.
    Start,
    /// The sample failed to decode: leave the audio output untouched.
    Rejected,
}

/// Upper bound, in seconds, on how long one voice may sound: a started voice
/// is truncated at this duration whatever the sample's natural length.
pub const MAX_VOICE_SECS: u64 = 5;

/// The single-voice controller. At most one voice exists per controller, and
/// every state change goes through [`VoiceController::trigger`] or
/// [`VoiceController::shutdown`].
pub struct VoiceController {
    state: VoiceState,
}

impl View for VoiceController {
    type V = VoiceState;

    closed spec fn view(&self) -> VoiceState {
        self.state
    }
}

impl VoiceController {
    /// A fresh controller: nothing is sounding yet.
    pub fn new() -> (vc: VoiceController)
        ensures
            vc@ == VoiceState::Idle,
    {
        VoiceController { state: VoiceState::Idle }
    }

    /// Request a new voice for a sample whose decode outcome is `decoded`.
    ///
    /// With a decoded sample the controller always ends `Sounding`, and the
    /// returned action stops the prior voice first when one was sounding.
    /// With an undecodable sample nothing changes: the prior state is kept
    /// and the action leaves the audio output untouched.
    pub fn trigger(&mut self, decoded: bool) -> (action: TriggerAction)
        ensures
            decoded ==> final(self)@ == VoiceState::Sounding,
            decoded && old(self)@ == VoiceState::Sounding ==> action
                == TriggerAction::StopThenStart,
            decoded && old(self)@ == VoiceState::Idle ==> action == TriggerAction::Start,
            !decoded ==> final(self)@ == old(self)@ && action == TriggerAction::Rejected,
    {
        if !decoded {
            TriggerAction::Rejected
        } else {
            let was_sounding = match self.state {
                VoiceState::Sounding => true,
                VoiceState::Idle => false,
            };
            self.state = VoiceState::Sounding;
            if was_sounding {
                TriggerAction::StopThenStart
            } else {
                TriggerAction::Start
            }
        }
    }

    /// The controller's current state.
    pub fn current_state(&self) -> (s: VoiceState)
        ensures
            s == self@,
    {
        self.state
    }

    /// Stop whatever is sounding and end `Idle`; returns whether a voice had
    /// to be stopped. Called once, when the session ends.
    pub fn shutdown(&mut self) -> (stopped: bool)
        ensures
            final(self)@ == VoiceState::Idle,
            stopped == (old(self)@ == VoiceState::Sounding),
    {
        let stopped = match self.state {
            VoiceState::Sounding => true,
            VoiceState::Idle => false,
        };
        self.state = VoiceState::Idle;
        stopped
    }
}

} // verus!
