//! The session: the input-to-playback control loop's decisions.
//!
//! The session owns the sample store, the voice controller, and the render
//! state. Each input event is turned into an exact, ordered list of
//! [`Effect`]s for the I/O shell to perform: which frames to paint, when to
//! stop and start the voice, and how long to hold the highlighted frame.
//! The shell contributes exactly two things the library cannot know: the
//! events themselves, and whether the pending sample's bytes decoded.

use vstd::prelude::*;

use crate::layout::key_in_layout;
use crate::layout::key_is_mapped;
use crate::store::SampleStore;
use crate::voice::MAX_VOICE_SECS;
use crate::voice::TriggerAction;
use crate::voice::VoiceController;
use crate::voice::VoiceState;

verus! {

/// How long the highlighted frame stays on screen before the cleared frame
/// is painted, in milliseconds. Input processing pauses for this window so
/// the visual feedback is perceptible.
pub const HOLD_MS: u64 = 120;

/// The input poll timeout, in milliseconds: the longest the shell waits for
/// one event before polling again, bounding worst-case input latency.
pub const POLL_TIMEOUT_MS: u64 = 100;

/// One input event, as the session understands it.
#[derive(Clone, Copy, PartialEq, Eq, Structural, Debug)]
pub enum InputEvent {
    /// A printable key was pressed.
    Press(char),
    /// The designated exit key was pressed.
    ExitPress,
    /// Anything else: releases, repeats without press, other keys.
    Other,
}

/// One instruction to the I/O shell, in the order it must be performed.
#[derive(Clone, Copy, PartialEq, Eq, Structural, Debug)]
pub enum Effect {
    /// Repaint the frame with this key highlighted.
    Highlight(char),
    /// Stop the sounding voice.
    StopVoice,
    /// Start a voice for the pending sample, truncated at this many seconds.
    StartVoice(u64),
    /// Keep the current frame on screen for this many milliseconds.
    Hold(u64),
    /// Repaint the frame with no key highlighted.
    Clear,
}

/// The effect list for a press of key `k`, given whether a voice was
/// sounding and whether the pressed key's sample will play (it will iff the
/// key is mapped, a sample is loaded for it, and the bytes decoded).
pub open spec fn key_press_effects(k: char, sounding: bool, plays: bool) -> Seq<Effect> {
    if !key_in_layout(k) {
        Seq::empty()
    } else if !plays {
        seq![Effect::Highlight(k), Effect::Hold(HOLD_MS), Effect::Clear]
    } else if sounding {
        seq![
            Effect::Highlight(k),
            Effect::StopVoice,
            Effect::StartVoice(MAX_VOICE_SECS),
            Effect::Hold(HOLD_MS),
            Effect::Clear,
        ]
    } else {
        seq![
            Effect::Highlight(k),
            Effect::StartVoice(MAX_VOICE_SECS),
            Effect::Hold(HOLD_MS),
            Effect::Clear,
        ]
    }
}

/// The effect list for the exit key: stop the voice if one was sounding,
/// paint nothing further.
pub open spec fn exit_effects(sounding: bool) -> Seq<Effect> {
    if sounding {
        seq![Effect::StopVoice]
    } else {
        Seq::empty()
    }
}

/// The effect list for any event.
pub open spec fn event_effects(e: InputEvent, sounding: bool, plays: bool) -> Seq<Effect> {
    match e {
        InputEvent::Press(k) => key_press_effects(k, sounding, plays),
        InputEvent::ExitPress => exit_effects(sounding),
        InputEvent::Other => Seq::empty(),
    }
}

/// One session step's outcome: the effects to perform, and whether the loop
/// must terminate.
pub struct StepOutcome {
    /// The instructions to perform, in order.
    pub effects: Vec<Effect>,
    /// Whether this event ends the session.
    pub exit: bool,
}

/// The session state: the immutable sample store, the voice controller, and
/// the render state (the highlight of the last painted frame).
pub struct Session {
    store: SampleStore,
    voice: VoiceController,
    shown: Option<char>,
}

impl Session {
    /// The loaded samples, by key.
    pub closed spec fn samples(&self) -> Map<char, Seq<u8>> {
        self.store@
    }

    /// The voice controller's state.
    pub closed spec fn voice_state(&self) -> VoiceState {
        self.voice@
    }

    /// The render state: the key the last painted frame highlights, if any.
    pub closed spec fn shown_highlight(&self) -> Option<char> {
        self.shown
    }

    /// The session's invariant.
    pub closed spec fn wf(&self) -> bool {
        self.store.wf()
    }

    /// Whether a press of `k` will start a voice: `k` is mapped, a sample is
    /// loaded for it, and its bytes decoded.
    pub open spec fn press_plays(self, k: char, decoded: bool) -> bool {
        key_in_layout(k) && self.samples().contains_key(k) && decoded
    }

    /// Whether event `e` will start a voice.
    pub open spec fn event_plays(self, e: InputEvent, decoded: bool) -> bool {
        e matches InputEvent::Press(k) && self.press_plays(k, decoded)
    }

    /// A fresh session over a built store: nothing sounding, nothing
    /// highlighted.
    pub fn new(store: SampleStore) -> (s: Session)
        requires
            store.wf(),
        ensures
            s.wf(),
            s.samples() == store@,
            s.voice_state() == VoiceState::Idle,
            s.shown_highlight() is None,
    {
        Session { store, voice: VoiceController::new(), shown: None }
    }

    /// The effects that open a session: one cleared frame, before any input.
    pub fn opening_effects(&self) -> (fx: Vec<Effect>)
        ensures
            fx@ =~= seq![Effect::Clear],
    {
        let mut fx: Vec<Effect> = Vec::new();
        fx.push(Effect::Clear);
        fx
    }

    /// The voice controller's current state.
    pub fn current_voice_state(&self) -> (s: VoiceState)
        ensures
            s == self.voice_state(),
    {
        self.voice.current_state()
    }

    /// The sample bytes loaded for key `k`, if any: what the shell must hand
    /// to the decoder before committing the press.
    pub fn sample_for(&self, k: char) -> (r: Option<&Vec<u8>>)
        requires
            self.wf(),
        ensures
            match r {
                Some(b) => self.samples().contains_key(k) && b@ == self.samples()[k],
                None => !self.samples().contains_key(k),
            },
    {
        self.store.get(k)
    }

    /// Commit a press of key `k`, whose sample bytes (if any were loaded)
    /// decoded iff `decoded`.
    ///
    /// An unmapped key changes nothing and yields no effects. A mapped key
    /// yields a highlighted frame, held and then cleared; iff its sample is
    /// loaded and decoded, a voice starts in between, stopping the prior
    /// voice first when one was sounding. A press whose sample is missing or
    /// undecodable leaves the voice controller exactly as it was.
    pub fn handle_key(&mut self, k: char, decoded: bool) -> (fx: Vec<Effect>)
        requires
            old(self).wf(),
        ensures
            final(self).wf(),
            final(self).samples() == old(self).samples(),
            fx@ == key_press_effects(
                k,
                old(self).voice_state() == VoiceState::Sounding,
                old(self).press_plays(k, decoded),
            ),
            final(self).voice_state() == if old(self).press_plays(k, decoded) {
                VoiceState::Sounding
            } else {
                old(self).voice_state()
            },
            final(self).shown_highlight() == if key_in_layout(k) {
                None::<char>
            } else {
                old(self).shown_highlight()
            },
    {
        let mut fx: Vec<Effect> = Vec::new();
        if !key_is_mapped(k) {
            return fx;
        }
        self.shown = Some(k);
        fx.push(Effect::Highlight(k));
        let loaded = match self.store.get(k) {
            Some(_) => true,
            None => false,
        };
        if loaded {
            let action = self.voice.trigger(decoded);
            match action {
                TriggerAction::StopThenStart => {
                    fx.push(Effect::StopVoice);
                    fx.push(Effect::StartVoice(MAX_VOICE_SECS));
                },
                TriggerAction::Start => {
                    fx.push(Effect::StartVoice(MAX_VOICE_SECS));
                },
                TriggerAction::Rejected => {},
            }
        }
        fx.push(Effect::Hold(HOLD_MS));
        fx.push(Effect::Clear);
        self.shown = None;
        proof {
            assert(fx@ =~= key_press_effects(
                k,
                old(self).voice_state() == VoiceState::Sounding,
                old(self).press_plays(k, decoded),
            ));
        }
        fx
    }

    /// Commit the exit key: stop whatever is sounding, paint no further
    /// frame. The session ends whatever state the voice controller was in.
    pub fn handle_exit(&mut self) -> (fx: Vec<Effect>)
        requires
            old(self).wf(),
        ensures
            final(self).wf(),
            final(self).samples() == old(self).samples(),
            final(self).voice_state() == VoiceState::Idle,
            final(self).shown_highlight() == old(self).shown_highlight(),
            fx@ == exit_effects(old(self).voice_state() == VoiceState::Sounding),
    {
        let stopped = self.voice.shutdown();
        let mut fx: Vec<Effect> = Vec::new();
        if stopped {
            fx.push(Effect::StopVoice);
        }
        proof {
            assert(fx@ =~= exit_effects(old(self).voice_state() == VoiceState::Sounding));
        }
        fx
    }

    /// One step of the session loop: dispatch event `e`, whose sample bytes
    /// (for a press of a key with a loaded sample) decoded iff `decoded`.
    ///
    /// The outcome's `exit` flag is true exactly on the exit key, whatever
    /// the voice controller's state; the exit key also shuts the voice down.
    pub fn on_event(&mut self, e: InputEvent, decoded: bool) -> (out: StepOutcome)
        requires
            old(self).wf(),
        ensures
            final(self).wf(),
            final(self).samples() == old(self).samples(),
            out.exit == (e == InputEvent::ExitPress),
            out.effects@ == event_effects(
                e,
                old(self).voice_state() == VoiceState::Sounding,
                old(self).event_plays(e, decoded),
            ),
            final(self).voice_state() == if e == InputEvent::ExitPress {
                VoiceState::Idle
            } else if old(self).event_plays(e, decoded) {
                VoiceState::Sounding
            } else {
                old(self).voice_state()
            },
            final(self).shown_highlight() == if (e matches InputEvent::Press(k) && key_in_layout(
                k,
            )) {
                None::<char>
            } else {
                old(self).shown_highlight()
            },
    {
        match e {
            InputEvent::Press(k) => StepOutcome { effects: self.handle_key(k, decoded), exit: false },
            InputEvent::ExitPress => StepOutcome { effects: self.handle_exit(), exit: true },
            InputEvent::Other => StepOutcome { effects: Vec::new(), exit: false },
        }
    }
}

} // verus!
