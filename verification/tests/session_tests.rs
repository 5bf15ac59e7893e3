use cliano::session::Effect;
use cliano::session::HOLD_MS;
use cliano::session::InputEvent;
use cliano::session::Session;
use cliano::store::SampleStore;
use cliano::voice::MAX_VOICE_SECS;
use cliano::voice::VoiceState;

fn session_with(entries: &[(&str, &[u8])]) -> Session {
    let files: Vec<(String, Vec<u8>)> =
        entries.iter().map(|(name, bytes)| (String::from(*name), bytes.to_vec())).collect();
    Session::new(SampleStore::build(&files))
}

#[test]
fn opening_frame_shows_no_highlight() {
    let s = session_with(&[]);
    assert_eq!(s.opening_effects(), vec![Effect::Clear]);
}

#[test]
fn pressing_a_loaded_key_twice_replays_the_note() {
    let mut s = session_with(&[("C4.wav", &[1, 2])]);
    let first = s.handle_key('a', true);
    assert_eq!(
        first,
        vec![
            Effect::Highlight('a'),
            Effect::StartVoice(MAX_VOICE_SECS),
            Effect::Hold(HOLD_MS),
            Effect::Clear,
        ]
    );
    assert_eq!(s.current_voice_state(), VoiceState::Sounding);
    let second = s.handle_key('a', true);
    assert_eq!(
        second,
        vec![
            Effect::Highlight('a'),
            Effect::StopVoice,
            Effect::StartVoice(MAX_VOICE_SECS),
            Effect::Hold(HOLD_MS),
            Effect::Clear,
        ]
    );
    assert_eq!(s.current_voice_state(), VoiceState::Sounding);
    let highlights = |fx: &[Effect]| {
        fx.iter().filter(|e| matches!(e, Effect::Highlight(_))).count()
    };
    assert_eq!(highlights(&first) + highlights(&second), 2);
}

#[test]
fn unmapped_key_changes_nothing() {
    let mut s = session_with(&[("C4.wav", &[1])]);
    let fx = s.handle_key('z', true);
    assert!(fx.is_empty());
    assert_eq!(s.current_voice_state(), VoiceState::Idle);
}

#[test]
fn missing_sample_highlights_without_sound() {
    let mut s = session_with(&[("C4.wav", &[1])]);
    assert!(s.sample_for('f').is_none());
    let fx = s.handle_key('f', true);
    assert_eq!(fx, vec![Effect::Highlight('f'), Effect::Hold(HOLD_MS), Effect::Clear]);
    assert_eq!(s.current_voice_state(), VoiceState::Idle);
}

#[test]
fn failed_decode_keeps_voice_state() {
    let mut s = session_with(&[("C4.wav", &[1])]);
    let fx = s.handle_key('a', false);
    assert_eq!(fx, vec![Effect::Highlight('a'), Effect::Hold(HOLD_MS), Effect::Clear]);
    assert_eq!(s.current_voice_state(), VoiceState::Idle);
    s.handle_key('a', true);
    assert_eq!(s.current_voice_state(), VoiceState::Sounding);
    let fx = s.handle_key('a', false);
    assert_eq!(fx, vec![Effect::Highlight('a'), Effect::Hold(HOLD_MS), Effect::Clear]);
    assert_eq!(s.current_voice_state(), VoiceState::Sounding);
}

#[test]
fn sample_for_returns_the_matching_bytes() {
    let s = session_with(&[("C4.wav", &[1, 2]), ("F4.wav", &[3])]);
    assert_eq!(s.sample_for('a'), Some(&vec![1, 2]));
    assert_eq!(s.sample_for('f'), Some(&vec![3]));
    assert_eq!(s.sample_for('z'), None);
}

#[test]
fn exit_key_stops_the_voice_and_ends_the_loop() {
    let mut s = session_with(&[("C4.wav", &[1])]);
    s.handle_key('a', true);
    assert_eq!(s.current_voice_state(), VoiceState::Sounding);
    let out = s.on_event(InputEvent::ExitPress, false);
    assert!(out.exit);
    assert_eq!(out.effects, vec![Effect::StopVoice]);
    assert_eq!(s.current_voice_state(), VoiceState::Idle);
}

#[test]
fn exit_key_from_idle_is_silent() {
    let mut s = session_with(&[]);
    let out = s.on_event(InputEvent::ExitPress, false);
    assert!(out.exit);
    assert!(out.effects.is_empty());
    assert_eq!(s.current_voice_state(), VoiceState::Idle);
}

#[test]
fn other_events_are_ignored() {
    let mut s = session_with(&[("C4.wav", &[1])]);
    let out = s.on_event(InputEvent::Other, true);
    assert!(!out.exit);
    assert!(out.effects.is_empty());
    assert_eq!(s.current_voice_state(), VoiceState::Idle);
}

#[test]
fn press_events_dispatch_to_the_key_handler() {
    let mut s = session_with(&[("C4.wav", &[1])]);
    let out = s.on_event(InputEvent::Press('a'), true);
    assert!(!out.exit);
    assert_eq!(
        out.effects,
        vec![
            Effect::Highlight('a'),
            Effect::StartVoice(MAX_VOICE_SECS),
            Effect::Hold(HOLD_MS),
            Effect::Clear,
        ]
    );
}
