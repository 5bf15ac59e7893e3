use cliano::voice::MAX_VOICE_SECS;
use cliano::voice::TriggerAction;
use cliano::voice::VoiceController;
use cliano::voice::VoiceState;

#[test]
fn voice_bound_is_five_seconds() {
    assert_eq!(MAX_VOICE_SECS, 5);
}

#[test]
fn trigger_from_idle_starts() {
    let mut vc = VoiceController::new();
    assert_eq!(vc.current_state(), VoiceState::Idle);
    assert_eq!(vc.trigger(true), TriggerAction::Start);
    assert_eq!(vc.current_state(), VoiceState::Sounding);
}

#[test]
fn trigger_while_sounding_stops_first() {
    let mut vc = VoiceController::new();
    vc.trigger(true);
    assert_eq!(vc.trigger(true), TriggerAction::StopThenStart);
    assert_eq!(vc.current_state(), VoiceState::Sounding);
}

#[test]
fn failed_decode_preserves_state() {
    let mut vc = VoiceController::new();
    assert_eq!(vc.trigger(false), TriggerAction::Rejected);
    assert_eq!(vc.current_state(), VoiceState::Idle);
    vc.trigger(true);
    assert_eq!(vc.trigger(false), TriggerAction::Rejected);
    assert_eq!(vc.current_state(), VoiceState::Sounding);
}

#[test]
fn shutdown_stops_the_sounding_voice() {
    let mut vc = VoiceController::new();
    vc.trigger(true);
    assert!(vc.shutdown());
    assert_eq!(vc.current_state(), VoiceState::Idle);
    assert!(!vc.shutdown());
    assert_eq!(vc.current_state(), VoiceState::Idle);
}
