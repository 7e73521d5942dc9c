use ultra_meeting_core::error::RecordingError;
use ultra_meeting_core::state::{RecordingState, StateMachine};

fn machine(state: RecordingState) -> StateMachine {
    StateMachine::new(Some(state), "/tmp/rec".to_string(), "/tmp/state.json".to_string())
}

fn invalid_state_message(r: Result<(), RecordingError>) -> String {
    match r {
        Err(RecordingError::InvalidState(m)) => m,
        Err(other) => panic!("unexpected error {}", other.message()),
        Ok(()) => panic!("expected a refusal"),
    }
}

#[test]
fn state_transitions() {
    let _ = tracing_subscriber::fmt().try_init();
    assert_eq!(RecordingState::Idle.display_name(), "idle");
    assert_eq!(RecordingState::Recording.display_name(), "recording");
}

#[test]
fn display_names_of_every_state() {
    assert_eq!(RecordingState::Preparing.display_name(), "preparing");
    assert_eq!(RecordingState::Stopping.display_name(), "stopping");
    assert_eq!(RecordingState::Processing.display_name(), "processing");
    assert_eq!(RecordingState::Error("x".into()).display_name(), "error");
    assert_eq!(RecordingState::Failed("y".into()).display_name(), "failed");
}

#[test]
fn new_machine_defaults_to_idle_and_keeps_paths() {
    let sm = StateMachine::new(None, "/docs/rec".to_string(), "/home/u/state.json".to_string());
    assert!(matches!(sm.state(), RecordingState::Idle));
    assert_eq!(sm.storage_path(), "/docs/rec");
    assert_eq!(sm.state_path(), "/home/u/state.json");
    let resumed = machine(RecordingState::Stopping);
    assert!(matches!(resumed.state(), RecordingState::Stopping));
}

#[test]
fn full_lifecycle_returns_to_idle() {
    let mut sm = machine(RecordingState::Idle);
    assert!(sm.start_preparing().is_ok());
    assert!(matches!(sm.state(), RecordingState::Preparing));
    assert!(sm.start_recording().is_ok());
    assert!(matches!(sm.state(), RecordingState::Recording));
    assert!(sm.stop_recording().is_ok());
    assert!(matches!(sm.state(), RecordingState::Stopping));
    assert!(sm.start_processing().is_ok());
    assert!(matches!(sm.state(), RecordingState::Processing));
    assert!(sm.finish().is_ok());
    assert!(matches!(sm.state(), RecordingState::Idle));
}

#[test]
fn refused_moves_keep_state_and_explain() {
    let mut sm = machine(RecordingState::Recording);
    assert_eq!(invalid_state_message(sm.start_preparing()), "cannot start from Recording");
    assert!(matches!(sm.state(), RecordingState::Recording));
    let mut idle = machine(RecordingState::Idle);
    assert_eq!(invalid_state_message(idle.start_recording()), "cannot record from Idle");
    assert_eq!(invalid_state_message(idle.stop_recording()), "cannot stop from Idle");
    assert_eq!(invalid_state_message(idle.start_processing()), "cannot process from Idle");
    assert_eq!(invalid_state_message(idle.finish()), "cannot finish from Idle");
    assert!(matches!(idle.state(), RecordingState::Idle));
}

#[test]
fn refusal_quotes_error_messages() {
    let mut sm = machine(RecordingState::Failed("disk \"gone\"".into()));
    assert_eq!(
        invalid_state_message(sm.start_preparing()),
        "cannot start from Failed(\"disk \\\"gone\\\"\")"
    );
    let mut e = machine(RecordingState::Error("oops".into()));
    assert_eq!(invalid_state_message(e.start_recording()), "cannot record from Error(\"oops\")");
}

#[test]
fn error_is_acknowledged_by_finish() {
    let mut sm = machine(RecordingState::Recording);
    sm.set_error("device lost".to_string());
    assert!(matches!(sm.state(), RecordingState::Error(m) if m == "device lost"));
    assert!(sm.finish().is_ok());
    assert!(matches!(sm.state(), RecordingState::Idle));
}

#[test]
fn failed_state_cannot_finish() {
    let mut sm = machine(RecordingState::Idle);
    sm.set_failed("fatal".to_string());
    assert!(matches!(sm.state(), RecordingState::Failed(m) if m == "fatal"));
    assert_eq!(invalid_state_message(sm.finish()), "cannot finish from Failed(\"fatal\")");
}

#[test]
fn reset_interrupted_recovers_to_idle() {
    for s in [
        RecordingState::Recording,
        RecordingState::Stopping,
        RecordingState::Processing,
        RecordingState::Error("e".into()),
        RecordingState::Failed("f".into()),
    ] {
        let mut sm = machine(s);
        assert!(sm.reset_interrupted());
        assert!(matches!(sm.state(), RecordingState::Idle));
        assert!(!sm.reset_interrupted());
    }
    let mut p = machine(RecordingState::Preparing);
    assert!(!p.reset_interrupted());
    assert!(matches!(p.state(), RecordingState::Preparing));
}

#[test]
fn transition_to_moves_unconditionally() {
    let mut sm = machine(RecordingState::Idle);
    sm.transition_to(RecordingState::Processing);
    assert!(matches!(sm.state(), RecordingState::Processing));
}

#[test]
fn debug_text_matches_derived_debug_form() {
    assert_eq!(RecordingState::Idle.debug_text(), "Idle");
    assert_eq!(RecordingState::Error("a\nb".into()).debug_text(), "Error(\"a\\nb\")");
}
