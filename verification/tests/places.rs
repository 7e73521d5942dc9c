use ultra_meeting_core::error::RecordingError;
use ultra_meeting_core::places::{
    recordings_dir, recordings_dir_from, session_storage_base, state_dir, state_dir_from,
    state_file_path,
};
use ultra_meeting_core::transcription::TranscriptionPipeline;

fn other(r: Result<String, RecordingError>) -> String {
    match r {
        Err(RecordingError::Other(m)) => m,
        _ => panic!("expected Other"),
    }
}

#[test]
fn state_file_lives_under_home() {
    let dir = state_dir_from(Some("/home/u".into())).unwrap();
    assert_eq!(dir, "/home/u/.ultra-meeting");
    assert_eq!(state_file_path(&dir), "/home/u/.ultra-meeting/state.json");
    assert_eq!(other(state_dir_from(None)), "no home dir");
}

#[test]
fn recordings_live_under_documents() {
    assert_eq!(recordings_dir_from(Some("/home/u/Documents".into())).unwrap(), "/home/u/Documents/UltraMeeting/recordings");
    assert_eq!(other(recordings_dir_from(None)), "no documents dir");
    assert_eq!(session_storage_base(Some("/custom".into())).unwrap(), "/custom");
}

#[test]
fn looked_up_places_have_their_suffixes() {
    if let Ok(d) = state_dir() {
        assert!(d.ends_with("/.ultra-meeting"));
    }
    if let Ok(r) = recordings_dir() {
        assert!(r.ends_with("/UltraMeeting/recordings"));
    }
    if let Ok(b) = session_storage_base(None) {
        assert!(b.ends_with("/UltraMeeting"));
    }
    if let Ok(p) = TranscriptionPipeline::locate() {
        assert!(p.model_path().ends_with("/.ultra-meeting/models/ggml-base.en.bin"));
    }
}
