use ultra_meeting_core::error::RecordingError;
use ultra_meeting_core::ffi::{
    recording_metrics_json, reported_duration_secs, reported_progress, reported_state_name,
};
use ultra_meeting_core::session::{
    check_session_folder, recordings_root, remote_samples_per_sec, storage_base, writers_outcome,
    SessionCoordinator,
};
use ultra_meeting_core::state::{RecordingState, StateMachine};
use ultra_meeting_core::storage::SessionStorage;
use ultra_meeting_core::time::Timestamp;

fn coordinator(state: RecordingState) -> SessionCoordinator {
    SessionCoordinator::new(StateMachine::new(Some(state), "/d".into(), "/s.json".into()))
}

fn other_message(r: Result<(), RecordingError>) -> String {
    match r {
        Err(RecordingError::Other(m)) => m,
        _ => panic!("expected Other"),
    }
}

#[test]
fn init_recovers_interrupted_recording() {
    let mut c = coordinator(RecordingState::Recording);
    assert!(c.init());
    assert!(matches!(c.state(), RecordingState::Idle));
    let mut p = coordinator(RecordingState::Preparing);
    assert!(!p.init());
    assert!(matches!(p.state(), RecordingState::Preparing));
}

#[test]
fn storage_base_prefers_explicit_root() {
    assert_eq!(storage_base(Some("/x".into()), Some("/docs".into())).unwrap(), "/x");
    assert_eq!(storage_base(None, Some("/docs".into())).unwrap(), "/docs/UltraMeeting");
    match storage_base(None, None) {
        Err(RecordingError::Other(m)) => assert_eq!(m, "no storage root"),
        _ => panic!("expected an error"),
    }
    assert_eq!(recordings_root("/docs/UltraMeeting"), "/docs/UltraMeeting/recordings");
}

#[test]
fn whole_recording_cycle_hands_over_folder() {
    let mut c = coordinator(RecordingState::Idle);
    assert!(c.begin_session().is_ok());
    let start = Timestamp::from_unix(1_700_000_000, 0).unwrap();
    c.attach_session(SessionStorage::with_start("/b/recordings/s1".into(), "M", start, 1));
    assert!(c.prepare_recording(Some("USB".into())).is_ok());
    assert_eq!(c.session().unwrap().metadata.capture.mic_device, "USB");
    c.note_remote_samples(5);
    assert!(c.start_recording(Some(1_700_000_000)).is_ok());
    assert!(matches!(c.state(), RecordingState::Recording));
    assert_eq!(c.remote_samples_ingested(), 0);
    c.note_remote_samples(48_000);
    c.note_remote_samples(48_000);
    assert_eq!(c.remote_samples_ingested(), 96_000);
    assert_eq!(c.recording_duration_secs_at(1_700_000_002), Some(2));
    assert_eq!(c.recording_metrics_snapshot_at(Some(1), Some(2), 1_700_000_002), Some((1, 2, 96_000, 2)));
    assert_eq!(c.recording_metrics_snapshot_at(None, Some(2), 1_700_000_002), None);
    assert!(c.begin_stop().is_ok());
    assert_eq!(c.recording_metrics_snapshot_at(Some(1), Some(2), 1_700_000_002), None);
    let end = Timestamp::from_unix(1_700_000_090, 0).unwrap();
    assert!(c.finalize_meeting(end));
    assert_eq!(c.session().unwrap().metadata.meeting.duration_seconds, Some(90));
    c.request_cancel_processing();
    assert!(c.begin_processing().is_ok());
    assert!(!c.cancel_requested());
    assert_eq!(c.recording_duration_secs_at(1_700_000_100), None);
    let job = c.transcription_job().unwrap();
    assert_eq!(job.root, "/b/recordings/s1");
    assert_eq!(job.transcript_path, "/b/transcripts/s1/transcript.md");
    c.set_transcription_progress(100);
    assert_eq!(c.transcription_progress(), 100);
    assert!(c.complete_session().is_ok());
    assert!(matches!(c.state(), RecordingState::Idle));
    assert!(c.session().is_none());
    assert_eq!(c.take_last_completed_recording_path(), Some("/b/recordings/s1".to_string()));
    assert_eq!(c.take_last_completed_recording_path(), None);
}

#[test]
fn recording_needs_a_session() {
    let mut c = coordinator(RecordingState::Preparing);
    match c.prepare_recording(None) {
        Err(RecordingError::InvalidState(m)) => assert_eq!(m, "no session"),
        _ => panic!("expected InvalidState"),
    }
    match c.start_recording(Some(1_700_000_000)) {
        Err(RecordingError::InvalidState(m)) => assert_eq!(m, "no session"),
        _ => panic!("expected InvalidState"),
    }
    assert!(matches!(c.state(), RecordingState::Preparing));
    assert_eq!(c.recording_duration_secs_at(1_700_000_010), None);
}

#[test]
fn recording_starts_only_from_preparing() {
    let start = Timestamp::from_unix(1_700_000_000, 0).unwrap();
    let mut idle = coordinator(RecordingState::Idle);
    idle.attach_session(SessionStorage::with_start("/r".into(), "M", start.duplicate(), 1));
    match idle.start_recording(Some(1_700_000_000)) {
        Err(RecordingError::InvalidState(m)) => assert_eq!(m, "cannot record from Idle"),
        _ => panic!("expected InvalidState"),
    }
    assert!(matches!(idle.state(), RecordingState::Idle));
    let mut c = coordinator(RecordingState::Preparing);
    c.attach_session(SessionStorage::with_start("/r".into(), "M", start, 1));
    assert_eq!(
        other_message(c.start_recording(None)),
        "second time provided was later than self"
    );
    assert!(matches!(c.state(), RecordingState::Recording));
    assert_eq!(c.recording_duration_secs_at(1_700_000_010), None);
}

#[test]
fn refused_stop_keeps_state_and_session() {
    let mut c = coordinator(RecordingState::Preparing);
    let start = Timestamp::from_unix(1_700_000_000, 0).unwrap();
    c.attach_session(SessionStorage::with_start("/r".into(), "M", start, 1));
    match c.begin_stop() {
        Err(RecordingError::InvalidState(m)) => assert_eq!(m, "cannot stop from Preparing"),
        _ => panic!("expected InvalidState"),
    }
    assert!(matches!(c.state(), RecordingState::Preparing));
    assert!(c.session().is_some());
    let mut busy = coordinator(RecordingState::Recording);
    match busy.begin_session() {
        Err(RecordingError::InvalidState(m)) => assert_eq!(m, "cannot start from Recording"),
        _ => panic!("expected InvalidState"),
    }
    assert!(matches!(busy.state(), RecordingState::Recording));
}

#[test]
fn finished_processing_leaves_no_session_to_record() {
    let mut c = coordinator(RecordingState::Processing);
    let start = Timestamp::from_unix(1_700_000_000, 0).unwrap();
    c.attach_session(SessionStorage::with_start("/r".into(), "M", start, 1));
    assert!(c.finish_processing());
    assert!(c.session().is_none());
    match c.prepare_recording(None) {
        Err(RecordingError::InvalidState(m)) => assert_eq!(m, "no session"),
        _ => panic!("expected InvalidState"),
    }
}

#[test]
fn default_mic_device_is_recorded() {
    let mut c = coordinator(RecordingState::Idle);
    let start = Timestamp::from_unix(1_700_000_000, 0).unwrap();
    c.attach_session(SessionStorage::with_start("/r".into(), "M", start, 1));
    assert!(c.prepare_recording(None).is_ok());
    assert_eq!(c.session().unwrap().metadata.capture.mic_device, "default");
}

#[test]
fn negative_meeting_duration_counts_as_zero() {
    let mut c = coordinator(RecordingState::Stopping);
    let start = Timestamp::from_unix(1_700_000_000, 0).unwrap();
    c.attach_session(SessionStorage::with_start("/r".into(), "M", start, 1));
    let earlier = Timestamp::from_unix(1_699_999_000, 0).unwrap();
    assert!(c.finalize_meeting(earlier.duplicate()));
    assert_eq!(c.session().unwrap().metadata.meeting.duration_seconds, Some(0));
    let mut none = coordinator(RecordingState::Stopping);
    assert!(!none.finalize_meeting(earlier));
}

#[test]
fn errors_are_recorded_and_cleared_by_new_session() {
    let mut c = coordinator(RecordingState::Processing);
    c.set_error("transcription failed".into());
    assert_eq!(c.last_error(), Some("transcription failed".to_string()));
    assert!(matches!(c.state(), RecordingState::Error(_)));
    assert!(c.finish_processing());
    assert!(matches!(c.state(), RecordingState::Idle));
    assert!(!c.finish_processing());
    let start = Timestamp::from_unix(1_700_000_000, 0).unwrap();
    c.attach_session(SessionStorage::with_start("/r".into(), "M", start, 1));
    assert_eq!(c.last_error(), None);
}

#[test]
fn transcribe_later_bookkeeping() {
    let mut c = coordinator(RecordingState::Idle);
    assert!(c.check_can_transcribe_later().is_ok());
    c.begin_transcribe_later("/old/session".into());
    assert_eq!(c.transcribing_session_path(), Some("/old/session".to_string()));
    assert_eq!(other_message(c.check_can_transcribe_later()), "already transcribing another session");
    c.end_transcribe_later("/old/session".into(), Some("model missing".into()));
    assert_eq!(c.transcribing_session_path(), None);
    assert_eq!(c.transcription_progress(), 100);
    assert_eq!(c.last_error(), Some("model missing".to_string()));
    assert_eq!(c.take_last_completed_recording_path(), Some("/old/session".to_string()));
    assert_eq!(other_message(check_session_folder(false, false)), "session folder does not exist");
    assert_eq!(other_message(check_session_folder(true, false)), "path is not a directory");
    assert!(check_session_folder(true, true).is_ok());
}

#[test]
fn metrics_json_and_state_names() {
    assert_eq!(remote_samples_per_sec(96_000, 2), 48_000);
    assert_eq!(remote_samples_per_sec(96_000, 0), 0);
    assert_eq!(
        recording_metrics_json((3, 0, 96000, 2)),
        "{\"mic_overruns\":3,\"remote_overruns\":0,\"remote_samples\":96000,\"duration_secs\":2,\"remote_samples_per_sec\":48000}"
    );
    assert_eq!(reported_state_name(None), "idle");
    assert_eq!(reported_state_name(Some(&RecordingState::Stopping)), "stopping");
}

#[test]
fn clock_readings_are_after_1970() {
    assert!(ultra_meeting_core::time::mach_time_ns() > 0);
    assert!(ultra_meeting_core::time::unix_time_secs().unwrap() > 1_600_000_000);
    let c = coordinator(RecordingState::Idle);
    assert_eq!(c.recording_duration_secs(), None);
}

#[test]
fn c_interface_reports_only_while_active() {
    assert_eq!(reported_duration_secs(Some(&RecordingState::Recording), Some(12)), 12);
    assert_eq!(reported_duration_secs(Some(&RecordingState::Stopping), Some(12)), 0);
    assert_eq!(reported_duration_secs(None, None), 0);
    assert_eq!(reported_progress(Some(&RecordingState::Processing), 40), 40);
    assert_eq!(reported_progress(Some(&RecordingState::Processing), 250), 100);
    assert_eq!(reported_progress(Some(&RecordingState::Idle), 40), 0);
    assert_eq!(reported_progress(None, 40), 0);
    let mut c = coordinator(RecordingState::Processing);
    c.set_transcription_progress(130);
    assert_eq!(c.transcription_progress(), 100);
}

#[test]
fn writer_errors_reach_the_caller() {
    assert!(writers_outcome(Ok(()), Ok(())).is_ok());
    assert!(matches!(writers_outcome(Err(RecordingError::DiskFull), Ok(())), Err(RecordingError::DiskFull)));
    assert_eq!(
        other_message(writers_outcome(Err(RecordingError::DiskFull), Err(RecordingError::Other("flush".into())))),
        "flush"
    );
}

#[test]
fn failed_transcription_moves_to_error_then_idle() {
    let mut c = coordinator(RecordingState::Processing);
    let start = Timestamp::from_unix(1_700_000_000, 0).unwrap();
    c.attach_session(SessionStorage::with_start("/b/recordings/s2".into(), "M", start, 1));
    c.end_transcription(Some("model missing".into()));
    assert!(matches!(c.state(), RecordingState::Error(_)));
    assert_eq!(c.transcription_progress(), 100);
    assert_eq!(c.last_error(), Some("model missing".to_string()));
    assert!(c.complete_session().is_ok());
    assert!(matches!(c.state(), RecordingState::Idle));
    assert_eq!(c.take_last_completed_recording_path(), Some("/b/recordings/s2".to_string()));
}

#[test]
fn booked_chunks_reach_transcription() {
    let mut c = coordinator(RecordingState::Preparing);
    let start = Timestamp::from_unix(1_700_000_000, 0).unwrap();
    c.attach_session(SessionStorage::with_start("/b/recordings/s3".into(), "M", start, 1));
    assert!(c.start_recording(Some(1_700_000_000)).is_ok());
    {
        let s = c.session_mut().unwrap();
        s.record_mic_chunk(0);
        s.record_mic_chunk(1);
        s.record_remote_chunk(0, true);
    }
    assert!(c.begin_stop().is_ok());
    assert!(c.finalize_meeting(Timestamp::from_unix(1_700_000_012, 0).unwrap()));
    assert!(c.begin_processing().is_ok());
    let job = c.transcription_job().unwrap();
    assert_eq!((job.mic_chunks, job.remote_chunks), (2, 1));
    assert_eq!(c.session().unwrap().metadata.meeting.duration_seconds, Some(12));
}
