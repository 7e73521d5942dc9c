use ultra_meeting_core::naming::sanitize_meeting_name;
use ultra_meeting_core::storage::{chunk_path_in, join_path, SessionMetadata, SessionStorage};
use ultra_meeting_core::time::Timestamp;

fn storage_at(root: &str) -> SessionStorage {
    let start = Timestamp::from_unix(1_700_000_000, 0).unwrap();
    SessionStorage::with_start(root.to_string(), "Standup", start, 42)
}

#[test]
fn sanitize_replaces_specials_and_joins_words() {
    assert_eq!(sanitize_meeting_name("Team Standup!"), "Team-Standup_");
    assert_eq!(sanitize_meeting_name("  a   b  "), "a-b");
    assert_eq!(sanitize_meeting_name("--x--"), "x");
    assert_eq!(sanitize_meeting_name("a/b\\c"), "a_b_c");
    assert_eq!(sanitize_meeting_name("Café Δ 2024"), "Café-Δ-2024");
    assert_eq!(sanitize_meeting_name(""), "");
    assert_eq!(sanitize_meeting_name(" - "), "");
}

#[test]
fn sanitize_cuts_to_eighty_characters() {
    let long = "x".repeat(100);
    assert_eq!(sanitize_meeting_name(&long), "x".repeat(80));
    let with_gap = format!("{} b", "a".repeat(79));
    let out = sanitize_meeting_name(&with_gap);
    assert_eq!(out.chars().count(), 80);
    assert!(out.ends_with('-'));
    assert!(!sanitize_meeting_name("-lead").starts_with('-'));
}

#[test]
fn path_join_follows_unix_rules() {
    assert_eq!(join_path("/a", "b"), "/a/b");
    assert_eq!(join_path("/a/", "b"), "/a/b");
    assert_eq!(join_path("", "b"), "b");
    assert_eq!(join_path("/a", "/b"), "/b");
}

#[test]
fn chunk_paths_are_zero_padded() {
    let s = storage_at("/r/recordings/s1");
    assert_eq!(s.mic_chunk_path(0), "/r/recordings/s1/mic_000.wav");
    assert_eq!(s.mic_chunk_path(7), "/r/recordings/s1/mic_007.wav");
    assert_eq!(s.remote_chunk_path(42), "/r/recordings/s1/remote_042.wav");
    assert_eq!(s.remote_chunk_path(1234), "/r/recordings/s1/remote_1234.wav");
    assert_ne!(s.mic_chunk_path(12), s.mic_chunk_path(120));
    assert_eq!(s.transcript_path(), "/r/recordings/s1/transcript.md");
    assert_eq!(s.metadata_path(), "/r/recordings/s1/metadata.yaml");
}

#[test]
fn transcript_path_for_recordings_layout() {
    assert_eq!(
        SessionStorage::transcript_output_path_for_session_root("/base/recordings/2024_abc"),
        "/base/transcripts/2024_abc/transcript.md"
    );
    assert_eq!(
        SessionStorage::transcript_output_path_for_session_root("/base/recordings/2024_abc/"),
        "/base/transcripts/2024_abc/transcript.md"
    );
    assert_eq!(SessionStorage::transcript_output_path_for_session_root("/"), "/transcript.md");
    assert_eq!(SessionStorage::transcript_output_path_for_session_root("abc"), "abc/transcript.md");
    let s = storage_at("/x/recordings/id9");
    assert_eq!(s.transcript_output_path(), "/x/transcripts/id9/transcript.md");
}

#[test]
fn session_folder_name_from_stamp_and_uuid() {
    let p = SessionStorage::session_folder_path_from(
        "/r/recordings",
        "2024-03-08_16-30-00",
        "67e55044-10b1-426f-9247-bb680e5fe0c8",
    );
    assert_eq!(p, "/r/recordings/2024-03-08_16-30-00_67e5504410b1");
    let short = SessionStorage::session_folder_path_from("/r", "s", "ab-c");
    assert_eq!(short, "/r/s_abc");
}

#[test]
fn session_folder_path_has_stamp_and_twelve_hex_digits() {
    let p = SessionStorage::session_folder_path("/r/recordings", "Standup").unwrap();
    let name = p.strip_prefix("/r/recordings/").unwrap();
    let (stamp, id) = name.rsplit_once('_').unwrap();
    assert_eq!(stamp.len(), "2024-03-08_16-30-00".len());
    assert_eq!(id.len(), 12);
    assert!(id.chars().all(|c| c.is_ascii_hexdigit() && !c.is_ascii_uppercase()));
    let q = SessionStorage::session_folder_path("/r/recordings", "Standup").unwrap();
    assert_ne!(p, q);
}

#[test]
fn new_session_metadata_defaults() {
    let s = storage_at("/root/s");
    let m = &s.metadata;
    assert_eq!(m.version, 1);
    assert_eq!(m.format, "ultra-meeting-v1");
    assert_eq!(m.meeting.name, "Standup");
    assert_eq!(m.meeting.start_time.unix_seconds(), 1_700_000_000);
    assert!(m.meeting.end_time.is_none());
    assert_eq!(m.audio.sample_rate, 48000);
    assert_eq!(m.audio.channels, 1);
    assert_eq!(m.audio.format, "16-bit PCM");
    assert_eq!(m.audio.mic_chunks, 0);
    assert_eq!(m.sync.clock_base, "mach_absolute_time");
    assert_eq!(m.sync.start_timestamp, 42);
    assert!(m.sync.drift_corrections.is_empty());
    assert_eq!(m.capture.mic_device, "default");
    assert_eq!(m.capture.remote_source, "");
    assert_eq!(m.capture.remote_method, "ScreenCaptureKit");
    assert!(m.transcription.is_none());
}

#[test]
fn default_metadata_is_untitled() {
    let start = Timestamp::from_unix(1_700_000_000, 0).unwrap();
    let m = SessionMetadata::default_at(start);
    assert_eq!(m.meeting.name, "Untitled");
    assert_eq!(m.sync.start_timestamp, 0);
    assert_eq!(m.meeting.start_time.unix_seconds(), 1_700_000_000);
    let created = SessionStorage::create("/c".to_string(), "Retro").unwrap();
    assert_eq!(created.root, "/c");
    assert_eq!(created.metadata.meeting.name, "Retro");
    assert!(created.metadata.sync.start_timestamp > 0);
    assert!(created.metadata.meeting.start_time.unix_seconds() > 1_600_000_000);
}

#[test]
fn timestamps_format_and_measure() {
    let t = Timestamp::from_unix(1_709_915_400, 0).unwrap();
    assert_eq!(t.format("%Y-%m-%d_%H-%M-%S"), "2024-03-08_16-30-00");
    assert_eq!(t.format("%Y-%m-%d"), "2024-03-08");
    assert_eq!(t.format("%B %d, %Y"), "March 08, 2024");
    let later = Timestamp::from_unix(1_709_917_200, 500_000_000).unwrap();
    assert_eq!(t.whole_seconds_until(&later), 1800);
    assert_eq!(later.whole_seconds_until(&t), -1800);
    assert!(Timestamp::from_unix(i64::MAX, 0).is_none());
}

#[test]
fn now_is_after_1970_and_not_a_leap_second() {
    let t = Timestamp::now().unwrap();
    assert!(t.unix_seconds() > 1_600_000_000);
    assert!(t.subsec_nanos() < 1_000_000_000);
}

#[test]
fn sanitizing_twice_changes_nothing() {
    for name in ["Team Standup!", "  a   b  ", "--x--", "Café Δ 2024", "tab\there", ""] {
        let once = sanitize_meeting_name(name);
        assert_eq!(sanitize_meeting_name(&once), once);
    }
}

#[test]
fn instants_from_clock_nanoseconds() {
    let t = Timestamp::from_unix_nanos(1_700_000_000_500_000_000).unwrap();
    assert_eq!(t.unix_seconds(), 1_700_000_000);
    assert_eq!(t.subsec_nanos(), 500_000_000);
    assert!(Timestamp::from_unix_nanos(u128::MAX).is_none());
}

#[test]
fn leap_second_counts_toward_whole_seconds() {
    let in_leap = Timestamp::from_unix(59, 1_500_000_000).unwrap();
    let after = Timestamp::from_unix(61, 0).unwrap();
    assert_eq!(in_leap.whole_seconds_until(&after), 1);
    let a = Timestamp::from_unix(100, 700_000_000).unwrap();
    let b = Timestamp::from_unix(98, 900_000_000).unwrap();
    assert_eq!(a.whole_seconds_until(&b), -1);
    assert!(Timestamp::from_unix(58, 1_500_000_000).is_none());
}

#[test]
fn chunk_paths_from_a_folder_alone() {
    assert_eq!(chunk_path_in("/r/s1", "mic", 3), "/r/s1/mic_003.wav");
    assert_eq!(chunk_path_in("/r/s1", "remote", 10), storage_at("/r/s1").remote_chunk_path(10));
}

#[test]
fn new_session_transcript_goes_under_transcripts() {
    let p = SessionStorage::session_folder_path("/b/recordings", "Standup").unwrap();
    let name = p.strip_prefix("/b/recordings/").unwrap();
    assert!(!name.contains('/'));
    assert_eq!(
        SessionStorage::transcript_output_path_for_session_root(&p),
        format!("/b/transcripts/{}/transcript.md", name)
    );
}
