use ultra_meeting_core::storage::SessionStorage;
use ultra_meeting_core::time::Timestamp;
use ultra_meeting_core::transcription::{
    batch_bounds, batch_count, default_transcription_info, progress_percent, render_markdown,
    total_batches, BatchCursor, SegmentLine, TranscriptionPipeline, SAMPLES_PER_BATCH_16K,
};
use ultra_meeting_core::error::RecordingError;

#[test]
fn model_path_under_home() {
    let p = TranscriptionPipeline::new(Some("/home/u".to_string())).unwrap();
    assert_eq!(p.model_path(), "/home/u/.ultra-meeting/models/ggml-base.en.bin");
    assert_eq!(TranscriptionPipeline::models_dir("/home/u"), "/home/u/.ultra-meeting/models");
    match TranscriptionPipeline::new(None) {
        Err(RecordingError::Other(m)) => assert_eq!(m, "no home dir"),
        _ => panic!("expected an error"),
    }
}

#[test]
fn transcription_info_names_model() {
    let info = default_transcription_info("/m/ggml-base.en.bin");
    assert_eq!(info.model_path, "/m/ggml-base.en.bin");
    assert_eq!(info.model_strategy, "whisper-ggml-base-en");
}

#[test]
fn batches_cover_audio() {
    assert_eq!(batch_count(0), 0);
    assert_eq!(batch_count(1), 1);
    assert_eq!(batch_count(960_000), 1);
    assert_eq!(batch_count(960_001), 2);
    assert_eq!(total_batches(0, 0), 1);
    assert_eq!(total_batches(960_001, 5), 3);
    assert_eq!(batch_bounds(0, 1_000_000), (0, 960_000));
    assert_eq!(batch_bounds(1, 1_000_000), (960_000, 1_000_000));
}

#[test]
fn progress_in_percent() {
    assert_eq!(progress_percent(0, 4), 0);
    assert_eq!(progress_percent(1, 3), 33);
    assert_eq!(progress_percent(4, 4), 100);
    assert_eq!(progress_percent(0, 0), 100);
}

#[test]
fn markdown_transcript_layout() {
    let start = Timestamp::from_unix(1_709_915_400, 0).unwrap();
    let mut s = SessionStorage::with_start("/r".to_string(), "Standup", start, 0);
    s.metadata.meeting.duration_seconds = Some(1800);
    let segs = vec![
        SegmentLine { timestamp: "00:00:01".into(), speaker: "You (mic)".into(), text: "Hello".into() },
        SegmentLine { timestamp: "00:00:05".into(), speaker: "Remote".into(), text: "Hi".into() },
    ];
    let md = render_markdown(&s.metadata, &segs);
    assert_eq!(
        md,
        "---\nversion: 1\nmeeting: Standup\ndate: 2024-03-08\nduration: 1800\nparticipants:\n  - You (mic)\n  - Remote\n---\n\n# Standup\n\n**Date**: March 08, 2024\n\n## Transcript\n\n**[00:00:01] You (mic)**: Hello\n\n**[00:00:05] Remote**: Hi\n\n"
    );
    s.metadata.meeting.duration_seconds = None;
    let empty = render_markdown(&s.metadata, &Vec::new());
    assert!(empty.contains("duration: 0\n"));
    assert!(empty.ends_with("## Transcript\n\n"));
}

#[test]
fn batches_run_mic_first_then_remote() {
    let mic = SAMPLES_PER_BATCH_16K + 10;
    let remote = 5;
    let mut cursor = BatchCursor::new(mic, remote);
    let mut seen = Vec::new();
    while !cursor.finished() {
        let w = cursor.next_batch();
        seen.push((w.remote, w.start, w.end, w.completed));
    }
    assert_eq!(
        seen,
        vec![
            (false, 0, SAMPLES_PER_BATCH_16K, 1),
            (false, SAMPLES_PER_BATCH_16K, SAMPLES_PER_BATCH_16K + 10, 2),
            (true, 0, 5, 3),
        ]
    );
    assert_eq!(progress_percent(3, 3), 100);
    assert!(BatchCursor::new(0, 0).finished());
}

#[test]
fn progress_only_grows() {
    let mut last = 0;
    for done in 0..=7 {
        let p = progress_percent(done, 7);
        assert!(p >= last);
        last = p;
    }
    assert_eq!(last, 100);
}
