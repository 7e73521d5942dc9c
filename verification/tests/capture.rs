use ultra_meeting_core::capture::{
    choose_input_device, classify_wav_error, input_channels, no_input_device_error,
    select_input_config, InputConfigRange, InputDeviceChoice, InputSampleFormat, WavErrorClass,
    chunk_is_full, ChunkCursor, CHUNK_DURATION_SEC, METADATA_EVERY_CHUNKS, MIC_RING_CAPACITY,
    REMOTE_RING_CAPACITY, SAMPLES_PER_CHUNK, SAMPLE_RATE,
};
use ultra_meeting_core::error::RecordingError;
use ultra_meeting_core::storage::SessionStorage;
use ultra_meeting_core::time::Timestamp;

fn range(f: InputSampleFormat, min: u32, max: u32) -> InputConfigRange {
    InputConfigRange { sample_format: f, min_sample_rate: min, max_sample_rate: max, channels: 2 }
}

#[test]
fn picks_first_config_supporting_48k() {
    let ranges = vec![
        range(InputSampleFormat::Other, 8000, 96000),
        range(InputSampleFormat::F32, 8000, 44100),
        range(InputSampleFormat::I16, 48000, 48000),
        range(InputSampleFormat::U16, 8000, 96000),
    ];
    assert_eq!(select_input_config(&ranges).unwrap(), 2);
}

#[test]
fn no_usable_config_is_device_not_found() {
    let ranges = vec![range(InputSampleFormat::F32, 8000, 16000)];
    match select_input_config(&ranges) {
        Err(RecordingError::DeviceNotFound(m)) => {
            assert_eq!(m, "no 48 kHz input configuration with f32/i16/u16 samples")
        }
        _ => panic!("expected DeviceNotFound"),
    }
}

#[test]
fn device_choice_by_name_then_default() {
    let devices = Some(vec![None, Some("USB Mic".to_string()), Some("USB Mic".to_string())]);
    assert!(matches!(
        choose_input_device(&devices, &Some("USB Mic".to_string())),
        InputDeviceChoice::Listed(1)
    ));
    assert!(matches!(
        choose_input_device(&devices, &Some("Other".to_string())),
        InputDeviceChoice::HostDefault
    ));
    assert!(matches!(choose_input_device(&devices, &None), InputDeviceChoice::HostDefault));
    assert!(matches!(choose_input_device(&None, &Some("USB Mic".to_string())), InputDeviceChoice::HostDefault));
    assert_eq!(no_input_device_error().message(), "Device not found: no input device");
}

#[test]
fn channels_are_at_least_one() {
    assert_eq!(input_channels(0), 1);
    assert_eq!(input_channels(2), 2);
}

#[test]
fn chunk_fills_at_five_seconds() {
    assert!(!chunk_is_full(239_999));
    assert!(chunk_is_full(240_000));
}

#[test]
fn chunk_booking_and_metadata_checkpoints() {
    let start = Timestamp::from_unix(1_700_000_000, 0).unwrap();
    let mut s = SessionStorage::with_start("/s".to_string(), "m", start, 0);
    let (path, write) = s.record_mic_chunk(0);
    assert_eq!(path, "/s/mic_000.wav");
    assert!(write);
    assert_eq!(s.metadata.audio.mic_chunks, 1);
    let (_, write) = s.record_mic_chunk(5);
    assert!(!write);
    let (_, write) = s.record_mic_chunk(12);
    assert!(write);
    assert_eq!(s.metadata.audio.mic_chunks, 13);
    assert!(!s.record_remote_chunk(3, false));
    assert!(s.record_remote_chunk(3, true));
    assert!(s.record_remote_chunk(24, false));
    assert_eq!(s.metadata.audio.remote_chunks, 25);
}

#[test]
fn wav_errors_are_classified() {
    assert!(matches!(classify_wav_error("No space left on device (os error 28)", Some(false)), WavErrorClass::DiskFull));
    assert!(matches!(classify_wav_error("Disk full", None), WavErrorClass::DiskFull));
    assert!(matches!(classify_wav_error("io", Some(true)), WavErrorClass::DiskFull));
    assert!(matches!(classify_wav_error("permission denied", Some(false)), WavErrorClass::Io));
    assert!(matches!(classify_wav_error("unsupported format", None), WavErrorClass::Other));
}

#[test]
fn error_messages_match_display_text() {
    assert_eq!(RecordingError::DiskFull.message(), "Disk full");
    assert_eq!(RecordingError::BufferOverrun.message(), "Buffer overrun");
    assert_eq!(RecordingError::PermissionDenied("mic".into()).message(), "Permission denied: mic");
    assert_eq!(RecordingError::DeviceDisconnected("x".into()).message(), "Device disconnected: x");
    assert_eq!(RecordingError::TranscriptionFailed("t".into()).message(), "Transcription failed: t");
    assert_eq!(RecordingError::InvalidState("s".into()).message(), "Invalid state: s");
    assert_eq!(RecordingError::Io("i".into()).message(), "IO error: i");
    assert_eq!(RecordingError::Json("j".into()).message(), "JSON error: j");
    assert_eq!(RecordingError::Yaml("y".into()).message(), "YAML error: y");
    assert_eq!(RecordingError::Wav("w".into()).message(), "WAV error: w");
    assert_eq!(RecordingError::Other("plain".into()).message(), "plain");
}

#[test]
fn chunk_geometry_constants() {
    assert_eq!(SAMPLES_PER_CHUNK as u64, SAMPLE_RATE as u64 * CHUNK_DURATION_SEC);
    assert_eq!(MIC_RING_CAPACITY, 4 * SAMPLES_PER_CHUNK);
    assert_eq!(REMOTE_RING_CAPACITY, 8 * SAMPLES_PER_CHUNK);
    assert_eq!(METADATA_EVERY_CHUNKS as u64 * CHUNK_DURATION_SEC, 60);
}

#[test]
fn mic_and_remote_chunks_never_collide() {
    let start = Timestamp::from_unix(1_700_000_000, 0).unwrap();
    let s = SessionStorage::with_start("/s".to_string(), "m", start, 0);
    for i in 0..20 {
        for j in 0..20 {
            assert_ne!(s.mic_chunk_path(i), s.remote_chunk_path(j));
            if i != j {
                assert_ne!(s.mic_chunk_path(i), s.mic_chunk_path(j));
            }
        }
    }
}

#[test]
fn samples_are_cut_into_chunks_in_order() {
    let mut cursor = ChunkCursor::new();
    let mut written = Vec::new();
    for _ in 0..(2 * SAMPLES_PER_CHUNK + 5) {
        if let Some(i) = cursor.add_sample() {
            written.push(i);
        }
    }
    assert_eq!(written, vec![0, 1]);
    assert_eq!(cursor.index, 2);
    assert_eq!(cursor.buffered, 5);
    assert_eq!(cursor.final_chunk(), Some(2));
    let mut exact = ChunkCursor::new();
    let mut full = 0;
    for _ in 0..SAMPLES_PER_CHUNK {
        if exact.add_sample().is_some() {
            full += 1;
        }
    }
    assert_eq!(full, 1);
    assert_eq!(exact.final_chunk(), None);
    assert_eq!(ChunkCursor::new().final_chunk(), None);
}
