//! Recording error types.

use vstd::prelude::*;
use crate::text::push_str;

verus! {

/// Why a recording operation failed. Errors raised by the file system, the
/// serializers or the WAV codec are carried as their messages.
#[derive(Debug)]
pub enum RecordingError {
    PermissionDenied(String),
    DeviceNotFound(String),
    DeviceDisconnected(String),
    DiskFull,
    BufferOverrun,
    TranscriptionFailed(String),
    InvalidState(String),
    Io(String),
    Json(String),
    Yaml(String),
    Wav(String),
    Other(String),
}

/// The text shown for an error.
pub open spec fn error_message(e: RecordingError) -> Seq<char> {
    match e {
        RecordingError::PermissionDenied(m) => "Permission denied: "@ + m@,
        RecordingError::DeviceNotFound(m) => "Device not found: "@ + m@,
        RecordingError::DeviceDisconnected(m) => "Device disconnected: "@ + m@,
        RecordingError::DiskFull => "Disk full"@,
        RecordingError::BufferOverrun => "Buffer overrun"@,
        RecordingError::TranscriptionFailed(m) => "Transcription failed: "@ + m@,
        RecordingError::InvalidState(m) => "Invalid state: "@ + m@,
        RecordingError::Io(m) => "IO error: "@ + m@,
        RecordingError::Json(m) => "JSON error: "@ + m@,
        RecordingError::Yaml(m) => "YAML error: "@ + m@,
        RecordingError::Wav(m) => "WAV error: "@ + m@,
        RecordingError::Other(m) => m@,
    }
}

impl RecordingError {
    /// The text shown for this error (what its `Display` form prints).
    pub fn message(&self) -> (r: String)
        ensures
            r@ == error_message(*self),
    {
        let mut r = String::new();
        match self {
            RecordingError::PermissionDenied(m) => {
                push_str(&mut r, "Permission denied: ");
                push_str(&mut r, m.as_str());
            },
            RecordingError::DeviceNotFound(m) => {
                push_str(&mut r, "Device not found: ");
                push_str(&mut r, m.as_str());
            },
            RecordingError::DeviceDisconnected(m) => {
                push_str(&mut r, "Device disconnected: ");
                push_str(&mut r, m.as_str());
            },
            RecordingError::DiskFull => {
                push_str(&mut r, "Disk full");
            },
            RecordingError::BufferOverrun => {
                push_str(&mut r, "Buffer overrun");
            },
            RecordingError::TranscriptionFailed(m) => {
                push_str(&mut r, "Transcription failed: ");
                push_str(&mut r, m.as_str());
            },
            RecordingError::InvalidState(m) => {
                push_str(&mut r, "Invalid state: ");
                push_str(&mut r, m.as_str());
            },
            RecordingError::Io(m) => {
                push_str(&mut r, "IO error: ");
                push_str(&mut r, m.as_str());
            },
            RecordingError::Json(m) => {
                push_str(&mut r, "JSON error: ");
                push_str(&mut r, m.as_str());
            },
            RecordingError::Yaml(m) => {
                push_str(&mut r, "YAML error: ");
                push_str(&mut r, m.as_str());
            },
            RecordingError::Wav(m) => {
                push_str(&mut r, "WAV error: ");
                push_str(&mut r, m.as_str());
            },
            RecordingError::Other(m) => {
                push_str(&mut r, m.as_str());
            },
        }
        r
    }
}

} // verus!
