//! Ultra Meeting core: the recording state machine, session and storage
//! layout, capture and transcription decisions, each with its contract.

pub mod capture;
pub mod environment;
pub mod error;
pub mod ffi;
pub mod naming;
pub mod places;
pub mod session;
pub mod state;
pub mod storage;
pub mod text;
pub mod time;
pub mod transcription;

pub use error::RecordingError;
pub use state::{RecordingState, StateMachine};
pub use storage::{SessionMetadata, SessionStorage};
pub use transcription::TranscriptionPipeline;
