//! Session coordinator: the decisions of the recording lifecycle. The
//! application around this crate owns the audio devices, writer threads, files
//! and locks; it asks the coordinator at each step what to do, performs the
//! outside work, and reports back.

use vstd::prelude::*;
use crate::error::RecordingError;
use crate::state::{
    guarded_outcome, reset_moves, reset_target, step_target, RecordingState, StateMachine, Step,
};
use crate::storage::{
    ends_in_component, join_path, owned, path_join, transcript_path_for_root, SessionStorage,
};
use crate::environment::clock_unreadable;
use crate::time::{clock_secs, unix_time_secs, Timestamp};

verus! {

/// What the coordinator remembers, seen abstractly.
pub struct CoordinatorModel {
    pub state: RecordingState,
    pub storage_path: Seq<char>,
    pub state_path: Seq<char>,
    pub session: Option<SessionStorage>,
    pub last_error: Option<Seq<char>>,
    pub recording_start_secs: Option<u64>,
    pub transcription_progress: u32,
    pub remote_samples_ingested: u64,
    pub cancel_processing_requested: bool,
    pub transcribing_session_path: Option<Seq<char>>,
    pub last_completed_recording_path: Option<Seq<char>>,
}

/// The view of an optional string.
pub open spec fn opt_view(s: Option<String>) -> Option<Seq<char>> {
    match s {
        Some(x) => Some(x@),
        None => None,
    }
}

/// Taking the last completed path: the path is handed out and forgotten.
pub open spec fn take_completed(m: CoordinatorModel) -> (Option<Seq<char>>, CoordinatorModel) {
    (m.last_completed_recording_path, CoordinatorModel { last_completed_recording_path: None, ..m })
}

/// After closing a session: the state finishes (Processing or Error → Idle,
/// otherwise unchanged), the session's folder becomes the last completed
/// recording, and no session stays open.
pub open spec fn after_complete(m: CoordinatorModel) -> CoordinatorModel {
    CoordinatorModel {
        state: match step_target(Step::Finish, m.state) {
            Some(t) => t,
            None => m.state,
        },
        session: None,
        last_completed_recording_path: match m.session {
            Some(s) => Some(s.root@),
            None => m.last_completed_recording_path,
        },
        ..m
    }
}

/// A finished recording is handed over exactly once: closing a session being
/// processed returns to Idle with its folder as the last completed recording;
/// the first take yields that folder and a second take yields nothing.
pub proof fn lemma_finished_recording_handed_over_once(m: CoordinatorModel, root: Seq<char>)
    requires
        m.state is Processing,
        m.session matches Some(s) && s.root@ == root,
    ensures
        after_complete(m).state is Idle,
        after_complete(m).session is None,
        take_completed(after_complete(m)).0 == Some(root),
        take_completed(take_completed(after_complete(m)).1).0 is None,
{
}

/// Seconds a recording has run at clock time `now` (never negative).
pub open spec fn duration_at(start: Option<u64>, now: u64) -> Option<u64> {
    match start {
        Some(s) => Some(if now >= s { (now - s) as u64 } else { 0 }),
        None => None,
    }
}

/// Remote samples per second over a recording, 0 for a recording under a second.
pub open spec fn samples_per_sec(samples: u64, duration_secs: u64) -> u64 {
    if duration_secs > 0 {
        samples / duration_secs
    } else {
        0
    }
}

/// Remote samples per second over a recording.
pub fn remote_samples_per_sec(samples: u64, duration_secs: u64) -> (r: u64)
    ensures
        r == samples_per_sec(samples, duration_secs),
{
    if duration_secs > 0 {
        samples / duration_secs
    } else {
        0
    }
}

/// Where a session's recordings folder lies: under the given storage root,
/// else under `UltraMeeting` in the documents directory; an error when neither is known.
pub fn storage_base(storage_root: Option<String>, documents_dir: Option<String>) -> (r: Result<
    String,
    RecordingError,
>)
    ensures
        match (storage_root, documents_dir) {
            (Some(s), _) => r matches Ok(b) && b@ == s@,
            (None, Some(d)) => r matches Ok(b) && b@ == path_join(d@, "UltraMeeting"@),
            (None, None) => r matches Err(RecordingError::Other(m)) && m@ == "no storage root"@,
        },
{
    match storage_root {
        Some(s) => Ok(s),
        None => match documents_dir {
            Some(d) => Ok(join_path(d.as_str(), "UltraMeeting")),
            None => Err(RecordingError::Other(owned("no storage root"))),
        },
    }
}

/// The folder that holds the recordings under a storage base. It ends in
/// the component `recordings`, so the session folders made under it have it
/// as their parent.
pub fn recordings_root(base: &str) -> (r: String)
    ensures
        r@ == path_join(base@, "recordings"@),
        ends_in_component(r@),
{
    let r = join_path(base, "recordings");
    proof {
        reveal_strlit("recordings");
        reveal_strlit(".");
        assert(r@.last() == 's');
        if r@ == "."@ {
            assert(r@.last() == '.');
        }
    }
    r
}

/// Checks that a folder to transcribe later exists and is a directory.
pub fn check_session_folder(exists: bool, is_dir: bool) -> (r: Result<(), RecordingError>)
    ensures
        exists && is_dir ==> r is Ok,
        !exists ==> (r matches Err(RecordingError::Other(m)) && m@
            == "session folder does not exist"@),
        exists && !is_dir ==> (r matches Err(RecordingError::Other(m)) && m@
            == "path is not a directory"@),
{
    if !exists {
        return Err(RecordingError::Other(owned("session folder does not exist")));
    }
    if !is_dir {
        return Err(RecordingError::Other(owned("path is not a directory")));
    }
    Ok(())
}

/// What stopping the two track writers comes to: the remote writer's flush
/// error when its flush failed, else the microphone writer's error (such as a
/// full disk), else success. On an error the stop ends there, with the
/// recording left at Stopping and the error handed to the caller.
pub fn writers_outcome(mic: Result<(), RecordingError>, remote: Result<(), RecordingError>) -> (r: Result<
    (),
    RecordingError,
>)
    ensures
        r == (match remote {
            Err(e) => Err(e),
            Ok(()) => mic,
        }),
{
    match remote {
        Err(e) => Err(e),
        Ok(()) => mic,
    }
}

/// The work a finished recording hands to transcription.
#[derive(Debug)]
pub struct TranscriptionJob {
    pub root: String,
    pub transcript_path: String,
    pub mic_chunks: u32,
    pub remote_chunks: u32,
}

#[derive(Debug)]
pub struct SessionCoordinator {
    state_machine: StateMachine,
    session_storage: Option<SessionStorage>,
    last_error: Option<String>,
    recording_start_secs: Option<u64>,
    transcription_progress: u32,
    remote_samples_ingested: u64,
    cancel_processing_requested: bool,
    transcribing_session_path: Option<String>,
    last_completed_recording_path: Option<String>,
}

impl View for SessionCoordinator {
    type V = CoordinatorModel;

    open spec fn view(&self) -> CoordinatorModel {
        CoordinatorModel {
            state: self.spec_machine().spec_state(),
            storage_path: self.spec_machine().spec_storage_path(),
            state_path: self.spec_machine().spec_state_path(),
            session: self.spec_session(),
            last_error: self.spec_last_error(),
            recording_start_secs: self.spec_recording_start_secs(),
            transcription_progress: self.spec_transcription_progress(),
            remote_samples_ingested: self.spec_remote_samples_ingested(),
            cancel_processing_requested: self.spec_cancel_processing_requested(),
            transcribing_session_path: self.spec_transcribing_session_path(),
            last_completed_recording_path: self.spec_last_completed_recording_path(),
        }
    }
}

impl SessionCoordinator {
    /// The state machine inside.
    pub closed spec fn spec_machine(&self) -> StateMachine {
        self.state_machine
    }

    /// The open session, if any.
    pub closed spec fn spec_session(&self) -> Option<SessionStorage> {
        self.session_storage
    }

    /// The last error message recorded.
    pub closed spec fn spec_last_error(&self) -> Option<Seq<char>> {
        opt_view(self.last_error)
    }

    /// When the current recording started, in seconds since the Unix epoch.
    pub closed spec fn spec_recording_start_secs(&self) -> Option<u64> {
        self.recording_start_secs
    }

    /// Transcription progress in percent.
    pub closed spec fn spec_transcription_progress(&self) -> u32 {
        self.transcription_progress
    }

    /// Remote samples handed in since recording started.
    pub closed spec fn spec_remote_samples_ingested(&self) -> u64 {
        self.remote_samples_ingested
    }

    /// Whether the user asked to stop processing early.
    pub closed spec fn spec_cancel_processing_requested(&self) -> bool {
        self.cancel_processing_requested
    }

    /// The folder being transcribed later, if any.
    pub closed spec fn spec_transcribing_session_path(&self) -> Option<Seq<char>> {
        opt_view(self.transcribing_session_path)
    }

    /// The folder of the last completed recording, not yet handed out.
    pub closed spec fn spec_last_completed_recording_path(&self) -> Option<Seq<char>> {
        opt_view(self.last_completed_recording_path)
    }

    /// A coordinator with no session, around a state machine.
    pub fn new(state_machine: StateMachine) -> (r: Self)
        ensures
            r@ == (CoordinatorModel {
                state: state_machine.spec_state(),
                storage_path: state_machine.spec_storage_path(),
                state_path: state_machine.spec_state_path(),
                session: None,
                last_error: None,
                recording_start_secs: None,
                transcription_progress: 0,
                remote_samples_ingested: 0,
                cancel_processing_requested: false,
                transcribing_session_path: None,
                last_completed_recording_path: None,
            }),
            r.spec_machine() == state_machine,
    {
        SessionCoordinator {
            state_machine,
            session_storage: None,
            last_error: None,
            recording_start_secs: None,
            transcription_progress: 0,
            remote_samples_ingested: 0,
            cancel_processing_requested: false,
            transcribing_session_path: None,
            last_completed_recording_path: None,
        }
    }

    /// The state machine, to persist its state.
    pub fn state_machine(&self) -> (r: &StateMachine)
        ensures
            *r == self.spec_machine(),
    {
        &self.state_machine
    }

    /// Recovers from an interrupted recording: any state other than Idle or
    /// Preparing is reset to Idle. Returns whether the state moved.
    pub fn init(&mut self) -> (moved: bool)
        ensures
            moved == reset_moves(old(self)@.state),
            final(self)@ == (CoordinatorModel { state: reset_target(old(self)@.state), ..old(self)@ }),
            final(self).spec_machine().spec_state_path() == old(self).spec_machine().spec_state_path(),
    {
        self.state_machine.reset_interrupted()
    }

    /// First step of creating a session: Idle → Preparing.
    pub fn begin_session(&mut self) -> (r: Result<(), RecordingError>)
        ensures
            guarded_outcome(Step::StartPreparing, old(self).spec_machine(), final(self).spec_machine(), r),
            final(self)@ == (CoordinatorModel { state: final(self)@.state, ..old(self)@ }),
    {
        self.state_machine.start_preparing()
    }

    /// Last step of creating a session: the new session becomes the open one
    /// and any earlier error is forgotten.
    pub fn attach_session(&mut self, storage: SessionStorage)
        ensures
            final(self)@ == (CoordinatorModel {
                session: Some(storage),
                last_error: None,
                ..old(self)@
            }),
            final(self).spec_session() == Some(storage),
            final(self).spec_machine() == old(self).spec_machine(),
    {
        self.session_storage = Some(storage);
        self.last_error = None;
    }

    /// The open session.
    pub fn session(&self) -> (r: Option<&SessionStorage>)
        ensures
            match r {
                Some(s) => self.spec_session() == Some(*s),
                None => self.spec_session() is None,
            },
    {
        match &self.session_storage {
            Some(s) => Some(s),
            None => None,
        }
    }

    /// The open session, to book chunks into.
    pub fn session_mut(&mut self) -> (r: Option<&mut SessionStorage>)
        ensures
            match r {
                Some(s) => old(self).spec_session() == Some(*s) && final(self).spec_session() == Some(*final(s)),
                None => old(self).spec_session() is None && final(self).spec_session() is None,
            },
            final(self).spec_machine() == old(self).spec_machine(),
            final(self)@ == (CoordinatorModel { session: final(self)@.session, ..old(self)@ }),
    {
        match &mut self.session_storage {
            Some(s) => Some(s),
            None => None,
        }
    }

    /// Before the microphone opens: there must be a session; the chosen
    /// device (or "default") is recorded in its metadata.
    pub fn prepare_recording(&mut self, mic_device: Option<String>) -> (r: Result<(), RecordingError>)
        ensures
            match old(self).spec_session() {
                None => r matches Err(RecordingError::InvalidState(m)) && m@ == "no session"@
                    && *final(self) == *old(self),
                Some(s) => r is Ok && final(self)@ == (CoordinatorModel {
                    session: final(self)@.session,
                    ..old(self)@
                }) && final(self).spec_machine() == old(self).spec_machine() && (final(self).spec_session() matches Some(t) && t.root == s.root
                    && t.metadata.capture.mic_device@ == (match mic_device {
                    Some(d) => d@,
                    None => "default"@,
                }) && t.metadata.capture.remote_source == s.metadata.capture.remote_source
                    && t.metadata.capture.remote_method == s.metadata.capture.remote_method
                    && t.metadata.version == s.metadata.version && t.metadata.format
                    == s.metadata.format && t.metadata.meeting == s.metadata.meeting
                    && t.metadata.audio == s.metadata.audio && t.metadata.sync == s.metadata.sync
                    && t.metadata.transcription == s.metadata.transcription),
            },
    {
        match &mut self.session_storage {
            None => Err(RecordingError::InvalidState(owned("no session"))),
            Some(s) => {
                s.metadata.capture.mic_device = match mic_device {
                    Some(d) => d,
                    None => owned("default"),
                };
                Ok(())
            },
        }
    }

    /// After the microphone opened: Preparing → Recording, for the open
    /// session. Refused without a session (nothing changes) and from any
    /// state but Preparing (nothing changes). Once the state has moved, the
    /// recording clock starts at `now_secs` (seconds since the Unix epoch) and
    /// the remote sample count restarts from 0; when the clock could not be
    /// read (`None`) the state has moved but the clock and count are left
    /// as they were, and the error says so.
    pub fn start_recording(&mut self, now_secs: Option<u64>) -> (r: Result<(), RecordingError>)
        ensures
            old(self).spec_session() is None ==> (r matches Err(RecordingError::InvalidState(m))
                && m@ == "no session"@ && *final(self) == *old(self)),
            old(self).spec_session() is Some ==> final(self).spec_session() == old(self).spec_session(),
            old(self).spec_session() is Some && !(old(self)@.state is Preparing) ==> guarded_outcome(
                Step::StartRecording,
                old(self).spec_machine(),
                final(self).spec_machine(),
                r,
            ) && final(self)@ == old(self)@,
            old(self).spec_session() is Some && old(self)@.state is Preparing ==> {
                &&& final(self).spec_machine().spec_storage_path() == old(self).spec_machine().spec_storage_path()
                &&& final(self).spec_machine().spec_state_path() == old(self).spec_machine().spec_state_path()
                &&& match now_secs {
                    Some(secs) => r is Ok && final(self)@ == (CoordinatorModel {
                        state: RecordingState::Recording,
                        recording_start_secs: Some(secs),
                        remote_samples_ingested: 0,
                        ..old(self)@
                    }),
                    None => (r matches Err(RecordingError::Other(m)) && m@
                        == "second time provided was later than self"@) && final(self)@ == (
                    CoordinatorModel { state: RecordingState::Recording, ..old(self)@ }),
                }
            },
    {
        if self.session_storage.is_none() {
            return Err(RecordingError::InvalidState(owned("no session")));
        }
        let moved = self.state_machine.start_recording();
        if moved.is_err() {
            return moved;
        }
        match now_secs {
            Some(t) => {
                self.recording_start_secs = Some(t);
                self.remote_samples_ingested = 0;
                Ok(())
            },
            None => Err(RecordingError::Other(owned("second time provided was later than self"))),
        }
    }

    /// Counts remote samples handed in (the count wraps around like the atomic counter it models).
    pub fn note_remote_samples(&mut self, n: u64)
        ensures
            final(self)@ == (CoordinatorModel {
                remote_samples_ingested: ((old(self)@.remote_samples_ingested + n) % 0x1_0000_0000_0000_0000) as u64,
                ..old(self)@
            }),
            final(self).spec_machine() == old(self).spec_machine(),
    {
        self.remote_samples_ingested = self.remote_samples_ingested.wrapping_add(n);
    }

    /// Remote samples handed in since recording started.
    pub fn remote_samples_ingested(&self) -> (r: u64)
        ensures
            r == self@.remote_samples_ingested,
    {
        self.remote_samples_ingested
    }

    /// First step of stopping: Recording → Stopping.
    pub fn begin_stop(&mut self) -> (r: Result<(), RecordingError>)
        ensures
            guarded_outcome(Step::StopRecording, old(self).spec_machine(), final(self).spec_machine(), r),
            final(self)@ == (CoordinatorModel { state: final(self)@.state, ..old(self)@ }),
    {
        self.state_machine.stop_recording()
    }

    /// Writes the end of the meeting into the open session's metadata: the
    /// end time, and the whole seconds since its start (0 when negative).
    /// Returns whether there was a session to update.
    pub fn finalize_meeting(&mut self, end_time: Timestamp) -> (updated: bool)
        ensures
            updated == old(self).spec_session() is Some,
            final(self)@ == (CoordinatorModel { session: final(self)@.session, ..old(self)@ }),
            final(self).spec_machine() == old(self).spec_machine(),
            match (old(self).spec_session(), final(self).spec_session()) {
                (Some(s), Some(t)) => {
                    let secs = s.metadata.meeting.start_time.seconds_until(end_time);
                    &&& t.root == s.root
                    &&& t.metadata.meeting.end_time == Some(end_time)
                    &&& t.metadata.meeting.duration_seconds == Some(
                        if secs >= 0 { secs as u64 } else { 0 },
                    )
                    &&& t.metadata.meeting.name == s.metadata.meeting.name
                    &&& t.metadata.meeting.start_time == s.metadata.meeting.start_time
                    &&& t.metadata.version == s.metadata.version
                    &&& t.metadata.format == s.metadata.format
                    &&& t.metadata.audio == s.metadata.audio
                    &&& t.metadata.sync == s.metadata.sync
                    &&& t.metadata.capture == s.metadata.capture
                    &&& t.metadata.transcription == s.metadata.transcription
                },
                (None, None) => true,
                _ => false,
            },
    {
        match &mut self.session_storage {
            Some(s) => {
                let secs: i64 = s.metadata.meeting.start_time.whole_seconds_until(&end_time);
                s.metadata.meeting.end_time = Some(end_time);
                s.metadata.meeting.duration_seconds = Some(
                    if secs >= 0 {
                        secs as u64
                    } else {
                        0
                    },
                );
                true
            },
            None => false,
        }
    }

    /// Stopping → Processing; on success a pending cancel request is cleared
    /// and the recording clock is stopped.
    pub fn begin_processing(&mut self) -> (r: Result<(), RecordingError>)
        ensures
            guarded_outcome(Step::StartProcessing, old(self).spec_machine(), final(self).spec_machine(), r),
            r is Ok ==> final(self)@ == (CoordinatorModel {
                state: final(self)@.state,
                cancel_processing_requested: false,
                recording_start_secs: None,
                ..old(self)@
            }),
            r is Err ==> final(self)@ == old(self)@,
    {
        let r = self.state_machine.start_processing();
        if r.is_ok() {
            self.cancel_processing_requested = false;
            self.recording_start_secs = None;
        }
        r
    }

    /// What transcription needs from the open session: its folder, where the
    /// transcript goes, and how many chunks each track has.
    pub fn transcription_job(&self) -> (r: Option<TranscriptionJob>)
        ensures
            match self.spec_session() {
                Some(s) => r matches Some(j) && j.root == s.root && j.transcript_path@
                    == transcript_path_for_root(s.root@) && j.mic_chunks
                    == s.metadata.audio.mic_chunks && j.remote_chunks
                    == s.metadata.audio.remote_chunks,
                None => r is None,
            },
    {
        match &self.session_storage {
            Some(s) => Some(
                TranscriptionJob {
                    root: s.root.clone(),
                    transcript_path: s.transcript_output_path(),
                    mic_chunks: s.metadata.audio.mic_chunks,
                    remote_chunks: s.metadata.audio.remote_chunks,
                },
            ),
            None => None,
        }
    }

    /// Sets the transcription progress in percent; a value above 100 is
    /// kept as 100.
    pub fn set_transcription_progress(&mut self, percent: u32)
        ensures
            final(self)@ == (CoordinatorModel {
                transcription_progress: if percent <= 100 {
                    percent
                } else {
                    100
                },
                ..old(self)@
            }),
            final(self).spec_machine() == old(self).spec_machine(),
    {
        self.transcription_progress = if percent <= 100 {
            percent
        } else {
            100
        };
    }

    /// Transcription of the stopped recording ended, with an error message if
    /// it failed: the error is recorded (moving to `Error`), and progress is
    /// 100 either way.
    pub fn end_transcription(&mut self, error: Option<String>)
        ensures
            final(self)@ == (CoordinatorModel {
                state: match error {
                    Some(e) => RecordingState::Error(e),
                    None => old(self)@.state,
                },
                last_error: match error {
                    Some(e) => Some(e@),
                    None => old(self)@.last_error,
                },
                transcription_progress: 100,
                ..old(self)@
            }),
    {
        if let Some(e) = error {
            self.set_error(e);
        }
        self.transcription_progress = 100;
    }

    /// Last step of stopping: the session's folder becomes the last completed
    /// recording, the session is closed, and Processing (or Error) → Idle.
    pub fn complete_session(&mut self) -> (r: Result<(), RecordingError>)
        ensures
            guarded_outcome(Step::Finish, old(self).spec_machine(), final(self).spec_machine(), r),
            final(self)@ == after_complete(old(self)@),
    {
        if let Some(s) = &self.session_storage {
            self.last_completed_recording_path = Some(s.root.clone());
        }
        self.session_storage = None;
        self.state_machine.finish()
    }

    pub fn state(&self) -> (r: RecordingState)
        ensures
            r == self@.state,
    {
        self.state_machine.state().duplicate()
    }

    /// Seconds the recording has run at clock time `now_secs` (seconds since
    /// the Unix epoch); `None` when not recording.
    pub fn recording_duration_secs_at(&self, now_secs: u64) -> (r: Option<u64>)
        ensures
            r == duration_at(self@.recording_start_secs, now_secs),
    {
        match self.recording_start_secs {
            Some(s) => Some(now_secs.saturating_sub(s)),
            None => None,
        }
    }

    /// Seconds the recording has run until now; `None` when not recording (or
    /// when the system clock is set before 1970).
    pub fn recording_duration_secs(&self) -> (r: Option<u64>)
        ensures
            self@.recording_start_secs is None ==> r is None,
            r is Some ==> exists|now: u64|
                clock_secs(now) && r == #[trigger] duration_at(self@.recording_start_secs, now),
            self@.recording_start_secs is Some && r is None ==> clock_unreadable(),
    {
        match unix_time_secs() {
            Some(now) => self.recording_duration_secs_at(now),
            None => None,
        }
    }

    pub fn last_error(&self) -> (r: Option<String>)
        ensures
            opt_view(r) == self@.last_error,
    {
        match &self.last_error {
            Some(e) => Some(e.clone()),
            None => None,
        }
    }

    /// Records an error message and moves to `Error(msg)`.
    pub fn set_error(&mut self, msg: String)
        ensures
            final(self)@ == (CoordinatorModel {
                state: RecordingState::Error(msg),
                last_error: Some(msg@),
                ..old(self)@
            }),
            final(self).spec_machine().spec_state_path() == old(self).spec_machine().spec_state_path(),
    {
        self.last_error = Some(msg.clone());
        self.state_machine.set_error(msg);
    }

    /// Request that processing (transcription) stop early. Checked between batches.
    pub fn request_cancel_processing(&mut self)
        ensures
            final(self)@ == (CoordinatorModel { cancel_processing_requested: true, ..old(self)@ }),
            final(self).spec_machine() == old(self).spec_machine(),
    {
        self.cancel_processing_requested = true;
    }

    /// Whether the user asked to stop processing early.
    pub fn cancel_requested(&self) -> (r: bool)
        ensures
            r == self@.cancel_processing_requested,
    {
        self.cancel_processing_requested
    }

    /// Force transition from Processing/Error to Idle. Call when background thread panics or to recover.
    /// The session is closed either way; returns whether the state moved.
    pub fn finish_processing(&mut self) -> (moved: bool)
        ensures
            moved == (step_target(Step::Finish, old(self)@.state) is Some),
            final(self)@ == (CoordinatorModel {
                state: match step_target(Step::Finish, old(self)@.state) {
                    Some(t) => t,
                    None => old(self)@.state,
                },
                session: None,
                ..old(self)@
            }),
            final(self).spec_machine().spec_state_path() == old(self).spec_machine().spec_state_path(),
    {
        self.session_storage = None;
        match self.state_machine.finish() {
            Ok(()) => true,
            Err(_) => false,
        }
    }

    pub fn transcription_progress(&self) -> (r: u32)
        ensures
            r == self@.transcription_progress,
    {
        self.transcription_progress
    }

    /// Path of session currently being transcribed (transcribe-later). None when idle.
    pub fn transcribing_session_path(&self) -> (r: Option<String>)
        ensures
            opt_view(r) == self@.transcribing_session_path,
    {
        match &self.transcribing_session_path {
            Some(p) => Some(p.clone()),
            None => None,
        }
    }

    /// Take and return the path of the last completed session (for Swift to insert into DB).
    pub fn take_last_completed_recording_path(&mut self) -> (r: Option<String>)
        ensures
            (opt_view(r), final(self)@) == take_completed(old(self)@),
            final(self).spec_machine() == old(self).spec_machine(),
    {
        let r = self.last_completed_recording_path.take();
        r
    }

    /// Before transcribing a folder later: refused while another is being transcribed.
    pub fn check_can_transcribe_later(&self) -> (r: Result<(), RecordingError>)
        ensures
            self@.transcribing_session_path is None ==> r is Ok,
            self@.transcribing_session_path is Some ==> (r matches Err(RecordingError::Other(m))
                && m@ == "already transcribing another session"@),
    {
        match &self.transcribing_session_path {
            Some(_) => Err(RecordingError::Other(owned("already transcribing another session"))),
            None => Ok(()),
        }
    }

    /// A later transcription of `path` begins: it is marked as the folder being
    /// transcribed, progress starts at 0 and any cancel request is cleared.
    pub fn begin_transcribe_later(&mut self, path: String)
        ensures
            final(self)@ == (CoordinatorModel {
                transcribing_session_path: Some(path@),
                transcription_progress: 0,
                cancel_processing_requested: false,
                ..old(self)@
            }),
            final(self).spec_machine() == old(self).spec_machine(),
    {
        self.transcribing_session_path = Some(path);
        self.transcription_progress = 0;
        self.cancel_processing_requested = false;
    }

    /// A later transcription of `path` ended, with an error message if it
    /// failed: the error is recorded (moving to `Error`), the folder becomes
    /// the last completed recording, progress is 100 and nothing is being
    /// transcribed any more.
    pub fn end_transcribe_later(&mut self, path: String, error: Option<String>)
        ensures
            final(self)@ == (CoordinatorModel {
                state: match error {
                    Some(e) => RecordingState::Error(e),
                    None => old(self)@.state,
                },
                last_error: match error {
                    Some(e) => Some(e@),
                    None => old(self)@.last_error,
                },
                last_completed_recording_path: Some(path@),
                transcription_progress: 100,
                transcribing_session_path: None,
                ..old(self)@
            }),
            final(self).spec_machine().spec_state_path() == old(self).spec_machine().spec_state_path(),
    {
        if let Some(e) = error {
            self.set_error(e);
        }
        self.last_completed_recording_path = Some(path);
        self.transcription_progress = 100;
        self.transcribing_session_path = None;
    }

    /// Snapshot of recording metrics when recording, at clock time `now_secs`:
    /// (mic_overruns, remote_overruns, remote_samples, duration_secs). `None`
    /// when not recording or when a writer is missing.
    pub fn recording_metrics_snapshot_at(
        &self,
        mic_overruns: Option<u64>,
        remote_overruns: Option<u64>,
        now_secs: u64,
    ) -> (r: Option<(u64, u64, u64, u64)>)
        ensures
            r == (if self@.state is Recording && mic_overruns is Some && remote_overruns is Some {
                Some(
                    (
                        mic_overruns->0,
                        remote_overruns->0,
                        self@.remote_samples_ingested,
                        match duration_at(self@.recording_start_secs, now_secs) {
                            Some(d) => d,
                            None => 0,
                        },
                    ),
                )
            } else {
                None
            }),
    {
        if !self.state_machine.state().is_recording() {
            return None;
        }
        let duration: u64 = match self.recording_duration_secs_at(now_secs) {
            Some(d) => d,
            None => 0,
        };
        match (mic_overruns, remote_overruns) {
            (Some(m), Some(rm)) => Some((m, rm, self.remote_samples_ingested, duration)),
            _ => None,
        }
    }
}

/// Handing out the last completed path forgets it: a second take finds nothing.
pub proof fn lemma_completed_path_taken_once(m: CoordinatorModel)
    ensures
        take_completed(take_completed(m).1).0 is None,
        take_completed(m).1.state == m.state,
{
}

/// Progress never passes 100 percent while the batches done do not exceed the total.
pub proof fn lemma_progress_bounded(current: u32, total: u32)
    requires
        current <= total,
        current * 100 <= u32::MAX,
    ensures
        crate::transcription::percent_done(current, total) <= 100,
        current == total ==> crate::transcription::percent_done(current, total) == 100,
{
    if total > 0 {
        assert((current * 100) / (total as int) <= 100) by (nonlinear_arith)
            requires
                current <= total,
                total > 0,
        ;
        if current == total {
            assert((total * 100) / (total as int) == 100) by (nonlinear_arith)
                requires
                    total > 0,
            ;
        }
    }
}

} // verus!
