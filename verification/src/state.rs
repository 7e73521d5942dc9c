//! Recording state machine.

use vstd::prelude::*;
use crate::error::RecordingError;
use crate::text::{debug_str, push_str, spec_debug_str};

verus! {

/// Where a recording is in its life.
#[derive(Debug)]
pub enum RecordingState {
    Idle,
    Preparing,
    Recording,
    Stopping,
    Processing,
    Error(String),
    Failed(String),
}

/// The lowercase name of a state, as the app shows it.
pub open spec fn state_name(s: RecordingState) -> Seq<char> {
    match s {
        RecordingState::Idle => "idle"@,
        RecordingState::Preparing => "preparing"@,
        RecordingState::Recording => "recording"@,
        RecordingState::Stopping => "stopping"@,
        RecordingState::Processing => "processing"@,
        RecordingState::Error(_) => "error"@,
        RecordingState::Failed(_) => "failed"@,
    }
}

/// The `Debug` form of a state: the variant's name, with the message quoted for
/// `Error` and `Failed`.
pub open spec fn state_debug(s: RecordingState) -> Seq<char> {
    match s {
        RecordingState::Idle => "Idle"@,
        RecordingState::Preparing => "Preparing"@,
        RecordingState::Recording => "Recording"@,
        RecordingState::Stopping => "Stopping"@,
        RecordingState::Processing => "Processing"@,
        RecordingState::Error(m) => "Error("@ + spec_debug_str(m@) + ")"@,
        RecordingState::Failed(m) => "Failed("@ + spec_debug_str(m@) + ")"@,
    }
}

/// The guarded moves of the lifecycle.
#[derive(Debug)]
pub enum Step {
    StartPreparing,
    StartRecording,
    StopRecording,
    StartProcessing,
    Finish,
}

/// The state a guarded move leads to, or `None` where the move is refused.
pub open spec fn step_target(step: Step, s: RecordingState) -> Option<RecordingState> {
    match step {
        Step::StartPreparing => match s {
            RecordingState::Idle => Some(RecordingState::Preparing),
            _ => None,
        },
        Step::StartRecording => match s {
            RecordingState::Preparing => Some(RecordingState::Recording),
            _ => None,
        },
        Step::StopRecording => match s {
            RecordingState::Recording => Some(RecordingState::Stopping),
            _ => None,
        },
        Step::StartProcessing => match s {
            RecordingState::Stopping => Some(RecordingState::Processing),
            _ => None,
        },
        Step::Finish => match s {
            RecordingState::Processing => Some(RecordingState::Idle),
            RecordingState::Error(_) => Some(RecordingState::Idle),
            _ => None,
        },
    }
}

/// The verb that a refusal message uses for each move.
pub open spec fn step_verb(step: Step) -> Seq<char> {
    match step {
        Step::StartPreparing => "start"@,
        Step::StartRecording => "record"@,
        Step::StopRecording => "stop"@,
        Step::StartProcessing => "process"@,
        Step::Finish => "finish"@,
    }
}

/// The message of the `InvalidState` error that refuses `step` from `s`.
pub open spec fn refusal_message(step: Step, s: RecordingState) -> Seq<char> {
    "cannot "@ + step_verb(step) + " from "@ + state_debug(s)
}

/// The state after crash recovery: idle, unless nothing had started yet.
pub open spec fn reset_target(s: RecordingState) -> RecordingState {
    match s {
        RecordingState::Idle => RecordingState::Idle,
        RecordingState::Preparing => RecordingState::Preparing,
        _ => RecordingState::Idle,
    }
}

/// Whether crash recovery moves (and so persists) the state.
pub open spec fn reset_moves(s: RecordingState) -> bool {
    !(s is Idle || s is Preparing)
}

impl RecordingState {
    pub fn display_name(&self) -> (r: &'static str)
        ensures
            r@ == state_name(*self),
    {
        match self {
            RecordingState::Idle => "idle",
            RecordingState::Preparing => "preparing",
            RecordingState::Recording => "recording",
            RecordingState::Stopping => "stopping",
            RecordingState::Processing => "processing",
            RecordingState::Error(_) => "error",
            RecordingState::Failed(_) => "failed",
        }
    }

    /// A copy of this state.
    pub fn duplicate(&self) -> (r: RecordingState)
        ensures
            r == *self,
    {
        match self {
            RecordingState::Idle => RecordingState::Idle,
            RecordingState::Preparing => RecordingState::Preparing,
            RecordingState::Recording => RecordingState::Recording,
            RecordingState::Stopping => RecordingState::Stopping,
            RecordingState::Processing => RecordingState::Processing,
            RecordingState::Error(m) => RecordingState::Error(m.clone()),
            RecordingState::Failed(m) => RecordingState::Failed(m.clone()),
        }
    }

    /// The `Debug` form of this state.
    pub fn debug_text(&self) -> (r: String)
        ensures
            r@ == state_debug(*self),
    {
        let mut r = String::new();
        match self {
            RecordingState::Idle => push_str(&mut r, "Idle"),
            RecordingState::Preparing => push_str(&mut r, "Preparing"),
            RecordingState::Recording => push_str(&mut r, "Recording"),
            RecordingState::Stopping => push_str(&mut r, "Stopping"),
            RecordingState::Processing => push_str(&mut r, "Processing"),
            RecordingState::Error(m) => {
                push_str(&mut r, "Error(");
                let d = debug_str(m.as_str());
                push_str(&mut r, d.as_str());
                push_str(&mut r, ")");
            },
            RecordingState::Failed(m) => {
                push_str(&mut r, "Failed(");
                let d = debug_str(m.as_str());
                push_str(&mut r, d.as_str());
                push_str(&mut r, ")");
            },
        }
        r
    }

    /// Whether this is the `Recording` state.
    pub fn is_recording(&self) -> (r: bool)
        ensures
            r == (*self is Recording),
    {
        match self {
            RecordingState::Recording => true,
            _ => false,
        }
    }
}

/// The recording state together with the two places the app keeps files:
/// where recordings go, and where the state is persisted.
#[derive(Debug)]
pub struct StateMachine {
    state: RecordingState,
    storage_path: String,
    state_path: String,
}

impl StateMachine {
    pub closed spec fn spec_state(&self) -> RecordingState {
        self.state
    }

    pub closed spec fn spec_storage_path(&self) -> Seq<char> {
        self.storage_path@
    }

    pub closed spec fn spec_state_path(&self) -> Seq<char> {
        self.state_path@
    }

    /// A state machine resuming from the persisted state, if one could be
    /// read, and idle otherwise.
    pub fn new(persisted: Option<RecordingState>, storage_path: String, state_path: String) -> (r:
        Self)
        ensures
            r.spec_state() == (match persisted {
                Some(s) => s,
                None => RecordingState::Idle,
            }),
            r.spec_storage_path() == storage_path@,
            r.spec_state_path() == state_path@,
    {
        let state = match persisted {
            Some(s) => s,
            None => RecordingState::Idle,
        };
        StateMachine { state, storage_path, state_path }
    }

    pub fn state(&self) -> (r: &RecordingState)
        ensures
            *r == self.spec_state(),
    {
        &self.state
    }

    /// Moves to `new` unconditionally. The caller persists the new state.
    pub fn transition_to(&mut self, new: RecordingState)
        ensures
            final(self).spec_state() == new,
            final(self).spec_storage_path() == old(self).spec_storage_path(),
            final(self).spec_state_path() == old(self).spec_state_path(),
    {
        self.state = new;
    }

    fn guarded(&mut self, step: Step, allowed: bool, target: RecordingState) -> (r: Result<
        (),
        RecordingError,
    >)
        requires
            allowed == (step_target(step, old(self).spec_state()) is Some),
            allowed ==> step_target(step, old(self).spec_state()) == Some(target),
        ensures
            guarded_outcome(step, *old(self), *final(self), r),
    {
        if allowed {
            self.transition_to(target);
            Ok(())
        } else {
            let mut msg = String::new();
            push_str(&mut msg, "cannot ");
            match step {
                Step::StartPreparing => push_str(&mut msg, "start"),
                Step::StartRecording => push_str(&mut msg, "record"),
                Step::StopRecording => push_str(&mut msg, "stop"),
                Step::StartProcessing => push_str(&mut msg, "process"),
                Step::Finish => push_str(&mut msg, "finish"),
            }
            push_str(&mut msg, " from ");
            let d = self.state.debug_text();
            push_str(&mut msg, d.as_str());
            Err(RecordingError::InvalidState(msg))
        }
    }

    /// Idle → Preparing; refused from any other state.
    pub fn start_preparing(&mut self) -> (r: Result<(), RecordingError>)
        ensures
            guarded_outcome(Step::StartPreparing, *old(self), *final(self), r),
    {
        let allowed = match &self.state {
            RecordingState::Idle => true,
            _ => false,
        };
        self.guarded(Step::StartPreparing, allowed, RecordingState::Preparing)
    }

    /// Preparing → Recording; refused from any other state.
    pub fn start_recording(&mut self) -> (r: Result<(), RecordingError>)
        ensures
            guarded_outcome(Step::StartRecording, *old(self), *final(self), r),
    {
        let allowed = match &self.state {
            RecordingState::Preparing => true,
            _ => false,
        };
        self.guarded(Step::StartRecording, allowed, RecordingState::Recording)
    }

    /// Recording → Stopping; refused from any other state.
    pub fn stop_recording(&mut self) -> (r: Result<(), RecordingError>)
        ensures
            guarded_outcome(Step::StopRecording, *old(self), *final(self), r),
    {
        let allowed = match &self.state {
            RecordingState::Recording => true,
            _ => false,
        };
        self.guarded(Step::StopRecording, allowed, RecordingState::Stopping)
    }

    /// Stopping → Processing; refused from any other state.
    pub fn start_processing(&mut self) -> (r: Result<(), RecordingError>)
        ensures
            guarded_outcome(Step::StartProcessing, *old(self), *final(self), r),
    {
        let allowed = match &self.state {
            RecordingState::Stopping => true,
            _ => false,
        };
        self.guarded(Step::StartProcessing, allowed, RecordingState::Processing)
    }

    /// Processing or Error → Idle; refused from any other state.
    pub fn finish(&mut self) -> (r: Result<(), RecordingError>)
        ensures
            guarded_outcome(Step::Finish, *old(self), *final(self), r),
    {
        let allowed = match &self.state {
            RecordingState::Processing => true,
            RecordingState::Error(_) => true,
            _ => false,
        };
        self.guarded(Step::Finish, allowed, RecordingState::Idle)
    }

    /// Moves to `Error(msg)` from any state.
    pub fn set_error(&mut self, msg: String)
        ensures
            final(self).spec_state() == RecordingState::Error(msg),
            final(self).spec_storage_path() == old(self).spec_storage_path(),
            final(self).spec_state_path() == old(self).spec_state_path(),
    {
        self.transition_to(RecordingState::Error(msg))
    }

    /// Moves to `Failed(msg)` from any state.
    pub fn set_failed(&mut self, msg: String)
        ensures
            final(self).spec_state() == RecordingState::Failed(msg),
            final(self).spec_storage_path() == old(self).spec_storage_path(),
            final(self).spec_state_path() == old(self).spec_state_path(),
    {
        self.transition_to(RecordingState::Failed(msg))
    }

    /// Force reset to Idle (for crash recovery when state was Recording/Stopping/Processing).
    /// Returns whether the state moved (and so has to be persisted).
    pub fn reset_interrupted(&mut self) -> (moved: bool)
        ensures
            moved == reset_moves(old(self).spec_state()),
            final(self).spec_state() == reset_target(old(self).spec_state()),
            final(self).spec_storage_path() == old(self).spec_storage_path(),
            final(self).spec_state_path() == old(self).spec_state_path(),
    {
        match &self.state {
            RecordingState::Idle | RecordingState::Preparing => false,
            _ => {
                self.transition_to(RecordingState::Idle);
                true
            },
        }
    }

    pub fn storage_path(&self) -> (r: &String)
        ensures
            r@ == self.spec_storage_path(),
    {
        &self.storage_path
    }

    /// Where the state is persisted.
    pub fn state_path(&self) -> (r: &String)
        ensures
            r@ == self.spec_state_path(),
    {
        &self.state_path
    }
}

/// What a guarded move does: where it is allowed, the state moves to its
/// target and the call succeeds; elsewhere the state is untouched and the call
/// fails with `InvalidState` and the refusal message. The paths never change.
pub open spec fn guarded_outcome(
    step: Step,
    before: StateMachine,
    after: StateMachine,
    r: Result<(), RecordingError>,
) -> bool {
    &&& after.spec_storage_path() == before.spec_storage_path()
    &&& after.spec_state_path() == before.spec_state_path()
    &&& match step_target(step, before.spec_state()) {
        Some(t) => r is Ok && after.spec_state() == t,
        None => after.spec_state() == before.spec_state() && (match r {
            Err(RecordingError::InvalidState(m)) => m@ == refusal_message(step, before.spec_state()),
            _ => false,
        }),
    }
}

/// The position of a state in the normal lifecycle (Error and Failed have none).
pub open spec fn lifecycle_rank(s: RecordingState) -> int {
    match s {
        RecordingState::Idle => 0,
        RecordingState::Preparing => 1,
        RecordingState::Recording => 2,
        RecordingState::Stopping => 3,
        RecordingState::Processing => 4,
        _ => -1,
    }
}

/// The normal lifecycle Idle → Preparing → Recording → Stopping → Processing → Idle
/// is made of allowed moves.
pub proof fn lemma_lifecycle_returns_to_idle()
    ensures
        step_target(Step::StartPreparing, RecordingState::Idle) == Some(RecordingState::Preparing),
        step_target(Step::StartRecording, RecordingState::Preparing) == Some(
            RecordingState::Recording,
        ),
        step_target(Step::StopRecording, RecordingState::Recording) == Some(
            RecordingState::Stopping,
        ),
        step_target(Step::StartProcessing, RecordingState::Stopping) == Some(
            RecordingState::Processing,
        ),
        step_target(Step::Finish, RecordingState::Processing) == Some(RecordingState::Idle),
{
}

/// No allowed move skips a phase: outside the error path, each move advances
/// the lifecycle by exactly one position (Processing wraps round to Idle).
pub proof fn lemma_moves_advance_one_phase(step: Step, s: RecordingState, t: RecordingState)
    requires
        step_target(step, s) == Some(t),
        !(s is Error),
    ensures
        lifecycle_rank(s) >= 0,
        lifecycle_rank(t) == (lifecycle_rank(s) + 1) % 5,
{
}

/// An error is acknowledged by `finish`, which always leads back to Idle.
pub proof fn lemma_error_is_acknowledged(msg: String)
    ensures
        step_target(Step::Finish, RecordingState::Error(msg)) == Some(RecordingState::Idle),
{
}

/// A failed recording is unrecoverable: no guarded move leaves `Failed`.
pub proof fn lemma_failed_is_final(step: Step, msg: String)
    ensures
        step_target(step, RecordingState::Failed(msg)) is None,
{
}

/// Crash recovery ends in Idle or Preparing, and a second recovery changes nothing.
pub proof fn lemma_reset_recovers(s: RecordingState)
    ensures
        reset_target(s) is Idle || reset_target(s) is Preparing,
        !reset_moves(reset_target(s)),
        reset_target(reset_target(s)) == reset_target(s),
        reset_moves(s) ==> reset_target(s) is Idle,
{
}

/// Recording is only ever entered from Preparing, by `start_recording`.
pub proof fn lemma_recording_only_after_preparing(step: Step, s: RecordingState)
    requires
        step_target(step, s) == Some(RecordingState::Recording),
    ensures
        step is StartRecording,
        s is Preparing,
{
}

/// Different kinds of state have different display names.
pub proof fn lemma_state_names_distinct(a: RecordingState, b: RecordingState)
    requires
        state_name(a) == state_name(b),
    ensures
        lifecycle_rank(a) == lifecycle_rank(b),
        a is Error <==> b is Error,
        a is Failed <==> b is Failed,
{
    reveal_strlit("idle");
    reveal_strlit("preparing");
    reveal_strlit("recording");
    reveal_strlit("stopping");
    reveal_strlit("processing");
    reveal_strlit("error");
    reveal_strlit("failed");
    let na = state_name(a);
    let nb = state_name(b);
    assert(na.len() == nb.len());
    assert(na[0] == nb[0]);
    assert(na[1] == nb[1]);
}

} // verus!
