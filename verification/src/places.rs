//! Where the app keeps its files: the state file under the home directory,
//! recordings under the documents directory.

use vstd::prelude::*;
use crate::environment::{
    document_dir_text, document_dir_unknown, home_dir_text, home_dir_unknown, reported_document_dir,
    reported_home_dir,
};
use crate::error::RecordingError;
use crate::session::storage_base;
use crate::storage::{join_path, owned, path_join};
use crate::transcription::{model_path_under, TranscriptionPipeline};

verus! {

/// The directory holding the persisted state, under a home directory.
pub fn state_dir_from(home: Option<String>) -> (r: Result<String, RecordingError>)
    ensures
        match home {
            Some(h) => r matches Ok(d) && d@ == path_join(h@, ".ultra-meeting"@),
            None => r matches Err(RecordingError::Other(m)) && m@ == "no home dir"@,
        },
{
    match home {
        Some(h) => Ok(join_path(h.as_str(), ".ultra-meeting")),
        None => Err(RecordingError::Other(owned("no home dir"))),
    }
}

/// The directory holding the persisted state, under the user's home directory.
pub fn state_dir() -> (r: Result<String, RecordingError>)
    ensures
        match r {
            Ok(d) => exists|h: Seq<char>|
                reported_home_dir(h) && d@ == #[trigger] path_join(h, ".ultra-meeting"@),
            Err(e) => home_dir_unknown() && (e matches RecordingError::Other(m) && m@ == "no home dir"@),
        },
{
    state_dir_from(home_dir_text())
}

/// The state file inside the state directory.
pub fn state_file_path(state_dir: &str) -> (r: String)
    ensures
        r@ == path_join(state_dir@, "state.json"@),
{
    join_path(state_dir, "state.json")
}

/// The recordings directory under a documents directory.
pub fn recordings_dir_from(documents: Option<String>) -> (r: Result<String, RecordingError>)
    ensures
        match documents {
            Some(d) => r matches Ok(p) && p@ == path_join(d@, "UltraMeeting/recordings"@),
            None => r matches Err(RecordingError::Other(m)) && m@ == "no documents dir"@,
        },
{
    match documents {
        Some(d) => Ok(join_path(d.as_str(), "UltraMeeting/recordings")),
        None => Err(RecordingError::Other(owned("no documents dir"))),
    }
}

/// The recordings directory under the user's documents directory.
pub fn recordings_dir() -> (r: Result<String, RecordingError>)
    ensures
        match r {
            Ok(p) => exists|d: Seq<char>|
                reported_document_dir(d) && p@ == #[trigger] path_join(d, "UltraMeeting/recordings"@),
            Err(e) => document_dir_unknown() && (e matches RecordingError::Other(m) && m@
                == "no documents dir"@),
        },
{
    recordings_dir_from(document_dir_text())
}

/// Where a new session goes: the given storage root, else `UltraMeeting` in the
/// user's documents directory (looked up only when no root is given).
pub fn session_storage_base(storage_root: Option<String>) -> (r: Result<String, RecordingError>)
    ensures
        match storage_root {
            Some(s) => r matches Ok(b) && b@ == s@,
            None => match r {
                Ok(b) => exists|d: Seq<char>|
                    reported_document_dir(d) && b@ == #[trigger] path_join(d, "UltraMeeting"@),
                Err(e) => document_dir_unknown() && (e matches RecordingError::Other(m) && m@
                    == "no storage root"@),
            },
        },
{
    match storage_root {
        Some(s) => Ok(s),
        None => storage_base(None, document_dir_text()),
    }
}

impl TranscriptionPipeline {
    /// A pipeline using the base English model under the user's home directory.
    pub fn locate() -> (r: Result<Self, RecordingError>)
        ensures
            match r {
                Ok(p) => exists|h: Seq<char>|
                    reported_home_dir(h) && p.spec_model_path() == #[trigger] model_path_under(h),
                Err(e) => home_dir_unknown() && (e matches RecordingError::Other(m) && m@
                    == "no home dir"@),
            },
    {
        Self::new(home_dir_text())
    }
}

/// The recordings directory that `recordings_dir` finds under a documents
/// directory is the `recordings` folder of the base that
/// `session_storage_base` finds under the same documents directory.
pub proof fn lemma_recordings_under_storage_base(documents: Seq<char>)
    ensures
        path_join(documents, "UltraMeeting/recordings"@) == path_join(
            path_join(documents, "UltraMeeting"@),
            "recordings"@,
        ),
{
    reveal_strlit("UltraMeeting/recordings");
    reveal_strlit("UltraMeeting");
    reveal_strlit("recordings");
    let base = path_join(documents, "UltraMeeting"@);
    assert(base.last() == 'g');
    assert("UltraMeeting/recordings"@ == "UltraMeeting"@ + seq!['/'] + "recordings"@);
    if documents.len() > 0 && documents.last() != '/' {
        assert(path_join(documents, "UltraMeeting/recordings"@) == documents + seq!['/'] + (
        "UltraMeeting"@ + seq!['/'] + "recordings"@));
        assert(documents + seq!['/'] + ("UltraMeeting"@ + seq!['/'] + "recordings"@) == (documents
            + seq!['/'] + "UltraMeeting"@) + seq!['/'] + "recordings"@);
    } else {
        assert(documents + ("UltraMeeting"@ + seq!['/'] + "recordings"@) == (documents
            + "UltraMeeting"@) + seq!['/'] + "recordings"@);
    }
}

/// The model that `locate` looks for under a home directory lies in the
/// `models` folder of the state directory that `state_dir` finds under the
/// same home directory.
pub proof fn lemma_model_in_state_dir(home: Seq<char>)
    ensures
        model_path_under(home) == path_join(
            path_join(path_join(home, ".ultra-meeting"@), "models"@),
            "ggml-base.en.bin"@,
        ),
{
    reveal_strlit(".ultra-meeting/models");
    reveal_strlit(".ultra-meeting");
    reveal_strlit("models");
    reveal_strlit("ggml-base.en.bin");
    let state = path_join(home, ".ultra-meeting"@);
    assert(state.last() == 'g');
    assert(".ultra-meeting/models"@ == ".ultra-meeting"@ + seq!['/'] + "models"@);
    let models = path_join(home, ".ultra-meeting/models"@);
    if home.len() > 0 && home.last() != '/' {
        assert(home + seq!['/'] + (".ultra-meeting"@ + seq!['/'] + "models"@) == (home + seq!['/']
            + ".ultra-meeting"@) + seq!['/'] + "models"@);
    } else {
        assert(home + (".ultra-meeting"@ + seq!['/'] + "models"@) == (home + ".ultra-meeting"@)
            + seq!['/'] + "models"@);
    }
    assert(models == path_join(state, "models"@));
}

} // verus!
