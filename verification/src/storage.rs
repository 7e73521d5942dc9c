//! Session storage: folder layout, metadata, chunk file names.

use vstd::prelude::*;
use crate::environment::drawn_uuid;
use crate::error::RecordingError;
use crate::naming::take_at_most;
use crate::text::{decimal_padded, push_char, push_decimal, push_str};
use crate::time::{clock_out_of_range, mach_time_ns, stamp_char, Timestamp};

verus! {

/// The path that joining the relative or absolute component `comp` onto
/// `base` gives, as `Path::join` does on Unix: an absolute component replaces
/// the base; otherwise a `/` is put between them unless the base is empty or
/// already ends with one.
pub open spec fn path_join(base: Seq<char>, comp: Seq<char>) -> Seq<char> {
    if comp.len() > 0 && comp[0] == '/' {
        comp
    } else if base.len() > 0 && base.last() != '/' {
        base + seq!['/'] + comp
    } else {
        base + comp
    }
}

/// The parent directory of a path (`Path::parent`), `None` for a root or an empty path.
pub uninterp spec fn spec_path_parent(p: Seq<char>) -> Option<Seq<char>>;

/// The last normal component of a path (`Path::file_name`), `None` when the path
/// ends in `..` or has no component.
pub uninterp spec fn spec_path_file_name(p: Seq<char>) -> Option<Seq<char>>;

/// A plain path component: not empty, without `/`, and neither `.` nor `..`.
pub open spec fn plain_component(c: Seq<char>) -> bool {
    &&& c.len() > 0
    &&& !c.contains('/')
    &&& c != "."@
    &&& c != ".."@
}

/// `path` is the plain component `name` put under the folder `dir` with one
/// `/`, where `dir` is not empty and ends in a component of its own: not in
/// `/`, and not in a `.` component.
pub open spec fn is_child_path(path: Seq<char>, dir: Seq<char>, name: Seq<char>) -> bool {
    &&& path == dir + seq!['/'] + name
    &&& plain_component(name)
    &&& ends_in_component(dir)
}

/// A folder path that is not empty and ends in a component of its own: not
/// in `/`, and not in a `.` component.
pub open spec fn ends_in_component(dir: Seq<char>) -> bool {
    &&& dir.len() > 0
    &&& dir.last() != '/'
    &&& dir != "."@
    &&& !(dir.len() >= 2 && dir[dir.len() - 2] == '/' && dir.last() == '.')
}

/// Calls `std::path::Path::parent` on a UTF-8 path. std documents it as the
/// path without its final component; for a plain component put under a
/// folder that ends in a component of its own, that is the folder as written.
#[verifier::external_body]
fn path_parent(p: &str) -> (r: Option<String>)
    ensures
        match r {
            Some(q) => spec_path_parent(p@) == Some(q@) && forall|dir: Seq<char>, name: Seq<char>|
                #[trigger] is_child_path(p@, dir, name) ==> q@ == dir,
            None => spec_path_parent(p@) is None && forall|dir: Seq<char>, name: Seq<char>|
                !#[trigger] is_child_path(p@, dir, name),
        },
{
    std::path::Path::new(p).parent().map(|q| q.to_string_lossy().into_owned())
}

/// Calls `std::path::Path::file_name` on a UTF-8 path. std documents it as
/// the final component of the path; for a plain component put under a
/// folder, that is the component.
#[verifier::external_body]
fn path_file_name(p: &str) -> (r: Option<String>)
    ensures
        match r {
            Some(q) => spec_path_file_name(p@) == Some(q@) && forall|dir: Seq<char>, name: Seq<char>|
                #[trigger] is_child_path(p@, dir, name) ==> q@ == name,
            None => spec_path_file_name(p@) is None && forall|dir: Seq<char>, name: Seq<char>|
                !#[trigger] is_child_path(p@, dir, name),
        },
{
    std::path::Path::new(p).file_name().map(|q| q.to_string_lossy().into_owned())
}

/// Joins `comp` onto `base` (Unix `Path::join`).
pub fn join_path(base: &str, comp: &str) -> (r: String)
    ensures
        r@ == path_join(base@, comp@),
{
    let bc = crate::text::chars_of(base);
    let cc = crate::text::chars_of(comp);
    let mut r = String::new();
    if cc.len() > 0 && cc[0] == '/' {
        push_str(&mut r, comp);
    } else if bc.len() > 0 && bc[bc.len() - 1] != '/' {
        push_str(&mut r, base);
        push_char(&mut r, '/');
        push_str(&mut r, comp);
    } else {
        push_str(&mut r, base);
        push_str(&mut r, comp);
    }
    r
}

/// Where a session's transcript goes: for a session folder `{base}/recordings/{id}`
/// it is `{base}/transcripts/{id}/transcript.md`; a path without a grandparent
/// or a file name keeps the transcript in the folder itself.
pub open spec fn transcript_path_for_root(root: Seq<char>) -> Seq<char> {
    let base = match spec_path_parent(root) {
        Some(p) => spec_path_parent(p),
        None => None,
    };
    match (base, spec_path_file_name(root)) {
        (Some(b), Some(id)) => path_join(
            path_join(path_join(b, "transcripts"@), id),
            "transcript.md"@,
        ),
        _ => path_join(root, "transcript.md"@),
    }
}

/// `s` with every `-` removed.
pub open spec fn remove_dashes(s: Seq<char>) -> Seq<char>
    decreases s.len(),
{
    if s.len() == 0 {
        Seq::empty()
    } else {
        remove_dashes(s.drop_last()) + (if s.last() == '-' {
            Seq::empty()
        } else {
            seq![s.last()]
        })
    }
}

/// The name of a session folder: the formatted start time, `_`, and the first
/// twelve characters of the identifier with its dashes removed.
pub open spec fn session_folder_name(stamp: Seq<char>, id_text: Seq<char>) -> Seq<char> {
    stamp + "_"@ + take_at_most(remove_dashes(id_text), 12)
}

/// The strftime pattern of the time stamp in session folder names.
pub open spec fn folder_stamp_pattern() -> Seq<char> {
    "%Y-%m-%d_%H-%M-%S"@
}

/// Whether `c` is a lowercase hexadecimal digit.
pub open spec fn is_lower_hex(c: char) -> bool {
    ('0' <= c <= '9') || ('a' <= c <= 'f')
}

/// Whether `s` is a UUID in its hyphenated lowercase text form.
pub open spec fn is_hyphenated_uuid(s: Seq<char>) -> bool {
    &&& s.len() == 36
    &&& forall|i: int|
        0 <= i < 36 ==> (if i == 8 || i == 13 || i == 18 || i == 23 {
            s[i] == '-'
        } else {
            is_lower_hex(#[trigger] s[i])
        })
}

/// Draws a random identifier with `uuid::Uuid::new_v4` and prints it with its
/// `Display` form, which the uuid source writes as 32 lowercase hex digits in
/// groups of 8-4-4-4-12 joined by dashes; the text is marked as freshly drawn.
#[verifier::external_body]
fn random_uuid_text() -> (r: String)
    ensures
        is_hyphenated_uuid(r@),
        drawn_uuid(r@),
{
    uuid::Uuid::new_v4().to_string()
}

/// The file name of a chunk of a track: `{prefix}_{index:03}.wav`.
pub open spec fn chunk_file_name(prefix: Seq<char>, index: nat) -> Seq<char> {
    prefix + "_"@ + decimal_padded(index, 3) + ".wav"@
}

/// Whether `m` is the metadata a new session starts from, before its name and
/// clock readings are filled in: format version 1, one 48 kHz 16-bit PCM
/// channel, no chunks yet, the `mach_absolute_time` clock base, the default
/// microphone and ScreenCaptureKit as remote method, and no transcription.
pub open spec fn is_default_metadata(m: SessionMetadata) -> bool {
    &&& m.version == 1
    &&& m.format@ == "ultra-meeting-v1"@
    &&& m.meeting.end_time is None
    &&& m.meeting.duration_seconds is None
    &&& m.audio.sample_rate == 48000
    &&& m.audio.channels == 1
    &&& m.audio.format@ == "16-bit PCM"@
    &&& m.audio.mic_chunks == 0
    &&& m.audio.remote_chunks == 0
    &&& m.sync.clock_base@ == "mach_absolute_time"@
    &&& m.sync.drift_corrections@ == Seq::<u64>::empty()
    &&& m.capture.mic_device@ == "default"@
    &&& m.capture.remote_source@ == Seq::<char>::empty()
    &&& m.capture.remote_method@ == "ScreenCaptureKit"@
    &&& m.transcription is None
}

#[derive(Debug)]
pub struct SessionMetadata {
    pub version: u32,
    pub format: String,
    pub meeting: MeetingInfo,
    pub audio: AudioInfo,
    pub sync: SyncInfo,
    pub capture: CaptureInfo,
    pub transcription: Option<TranscriptionInfo>,
}

#[derive(Debug)]
pub struct MeetingInfo {
    pub name: String,
    pub start_time: Timestamp,
    pub end_time: Option<Timestamp>,
    pub duration_seconds: Option<u64>,
}

#[derive(Debug)]
pub struct AudioInfo {
    pub sample_rate: u32,
    pub channels: u32,
    pub format: String,
    pub mic_chunks: u32,
    pub remote_chunks: u32,
}

/// Clock information for aligning the tracks. Drift corrections are kept as
/// the IEEE-754 bit patterns of their `f64` values.
#[derive(Debug)]
pub struct SyncInfo {
    pub clock_base: String,
    pub start_timestamp: u64,
    pub drift_corrections: Vec<u64>,
}

#[derive(Debug)]
pub struct CaptureInfo {
    pub mic_device: String,
    pub remote_source: String,
    pub remote_method: String,
}

#[derive(Debug)]
pub struct TranscriptionInfo {
    pub model_path: String,
    pub model_strategy: String,
}

/// A string holding `s`.
pub fn owned(s: &str) -> (r: String)
    ensures
        r@ == s@,
{
    let mut r = String::new();
    push_str(&mut r, s);
    r
}

impl SessionMetadata {
    /// The metadata a new session starts from, begun at `start_time`, with
    /// the name "Untitled" and a zero clock reading.
    pub fn default_at(start_time: Timestamp) -> (r: SessionMetadata)
        ensures
            is_default_metadata(r),
            r.meeting.name@ == "Untitled"@,
            r.meeting.start_time == start_time,
            r.sync.start_timestamp == 0,
    {
        SessionMetadata {
            version: 1,
            format: owned("ultra-meeting-v1"),
            meeting: MeetingInfo {
                name: owned("Untitled"),
                start_time,
                end_time: None,
                duration_seconds: None,
            },
            audio: AudioInfo {
                sample_rate: 48000,
                channels: 1,
                format: owned("16-bit PCM"),
                mic_chunks: 0,
                remote_chunks: 0,
            },
            sync: SyncInfo {
                clock_base: owned("mach_absolute_time"),
                start_timestamp: 0,
                drift_corrections: Vec::new(),
            },
            capture: CaptureInfo {
                mic_device: owned("default"),
                remote_source: String::new(),
                remote_method: owned("ScreenCaptureKit"),
            },
            transcription: None,
        }
    }
}

/// The chunk `index` of the track `prefix` in the session folder `root`
/// (`{prefix}_{index:03}.wav`).
pub fn chunk_path_in(root: &str, prefix: &str, index: u32) -> (r: String)
    ensures
        r@ == path_join(root@, chunk_file_name(prefix@, index as nat)),
{
    let mut name = String::new();
    push_str(&mut name, prefix);
    push_str(&mut name, "_");
    push_decimal(&mut name, index as u64, 3);
    push_str(&mut name, ".wav");
    join_path(root, name.as_str())
}

#[derive(Debug)]
pub struct SessionStorage {
    pub root: String,
    pub metadata: SessionMetadata,
}

/// Sanitize meeting name for use in folder path.
pub use crate::naming::sanitize_meeting_name;

impl SessionStorage {
    /// Create session folder path under recordings: {recordings_root}/{timestamp}_{uuid}
    /// The time stamp is now, in UTC; the identifier is random. Fails when the
    /// system clock is set before 1970.
    pub fn session_folder_path(recordings_root: &str, _meeting_name: &str) -> (r: Result<String, RecordingError>)
        ensures
            r matches Ok(p) ==> exists|t: Timestamp, id: Seq<char>|
                t.spec_secs() >= 0 && t.read_from_clock() && is_hyphenated_uuid(id) && drawn_uuid(id) && p@ == path_join(
                    recordings_root@,
                    #[trigger] session_folder_name(t.formatted(folder_stamp_pattern()), id),
                ) && (ends_in_component(recordings_root@) ==> is_child_path(
                    p@,
                    recordings_root@,
                    session_folder_name(t.formatted(folder_stamp_pattern()), id),
                )),
            r matches Err(e) ==> (e matches RecordingError::Other(m) && m@ == "system time out of range"@),
            r is Err ==> clock_out_of_range(),
    {
        let now = match Timestamp::now() {
            Some(t) => t,
            None => return Err(RecordingError::Other(owned("system time out of range"))),
        };
        let stamp = now.format("%Y-%m-%d_%H-%M-%S");
        let id = random_uuid_text();
        let p = Self::session_folder_path_from(recordings_root, stamp.as_str(), id.as_str());
        proof {
            if ends_in_component(recordings_root@) {
                lemma_session_folder_is_child(recordings_root@, stamp@, id@);
            }
        }
        assert(now.spec_secs() >= 0 && now.read_from_clock() && is_hyphenated_uuid(id@) && drawn_uuid(id@) && p@ == path_join(
            recordings_root@,
            session_folder_name(now.formatted(folder_stamp_pattern()), id@),
        ));
        Ok(p)
    }

    /// The session folder under `recordings_root` for a formatted start time and an identifier.
    pub fn session_folder_path_from(recordings_root: &str, stamp: &str, id_text: &str) -> (r:
        String)
        ensures
            r@ == path_join(recordings_root@, session_folder_name(stamp@, id_text@)),
    {
        let ic = crate::text::chars_of(id_text);
        let mut name = String::new();
        push_str(&mut name, stamp);
        push_str(&mut name, "_");
        let ghost head = name@;
        let mut kept: usize = 0;
        let mut i: usize = 0;
        while i < ic.len()
            invariant
                i <= ic.len(),
                ic@ == id_text@,
                kept <= 12,
                name@ == head + take_at_most(remove_dashes(ic@.take(i as int)), 12),
                kept == take_at_most(remove_dashes(ic@.take(i as int)), 12).len(),
            decreases ic.len() - i,
        {
            let ghost before = remove_dashes(ic@.take(i as int));
            assert(ic@.take(i + 1).drop_last() == ic@.take(i as int));
            let c = ic[i];
            if c != '-' && kept < 12 {
                push_char(&mut name, c);
                kept = kept + 1;
                assert(take_at_most(before + seq![c], 12) == take_at_most(before, 12).push(c));
            } else if c != '-' {
                assert(take_at_most(before + seq![c], 12) == take_at_most(before, 12));
            } else {
                assert(before + Seq::<char>::empty() == before);
            }
            i = i + 1;
        }
        assert(ic@.take(ic.len() as int) == ic@);
        join_path(recordings_root, name.as_str())
    }

    /// Path for transcript output (transcripts/{session_id}/transcript.md).
    pub fn transcript_output_path(&self) -> (r: String)
        ensures
            r@ == transcript_path_for_root(self.root@),
    {
        Self::transcript_output_path_for_session_root(self.root.as_str())
    }

    /// Derive transcript path from session root. For recordings/{id}/ layout,
    /// returns transcripts/{id}/transcript.md. Falls back to root/transcript.md for legacy.
    pub fn transcript_output_path_for_session_root(session_root: &str) -> (r: String)
        ensures
            r@ == transcript_path_for_root(session_root@),
            forall|base: Seq<char>, folder: Seq<char>, dir: Seq<char>, id: Seq<char>|
                #[trigger] is_child_path(session_root@, dir, id) && #[trigger] is_child_path(
                    dir,
                    base,
                    folder,
                ) ==> r@ == path_join(path_join(path_join(base, "transcripts"@), id), "transcript.md"@),
    {
        let base = match path_parent(session_root) {
            Some(p) => path_parent(p.as_str()),
            None => None,
        };
        let id = path_file_name(session_root);
        match (base, id) {
            (Some(b), Some(i)) => {
                let t = join_path(b.as_str(), "transcripts");
                let t = join_path(t.as_str(), i.as_str());
                join_path(t.as_str(), "transcript.md")
            },
            _ => join_path(session_root, "transcript.md"),
        }
    }

    /// A session kept under `root` for the meeting `meeting_name`, begun at
    /// `start_time` with the sync clock reading `start_timestamp`.
    pub fn with_start(root: String, meeting_name: &str, start_time: Timestamp, start_timestamp: u64) -> (r:
        SessionStorage)
        ensures
            r.root == root,
            r.metadata.meeting.name@ == meeting_name@,
            r.metadata.meeting.start_time == start_time,
            r.metadata.sync.start_timestamp == start_timestamp,
            is_default_metadata(r.metadata),
    {
        let mut meta = SessionMetadata::default_at(start_time);
        meta.meeting.name = owned(meeting_name);
        meta.sync.start_timestamp = start_timestamp;
        SessionStorage { root, metadata: meta }
    }

    /// A new session under `root` for `meeting_name`, begun now. The caller
    /// creates the folder and writes the metadata file. Fails when the system
    /// clock is set before 1970.
    pub fn create(root: String, meeting_name: &str) -> (r: Result<SessionStorage, RecordingError>)
        ensures
            r matches Ok(s) ==> {
                &&& s.root == root
                &&& s.metadata.meeting.name@ == meeting_name@
                &&& is_default_metadata(s.metadata)
                &&& s.metadata.meeting.start_time.spec_secs() >= 0
                &&& s.metadata.meeting.start_time.read_from_clock()
            },
            r matches Err(e) ==> (e matches RecordingError::Other(m) && m@ == "system time out of range"@),
            r is Err ==> clock_out_of_range(),
    {
        let start_time = match Timestamp::now() {
            Some(t) => t,
            None => return Err(RecordingError::Other(owned("system time out of range"))),
        };
        let start_timestamp: u64 = mach_time_ns();
        Ok(Self::with_start(root, meeting_name, start_time, start_timestamp))
    }

    pub fn mic_chunk_path(&self, index: u32) -> (r: String)
        ensures
            r@ == path_join(self.root@, chunk_file_name("mic"@, index as nat)),
    {
        self.chunk_path("mic", index)
    }

    pub fn remote_chunk_path(&self, index: u32) -> (r: String)
        ensures
            r@ == path_join(self.root@, chunk_file_name("remote"@, index as nat)),
    {
        self.chunk_path("remote", index)
    }

    fn chunk_path(&self, prefix: &str, index: u32) -> (r: String)
        ensures
            r@ == path_join(self.root@, chunk_file_name(prefix@, index as nat)),
    {
        chunk_path_in(self.root.as_str(), prefix, index)
    }

    pub fn transcript_path(&self) -> (r: String)
        ensures
            r@ == path_join(self.root@, "transcript.md"@),
    {
        join_path(self.root.as_str(), "transcript.md")
    }

    /// Where the metadata file of this session is written.
    pub fn metadata_path(&self) -> (r: String)
        ensures
            r@ == path_join(self.root@, "metadata.yaml"@),
    {
        join_path(self.root.as_str(), "metadata.yaml")
    }
}

proof fn lemma_join_cancel(base: Seq<char>, a: Seq<char>, b: Seq<char>)
    requires
        a.len() > 0 && a[0] != '/',
        b.len() > 0 && b[0] != '/',
        path_join(base, a) == path_join(base, b),
    ensures
        a == b,
{
    let k: int = if base.len() > 0 && base.last() != '/' { base.len() + 1int } else { base.len() as int };
    let ja = path_join(base, a);
    let jb = path_join(base, b);
    assert(ja.subrange(k, ja.len() as int) == a);
    assert(jb.subrange(k, jb.len() as int) == b);
}

/// Different chunk indices of a track name different files, so no chunk is
/// ever written over another.
pub proof fn lemma_chunk_paths_distinct(root: Seq<char>, prefix: Seq<char>, i: nat, j: nat)
    requires
        prefix.len() > 0 && prefix[0] != '/',
        path_join(root, chunk_file_name(prefix, i)) == path_join(root, chunk_file_name(prefix, j)),
    ensures
        i == j,
{
    let ni = chunk_file_name(prefix, i);
    let nj = chunk_file_name(prefix, j);
    lemma_join_cancel(root, ni, nj);
    reveal_strlit("_");
    reveal_strlit(".wav");
    crate::text::lemma_decimal_padded_shape(i, 3);
    crate::text::lemma_decimal_padded_shape(j, 3);
    let di = decimal_padded(i, 3);
    let dj = decimal_padded(j, 3);
    let start: int = prefix.len() + 1int;
    assert(ni.len() == start + di.len() + 4);
    assert(nj.len() == start + dj.len() + 4);
    assert(ni.subrange(start as int, ni.len() - 4) == di);
    assert(nj.subrange(start as int, nj.len() - 4) == dj);
    crate::text::lemma_decimal_padded_injective(i, j, 3);
}

/// A microphone chunk and a remote chunk never share a path.
pub proof fn lemma_mic_and_remote_chunks_apart(root: Seq<char>, i: nat, j: nat)
    ensures
        path_join(root, chunk_file_name("mic"@, i)) != path_join(
            root,
            chunk_file_name("remote"@, j),
        ),
{
    reveal_strlit("mic");
    reveal_strlit("remote");
    let a = chunk_file_name("mic"@, i);
    let b = chunk_file_name("remote"@, j);
    if path_join(root, a) == path_join(root, b) {
        lemma_join_cancel(root, a, b);
        assert(a[0] == 'm');
        assert(b[0] == 'r');
    }
}

proof fn lemma_remove_dashes_concat(a: Seq<char>, b: Seq<char>)
    ensures
        remove_dashes(a + b) == remove_dashes(a) + remove_dashes(b),
    decreases b.len(),
{
    if b.len() == 0 {
        assert(a + b == a);
    } else {
        lemma_remove_dashes_concat(a, b.drop_last());
        assert((a + b).drop_last() == a + b.drop_last());
    }
}

proof fn lemma_remove_dashes_none(a: Seq<char>)
    requires
        forall|i: int| 0 <= i < a.len() ==> a[i] != '-',
    ensures
        remove_dashes(a) == a,
    decreases a.len(),
{
    if a.len() > 0 {
        lemma_remove_dashes_none(a.drop_last());
    }
}

/// A session folder made from a UUID text is named by the time stamp, `_`,
/// and the first twelve hex digits of the UUID (its first group and its second).
pub proof fn lemma_folder_name_from_uuid(stamp: Seq<char>, id_text: Seq<char>)
    requires
        is_hyphenated_uuid(id_text),
    ensures
        session_folder_name(stamp, id_text) == stamp + "_"@ + id_text.subrange(0, 8)
            + id_text.subrange(9, 13),
        forall|i: int|
            0 <= i < 12 ==> is_lower_hex(
                #[trigger] (id_text.subrange(0, 8) + id_text.subrange(9, 13))[i],
            ),
{
    let g1 = id_text.subrange(0, 8);
    let g2 = id_text.subrange(9, 13);
    let rest = id_text.subrange(13, 36);
    assert(id_text == g1 + seq!['-'] + g2 + rest);
    assert forall|i: int| 0 <= i < g1.len() implies g1[i] != '-' by {
        assert(g1[i] == id_text[i]);
        assert(is_lower_hex(id_text[i]));
    }
    assert forall|i: int| 0 <= i < g2.len() implies g2[i] != '-' by {
        assert(g2[i] == id_text[9 + i]);
        assert(is_lower_hex(id_text[9 + i]));
    }
    lemma_remove_dashes_none(g1);
    lemma_remove_dashes_none(g2);
    lemma_remove_dashes_concat(g1, seq!['-']);
    assert(remove_dashes(seq!['-']) == Seq::<char>::empty()) by {
        let d = seq!['-'];
        assert(d.drop_last() == Seq::<char>::empty());
        assert(d.last() == '-');
        assert(remove_dashes(d.drop_last()) == Seq::<char>::empty());
        assert(Seq::<char>::empty() + Seq::<char>::empty() == Seq::<char>::empty());
    }
    lemma_remove_dashes_concat(g1 + seq!['-'], g2);
    lemma_remove_dashes_concat(g1 + seq!['-'] + g2, rest);
    let rd = remove_dashes(id_text);
    assert(g1 + Seq::<char>::empty() == g1);
    assert(rd == g1 + g2 + remove_dashes(rest));
    assert(rd.len() >= 12);
    assert(take_at_most(rd, 12) == g1 + g2);
    assert forall|i: int| 0 <= i < 12 implies is_lower_hex(#[trigger] (g1 + g2)[i]) by {
        if i < 8 {
            assert((g1 + g2)[i] == id_text[i]);
        } else {
            assert((g1 + g2)[i] == id_text[i + 1]);
        }
    }
}

proof fn lemma_remove_dashes_no_slash(s: Seq<char>)
    requires
        forall|i: int| 0 <= i < s.len() ==> #[trigger] s[i] != '/',
    ensures
        forall|i: int| 0 <= i < remove_dashes(s).len() ==> #[trigger] remove_dashes(s)[i] != '/',
    decreases s.len(),
{
    if s.len() > 0 {
        let p = s.drop_last();
        assert forall|i: int| 0 <= i < p.len() implies #[trigger] p[i] != '/' by {
            assert(p[i] == s[i]);
        }
        lemma_remove_dashes_no_slash(p);
        let rp = remove_dashes(p);
        let r = remove_dashes(s);
        assert forall|i: int| 0 <= i < r.len() implies #[trigger] r[i] != '/' by {
            if i < rp.len() {
                assert(r[i] == rp[i]);
            } else {
                assert(r[i] == s.last());
                assert(s[s.len() - 1] != '/');
            }
        }
    }
}

/// A session folder is a child of the recordings folder it is made under:
/// its name (a time stamp, `_` and hexadecimal digits) is a plain component,
/// so the recordings folder is its parent and the name its file name.
pub proof fn lemma_session_folder_is_child(recordings_root: Seq<char>, stamp: Seq<char>, id: Seq<char>)
    requires
        ends_in_component(recordings_root),
        forall|i: int| 0 <= i < stamp.len() ==> stamp_char(#[trigger] stamp[i]),
        is_hyphenated_uuid(id),
    ensures
        is_child_path(
            path_join(recordings_root, session_folder_name(stamp, id)),
            recordings_root,
            session_folder_name(stamp, id),
        ),
{
    let name = session_folder_name(stamp, id);
    let hex = take_at_most(remove_dashes(id), 12);
    assert forall|i: int| 0 <= i < id.len() implies #[trigger] id[i] != '/' by {
        if !(i == 8 || i == 13 || i == 18 || i == 23) {
            assert(is_lower_hex(id[i]));
        }
    }
    lemma_remove_dashes_no_slash(id);
    reveal_strlit("_");
    assert("_"@ == seq!['_']);
    assert(name == stamp + seq!['_'] + hex);
    assert forall|i: int| 0 <= i < hex.len() implies #[trigger] hex[i] != '/' by {
        assert(hex[i] == remove_dashes(id)[i]);
    }
    assert forall|i: int| 0 <= i < name.len() implies #[trigger] name[i] != '/' by {
        if i < stamp.len() {
            assert(name[i] == stamp[i]);
            assert(stamp_char(stamp[i]));
        } else if i == stamp.len() {
            assert(name[i] == '_');
        } else {
            assert(name[i] == hex[i - stamp.len() - 1]);
        }
    }
    assert(name[stamp.len() as int] == '_');
    reveal_strlit(".");
    reveal_strlit("..");
    let k = stamp.len() as int;
    if name == "."@ {
        assert(name[k] == '.');
    }
    if name == ".."@ {
        assert(name[k] == '.');
    }
    assert(name != "."@);
    assert(name != ".."@);
    assert(!name.contains('/'));
}

} // verus!
