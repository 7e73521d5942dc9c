//! Post-meeting transcription: where the model lives, how audio is cut into
//! batches, how progress is reported, and the markdown transcript. Decoding
//! the audio and running the speech model happen in the application.

use vstd::prelude::*;
use crate::error::RecordingError;
use crate::storage::{join_path, owned, path_join, SessionMetadata, TranscriptionInfo};
use crate::text::{decimal, push_decimal, push_str};

verus! {

/// Seconds of 16 kHz audio handed to the model at once.
pub const BATCH_DURATION_SEC: usize = 60;

/// The sample rate the model expects.
pub const SAMPLE_RATE_16K: u32 = 16000;

/// Samples in one batch at 16 kHz.
pub const SAMPLES_PER_BATCH_16K: usize = 960000;

/// Where the model file sits under a home directory.
pub open spec fn model_path_under(home: Seq<char>) -> Seq<char> {
    path_join(path_join(home, ".ultra-meeting/models"@), "ggml-base.en.bin"@)
}

/// The speech model to run and where to find it.
#[derive(Debug)]
pub struct TranscriptionPipeline {
    model_path: String,
}

impl TranscriptionPipeline {
    pub closed spec fn spec_model_path(&self) -> Seq<char> {
        self.model_path@
    }

    /// The directory that holds the model files under a home directory.
    pub fn models_dir(home: &str) -> (r: String)
        ensures
            r@ == path_join(home@, ".ultra-meeting/models"@),
    {
        join_path(home, ".ultra-meeting/models")
    }

    /// A pipeline using the base English model under the user's home
    /// directory; fails when there is no home directory. The caller creates the
    /// model directory.
    pub fn new(home: Option<String>) -> (r: Result<Self, RecordingError>)
        ensures
            match home {
                Some(h) => r matches Ok(p) && p.spec_model_path() == model_path_under(h@),
                None => r matches Err(RecordingError::Other(m)) && m@ == "no home dir"@,
            },
    {
        match home {
            Some(h) => {
                let dir = Self::models_dir(h.as_str());
                let model_path = join_path(dir.as_str(), "ggml-base.en.bin");
                Ok(TranscriptionPipeline { model_path })
            },
            None => Err(RecordingError::Other(owned("no home dir"))),
        }
    }

    pub fn model_path(&self) -> (r: &String)
        ensures
            r@ == self.spec_model_path(),
    {
        &self.model_path
    }
}

/// How many batches `len` samples make: none for no audio, otherwise the
/// number of batch-sized pieces, the last one possibly short.
pub open spec fn batches_for(len: nat) -> nat {
    if len == 0 {
        0
    } else {
        ((len + SAMPLES_PER_BATCH_16K - 1) / (SAMPLES_PER_BATCH_16K as int)) as nat
    }
}

/// How many batches `len` samples make.
pub fn batch_count(len: usize) -> (r: usize)
    ensures
        r == batches_for(len as nat),
{
    if len == 0 {
        0
    } else {
        (len - 1) / SAMPLES_PER_BATCH_16K + 1
    }
}

/// Batches of both tracks together, at least one so progress can be shown.
pub fn total_batches(mic_len: usize, remote_len: usize) -> (r: usize)
    ensures
        r == (if batches_for(mic_len as nat) + batches_for(remote_len as nat) == 0 {
            1
        } else {
            batches_for(mic_len as nat) + batches_for(remote_len as nat)
        }),
{
    let n: usize = batch_count(mic_len) + batch_count(remote_len);
    if n == 0 {
        1
    } else {
        n
    }
}

/// The sample range of batch `i` of a track holding `len` samples.
pub fn batch_bounds(i: usize, len: usize) -> (r: (usize, usize))
    requires
        i < batches_for(len as nat),
    ensures
        r.0 == i * SAMPLES_PER_BATCH_16K,
        r.1 == (if r.0 + SAMPLES_PER_BATCH_16K <= len {
            r.0 + SAMPLES_PER_BATCH_16K
        } else {
            len as int
        }),
        r.0 < r.1 <= len,
{
    assert(i * SAMPLES_PER_BATCH_16K < len) by (nonlinear_arith)
        requires
            i < (len + SAMPLES_PER_BATCH_16K - 1) / (SAMPLES_PER_BATCH_16K as int),
            len > 0,
    ;
    let start: usize = i * SAMPLES_PER_BATCH_16K;
    let end: usize = if len - start >= SAMPLES_PER_BATCH_16K {
        start + SAMPLES_PER_BATCH_16K
    } else {
        len
    };
    (start, end)
}

/// Which batch of which track a run handles as its `g`-th batch (counting
/// from 0): the microphone track's batches in order, then the remote
/// track's. The flag tells whether the batch is the remote track's.
pub open spec fn batch_at(mic_len: nat, remote_len: nat, g: nat) -> (bool, nat) {
    if g < batches_for(mic_len) {
        (false, g)
    } else {
        (true, (g - batches_for(mic_len)) as nat)
    }
}

/// One batch to transcribe: the track (remote or microphone), its sample
/// range, and how many batches are done once it is.
#[derive(Debug)]
pub struct BatchWork {
    pub remote: bool,
    pub start: usize,
    pub end: usize,
    pub completed: u32,
}

/// How far a transcription run has come over two 16 kHz tracks.
#[derive(Debug)]
pub struct BatchCursor {
    pub mic_len: usize,
    pub remote_len: usize,
    pub completed: u32,
}

impl BatchCursor {
    /// Batches of both tracks together.
    pub open spec fn batch_total(self) -> nat {
        batches_for(self.mic_len as nat) + batches_for(self.remote_len as nat)
    }

    /// No more batches are handed out than there are, and the count fits.
    pub open spec fn wf(self) -> bool {
        &&& self.completed <= self.batch_total()
        &&& self.batch_total() <= u32::MAX
    }

    /// A run over tracks of `mic_len` and `remote_len` samples, with nothing done.
    pub fn new(mic_len: usize, remote_len: usize) -> (r: BatchCursor)
        requires
            batches_for(mic_len as nat) + batches_for(remote_len as nat) <= u32::MAX,
        ensures
            r.wf(),
            r.mic_len == mic_len,
            r.remote_len == remote_len,
            r.completed == 0,
    {
        BatchCursor { mic_len, remote_len, completed: 0 }
    }

    /// Whether every batch has been handed out.
    pub fn finished(&self) -> (r: bool)
        requires
            self.wf(),
        ensures
            r == (self.completed == self.batch_total()),
    {
        let total: usize = batch_count(self.mic_len) + batch_count(self.remote_len);
        self.completed as usize == total
    }

    /// The next batch: its track and sample range, and the batches done once
    /// it is; the run moves on by one batch.
    pub fn next_batch(&mut self) -> (r: BatchWork)
        requires
            old(self).wf(),
            old(self).completed < old(self).batch_total(),
        ensures
            final(self).wf(),
            final(self).mic_len == old(self).mic_len,
            final(self).remote_len == old(self).remote_len,
            final(self).completed == old(self).completed + 1,
            r.completed == final(self).completed,
            ({
                let (remote, i) = batch_at(old(self).mic_len as nat, old(self).remote_len as nat, old(self).completed as nat);
                let len: int = if remote { old(self).remote_len as int } else { old(self).mic_len as int };
                &&& r.remote == remote
                &&& r.start == i * SAMPLES_PER_BATCH_16K
                &&& r.end == (if r.start + SAMPLES_PER_BATCH_16K <= len {
                    r.start + SAMPLES_PER_BATCH_16K
                } else {
                    len
                })
                &&& r.start < r.end <= len
            }),
    {
        let mic_batches: usize = batch_count(self.mic_len);
        let g: usize = self.completed as usize;
        let (remote, i, len) = if g < mic_batches {
            (false, g, self.mic_len)
        } else {
            (true, g - mic_batches, self.remote_len)
        };
        let (start, end) = batch_bounds(i, len);
        self.completed = self.completed + 1;
        BatchWork { remote, start, end, completed: self.completed }
    }
}

/// A run hands out every batch once and in order: the microphone track's
/// batches first, batch `i` as the run's `i`-th, then the remote track's,
/// batch `i` right after all the microphone's.
pub proof fn lemma_batches_in_order(mic_len: nat, remote_len: nat)
    ensures
        forall|i: nat| i < batches_for(mic_len) ==> #[trigger] batch_at(mic_len, remote_len, i) == (false, i),
        forall|i: nat|
            i < batches_for(remote_len) ==> #[trigger] batch_at(mic_len, remote_len, batches_for(mic_len) + i)
                == (true, i),
        forall|g: nat|
            g < batches_for(mic_len) + batches_for(remote_len) ==> {
                let (remote, i) = #[trigger] batch_at(mic_len, remote_len, g);
                if remote {
                    i < batches_for(remote_len)
                } else {
                    i < batches_for(mic_len)
                }
            },
{
}

/// Progress never goes backwards: more batches done never shows a smaller percentage.
pub proof fn lemma_progress_monotone(a: u32, b: u32, total: u32)
    requires
        a <= b,
        b * 100 <= u32::MAX,
    ensures
        percent_done(a, total) <= percent_done(b, total),
{
    if total > 0 {
        assert((a * 100) / (total as int) <= (b * 100) / (total as int)) by (nonlinear_arith)
            requires
                a <= b,
                total > 0,
        ;
    }
}

/// Progress in percent after `current` of `total` batches (100 when there is nothing to do).
pub open spec fn percent_done(current: u32, total: u32) -> u32 {
    if total > 0 {
        ((current * 100) / (total as int)) as u32
    } else {
        100
    }
}

/// Progress in percent after `current` of `total` batches.
pub fn progress_percent(current: u32, total: u32) -> (r: u32)
    requires
        current * 100 <= u32::MAX,
    ensures
        r == percent_done(current, total),
{
    if total > 0 {
        (current * 100) / total
    } else {
        100
    }
}

/// The strategy name recorded for the base English whisper model.
pub open spec fn model_strategy_name() -> Seq<char> {
    "whisper-ggml-base-en"@
}

pub fn default_transcription_info(model_path: &str) -> (r: TranscriptionInfo)
    ensures
        r.model_path@ == model_path@,
        r.model_strategy@ == model_strategy_name(),
{
    TranscriptionInfo { model_path: owned(model_path), model_strategy: owned("whisper-ggml-base-en") }
}

/// One transcript line: when it was said (already printed as `HH:MM:SS`), who said it, and what.
#[derive(Debug)]
pub struct SegmentLine {
    pub timestamp: String,
    pub speaker: String,
    pub text: String,
}

/// The markdown for one transcript line.
pub open spec fn segment_markdown(s: SegmentLine) -> Seq<char> {
    "**["@ + s.timestamp@ + "] "@ + s.speaker@ + "**: "@ + s.text@ + "\n\n"@
}

/// The markdown for transcript lines, in order.
pub open spec fn segments_markdown(segs: Seq<SegmentLine>) -> Seq<char>
    decreases segs.len(),
{
    if segs.len() == 0 {
        Seq::empty()
    } else {
        segments_markdown(segs.drop_last()) + segment_markdown(segs.last())
    }
}

/// The transcript document: a front-matter block with version, meeting name,
/// date, duration in seconds and participants, then a title, the long date and
/// the transcript lines.
pub open spec fn transcript_markdown(meta: SessionMetadata, segs: Seq<SegmentLine>) -> Seq<char> {
    let name = meta.meeting.name@;
    let duration = match meta.meeting.duration_seconds {
        Some(d) => d,
        None => 0,
    };
    "---\n"@ + "version: 1\n"@ + "meeting: "@ + name + "\n"@ + "date: "@
        + meta.meeting.start_time.formatted("%Y-%m-%d"@) + "\n"@ + "duration: "@ + decimal(
        duration as nat,
    ) + "\n"@ + "participants:\n"@ + "  - You (mic)\n"@ + "  - Remote\n"@ + "---\n\n"@ + "# "@
        + name + "\n\n"@ + "**Date**: "@ + meta.meeting.start_time.formatted("%B %d, %Y"@)
        + "\n\n"@ + "## Transcript\n\n"@ + segments_markdown(segs)
}

/// Renders the transcript document for a session.
pub fn render_markdown(meta: &SessionMetadata, segments: &Vec<SegmentLine>) -> (r: String)
    ensures
        r@ == transcript_markdown(*meta, segments@),
{
    let mut md = String::new();
    push_str(&mut md, "---\n");
    push_str(&mut md, "version: 1\n");
    push_str(&mut md, "meeting: ");
    push_str(&mut md, meta.meeting.name.as_str());
    push_str(&mut md, "\n");
    push_str(&mut md, "date: ");
    let day = meta.meeting.start_time.format("%Y-%m-%d");
    push_str(&mut md, day.as_str());
    push_str(&mut md, "\n");
    push_str(&mut md, "duration: ");
    let duration: u64 = match meta.meeting.duration_seconds {
        Some(d) => d,
        None => 0,
    };
    push_decimal(&mut md, duration, 1);
    push_str(&mut md, "\n");
    push_str(&mut md, "participants:\n");
    push_str(&mut md, "  - You (mic)\n");
    push_str(&mut md, "  - Remote\n");
    push_str(&mut md, "---\n\n");
    push_str(&mut md, "# ");
    push_str(&mut md, meta.meeting.name.as_str());
    push_str(&mut md, "\n\n");
    push_str(&mut md, "**Date**: ");
    let long_day = meta.meeting.start_time.format("%B %d, %Y");
    push_str(&mut md, long_day.as_str());
    push_str(&mut md, "\n\n");
    push_str(&mut md, "## Transcript\n\n");
    let ghost head = md@;
    let mut i: usize = 0;
    while i < segments.len()
        invariant
            i <= segments.len(),
            md@ == head + segments_markdown(segments@.take(i as int)),
        decreases segments.len() - i,
    {
        let seg = &segments[i];
        push_str(&mut md, "**[");
        push_str(&mut md, seg.timestamp.as_str());
        push_str(&mut md, "] ");
        push_str(&mut md, seg.speaker.as_str());
        push_str(&mut md, "**: ");
        push_str(&mut md, seg.text.as_str());
        push_str(&mut md, "\n\n");
        assert(segments@.take(i + 1).drop_last() == segments@.take(i as int));
        i = i + 1;
    }
    assert(segments@.take(segments.len() as int) == segments@);
    md
}

/// The batches of a track cover it exactly: they start at multiples of the
/// batch size, all but the last are full, and the last ends at the end of the audio.
pub proof fn lemma_batches_cover_track(len: nat)
    requires
        len > 0,
    ensures
        batches_for(len) >= 1,
        (batches_for(len) - 1) * SAMPLES_PER_BATCH_16K < len,
        len <= batches_for(len) * SAMPLES_PER_BATCH_16K,
{
    let n: int = SAMPLES_PER_BATCH_16K as int;
    let b: int = (len + n - 1) / n;
    assert(b * n <= len + n - 1 && len + n - 1 < (b + 1) * n) by (nonlinear_arith)
        requires
            n > 0,
            b == (len + n - 1) / n,
    ;
    assert(b >= 1) by (nonlinear_arith)
        requires
            n > 0,
            len > 0,
            b == (len + n - 1) / n,
    ;
}

/// Sixty seconds of 16 kHz audio make a batch.
pub proof fn lemma_batch_is_one_minute()
    ensures
        SAMPLES_PER_BATCH_16K == SAMPLE_RATE_16K * BATCH_DURATION_SEC,
{
}

} // verus!
