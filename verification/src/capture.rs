//! Decisions of the audio capture pipeline: which input device and stream
//! configuration to open, when a buffered chunk is written out, and how a WAV
//! write failure is reported. The audio streams, ring buffers and WAV files
//! themselves are driven by the application around this crate.

use vstd::prelude::*;
use crate::error::RecordingError;
use crate::storage::{chunk_file_name, path_join, SessionStorage};
use crate::text::{contains_seq, contains_str};
use crate::storage::owned;

verus! {

/// Sample rate of every recorded track, in hertz.
pub const SAMPLE_RATE: u32 = 48000;

/// Channels of every recorded track.
pub const CHANNELS: u16 = 1;

/// Seconds of audio in one chunk file.
pub const CHUNK_DURATION_SEC: u64 = 5;

/// Samples in one chunk file.
pub const SAMPLES_PER_CHUNK: usize = 240000;

/// Capacity of the microphone ring buffer, in samples.
pub const MIC_RING_CAPACITY: usize = 960000;

/// Capacity of the remote-audio ring buffer, in samples.
pub const REMOTE_RING_CAPACITY: usize = 1920000;

/// The metadata file is rewritten with every this many chunks (once a minute).
pub const METADATA_EVERY_CHUNKS: u32 = 12;

/// Sample encodings an input device can offer.
#[derive(Debug)]
pub enum InputSampleFormat {
    F32,
    I16,
    U16,
    Other,
}

/// One range of stream configurations an input device supports.
#[derive(Debug)]
pub struct InputConfigRange {
    pub sample_format: InputSampleFormat,
    pub min_sample_rate: u32,
    pub max_sample_rate: u32,
    pub channels: u16,
}

/// Whether a configuration range can capture at the recording rate in a
/// sample format the pipeline converts.
pub open spec fn config_usable(r: InputConfigRange) -> bool {
    !(r.sample_format is Other) && r.min_sample_rate <= SAMPLE_RATE && SAMPLE_RATE
        <= r.max_sample_rate
}

/// The message when no input configuration fits.
pub open spec fn no_config_message() -> Seq<char> {
    "no 48 kHz input configuration with f32/i16/u16 samples"@
}

/// Picks the first range that supports 48 kHz with f32, i16 or u16 samples.
pub fn select_input_config(ranges: &Vec<InputConfigRange>) -> (r: Result<usize, RecordingError>)
    ensures
        match r {
            Ok(i) => i < ranges.len() && config_usable(ranges@[i as int]) && forall|k: int|
                0 <= k < i ==> !config_usable(#[trigger] ranges@[k]),
            Err(e) => {
                &&& forall|k: int| 0 <= k < ranges.len() ==> !config_usable(#[trigger] ranges@[k])
                &&& e matches RecordingError::DeviceNotFound(m) && m@ == no_config_message()
            },
        },
{
    let mut i: usize = 0;
    while i < ranges.len()
        invariant
            i <= ranges.len(),
            forall|k: int| 0 <= k < i ==> !config_usable(#[trigger] ranges@[k]),
        decreases ranges.len() - i,
    {
        let r = &ranges[i];
        let format_ok = match r.sample_format {
            InputSampleFormat::Other => false,
            _ => true,
        };
        if format_ok && r.min_sample_rate <= SAMPLE_RATE && SAMPLE_RATE <= r.max_sample_rate {
            return Ok(i);
        }
        i = i + 1;
    }
    Err(RecordingError::DeviceNotFound(owned("no 48 kHz input configuration with f32/i16/u16 samples")))
}

/// The number of interleaved channels to downmix: the device's count, at least one.
pub fn input_channels(channels: u16) -> (r: usize)
    ensures
        r == (if channels == 0 { 1 } else { channels as usize }),
{
    if channels == 0 {
        1
    } else {
        channels as usize
    }
}

/// Which input device to open.
#[derive(Debug)]
pub enum InputDeviceChoice {
    /// The device at this position of the enumerated list.
    Listed(usize),
    /// The host's default input device.
    HostDefault,
}

/// Whether the enumerated device list holds a device named `wanted` at `i`.
pub open spec fn device_named(devices: Seq<Option<String>>, i: int, wanted: Seq<char>) -> bool {
    devices[i] matches Some(n) && n@ == wanted
}

/// Chooses the requested device by name: the first enumerated device whose
/// readable name equals it; with no request, no list, or no match, the host
/// default. A device whose name cannot be read never matches.
pub fn choose_input_device(devices: &Option<Vec<Option<String>>>, wanted: &Option<String>) -> (r:
    InputDeviceChoice)
    ensures
        match r {
            InputDeviceChoice::Listed(i) => wanted is Some && devices is Some && i
                < devices->0.len() && device_named(devices->0@, i as int, wanted->0@) && forall|
                k: int,
            | 0 <= k < i ==> !device_named(devices->0@, k, wanted->0@),
            InputDeviceChoice::HostDefault => match (devices, wanted) {
                (Some(list), Some(w)) => forall|k: int|
                    0 <= k < list.len() ==> !device_named(list@, k, w@),
                _ => true,
            },
        },
{
    if let Some(list) = devices {
        if let Some(w) = wanted {
            let mut i: usize = 0;
            while i < list.len()
                invariant
                    i <= list.len(),
                    devices == Some(*list),
                    wanted == Some(*w),
                    forall|k: int| 0 <= k < i ==> !device_named(list@, k, w@),
                decreases list.len() - i,
            {
                match &list[i] {
                    Some(n) => {
                        if *n == *w {
                            return InputDeviceChoice::Listed(i);
                        }
                    },
                    None => {},
                }
                i = i + 1;
            }
        }
    }
    InputDeviceChoice::HostDefault
}

/// The error when neither the requested nor a default input device exists.
pub fn no_input_device_error() -> (r: RecordingError)
    ensures
        r matches RecordingError::DeviceNotFound(m) && m@ == "no input device"@,
{
    RecordingError::DeviceNotFound(owned("no input device"))
}

/// Whether a buffer holding `len` samples has a full chunk to write.
pub fn chunk_is_full(len: usize) -> (r: bool)
    ensures
        r == (len >= SAMPLES_PER_CHUNK),
{
    len >= SAMPLES_PER_CHUNK
}

/// Where a chunked track writer stands: the index of the chunk being filled
/// and how many samples wait in its buffer.
#[derive(Debug)]
pub struct ChunkCursor {
    pub index: u32,
    pub buffered: usize,
}

impl ChunkCursor {
    /// A chunk never waits full in the buffer.
    pub open spec fn wf(self) -> bool {
        self.buffered < SAMPLES_PER_CHUNK
    }

    /// The samples this track has received so far.
    pub open spec fn samples_seen(self) -> nat {
        (self.index * SAMPLES_PER_CHUNK + self.buffered) as nat
    }

    /// The chunk files this track has, counting a partial chunk at stop.
    pub open spec fn chunks_at_stop(self) -> nat {
        (self.index + if self.buffered > 0 { 1int } else { 0int }) as nat
    }

    /// A writer that has received nothing: chunk 0, empty buffer.
    pub fn new() -> (r: ChunkCursor)
        ensures
            r.wf(),
            r.index == 0,
            r.buffered == 0,
    {
        ChunkCursor { index: 0, buffered: 0 }
    }

    /// One more sample joined the buffer. When that fills a chunk, returns
    /// the index to write the full chunk as, and the cursor moves on to the
    /// next chunk with an empty buffer; otherwise returns `None`.
    pub fn add_sample(&mut self) -> (r: Option<u32>)
        requires
            old(self).wf(),
            old(self).buffered + 1 == SAMPLES_PER_CHUNK ==> old(self).index < u32::MAX,
        ensures
            final(self).wf(),
            final(self).samples_seen() == old(self).samples_seen() + 1,
            old(self).buffered + 1 == SAMPLES_PER_CHUNK ==> {
                &&& r == Some(old(self).index)
                &&& final(self).index == old(self).index + 1
                &&& final(self).buffered == 0
            },
            old(self).buffered + 1 < SAMPLES_PER_CHUNK ==> {
                &&& r is None
                &&& final(self).index == old(self).index
                &&& final(self).buffered == old(self).buffered + 1
            },
    {
        if chunk_is_full(self.buffered + 1) {
            let full = self.index;
            self.index = self.index + 1;
            self.buffered = 0;
            Some(full)
        } else {
            self.buffered = self.buffered + 1;
            None
        }
    }

    /// At stop: the index of the last, partial chunk when samples wait in
    /// the buffer, `None` when the buffer is empty.
    pub fn final_chunk(&self) -> (r: Option<u32>)
        ensures
            r == (if self.buffered > 0 {
                Some(self.index)
            } else {
                None
            }),
    {
        if self.buffered > 0 {
            Some(self.index)
        } else {
            None
        }
    }
}

/// A track that received `n` samples stands at chunk `n / SAMPLES_PER_CHUNK`
/// with `n % SAMPLES_PER_CHUNK` samples buffered, and is written as
/// ⌈n / SAMPLES_PER_CHUNK⌉ chunk files: the full chunks while recording and
/// one partial chunk at stop for what is left.
pub proof fn lemma_chunk_count(c: ChunkCursor)
    requires
        c.wf(),
    ensures
        c.index == c.samples_seen() / (SAMPLES_PER_CHUNK as nat),
        c.buffered == c.samples_seen() % (SAMPLES_PER_CHUNK as nat),
        c.chunks_at_stop() == (c.samples_seen() + SAMPLES_PER_CHUNK - 1) / (SAMPLES_PER_CHUNK as int),
{
    let n = c.samples_seen() as int;
    let k = c.index as int;
    let b = c.buffered as int;
    let q = SAMPLES_PER_CHUNK as int;
    assert(n == k * q + b);
    vstd::arithmetic::div_mod::lemma_fundamental_div_mod_converse(n, q, k, b);
    if b > 0 {
        vstd::arithmetic::div_mod::lemma_fundamental_div_mod_converse(n + q - 1, q, k + 1, b - 1);
    } else {
        vstd::arithmetic::div_mod::lemma_fundamental_div_mod_converse(n + q - 1, q, k, q - 1);
    }
}

/// Whether writing chunk `index` also rewrites the metadata file.
pub open spec fn metadata_checkpoint(index: u32) -> bool {
    index % METADATA_EVERY_CHUNKS == 0
}

impl SessionStorage {
    /// Books microphone chunk `index` into the metadata and returns the file to
    /// write it to and whether the metadata file is due to be rewritten.
    pub fn record_mic_chunk(&mut self, index: u32) -> (r: (String, bool))
        requires
            index < u32::MAX,
        ensures
            final(self).metadata.audio.mic_chunks == index + 1,
            final(self).metadata.audio.remote_chunks == old(self).metadata.audio.remote_chunks,
            final(self).root == old(self).root,
            r.0@ == path_join(old(self).root@, chunk_file_name("mic"@, index as nat)),
            r.1 == metadata_checkpoint(index),
    {
        let path = self.mic_chunk_path(index);
        self.metadata.audio.mic_chunks = index + 1;
        (path, index % METADATA_EVERY_CHUNKS == 0)
    }

    /// Books remote chunk `index` into the metadata and says whether the
    /// metadata file is to be rewritten: at a checkpoint, or when `force`d
    /// for the final chunk.
    pub fn record_remote_chunk(&mut self, index: u32, force: bool) -> (r: bool)
        requires
            index < u32::MAX,
        ensures
            final(self).metadata.audio.remote_chunks == index + 1,
            final(self).metadata.audio.mic_chunks == old(self).metadata.audio.mic_chunks,
            final(self).root == old(self).root,
            r == (force || metadata_checkpoint(index)),
    {
        self.metadata.audio.remote_chunks = index + 1;
        force || index % METADATA_EVERY_CHUNKS == 0
    }
}

/// How a failed WAV write is reported.
#[derive(Debug)]
pub enum WavErrorClass {
    /// The disk is full.
    DiskFull,
    /// An I/O error, reported as it is.
    Io,
    /// Any other codec error, reported by its message.
    Other,
}

/// Classifies a WAV writer error from its message and, for an I/O error,
/// whether its kind is "storage full": a message mentioning "No space left" or
/// "Disk full", or a storage-full I/O error, is a full disk; other I/O errors
/// stay I/O errors; the rest are reported by message.
pub fn classify_wav_error(message: &str, io_storage_full: Option<bool>) -> (r: WavErrorClass)
    ensures
        r == (if contains_seq(message@, "No space left"@) || contains_seq(message@, "Disk full"@) {
            WavErrorClass::DiskFull
        } else {
            match io_storage_full {
                Some(true) => WavErrorClass::DiskFull,
                Some(false) => WavErrorClass::Io,
                None => WavErrorClass::Other,
            }
        }),
{
    if contains_str(message, "No space left") || contains_str(message, "Disk full") {
        WavErrorClass::DiskFull
    } else {
        match io_storage_full {
            Some(true) => WavErrorClass::DiskFull,
            Some(false) => WavErrorClass::Io,
            None => WavErrorClass::Other,
        }
    }
}

/// A chunk holds five seconds of 48 kHz audio; the microphone ring buffer holds
/// four chunks and the remote one eight; the metadata checkpoint comes once a
/// minute of audio.
pub proof fn lemma_chunk_geometry()
    ensures
        SAMPLES_PER_CHUNK == SAMPLE_RATE * CHUNK_DURATION_SEC,
        MIC_RING_CAPACITY == 4 * SAMPLES_PER_CHUNK,
        REMOTE_RING_CAPACITY == 8 * SAMPLES_PER_CHUNK,
        METADATA_EVERY_CHUNKS * CHUNK_DURATION_SEC == 60,
{
}

} // verus!
