//! What the C interface reports, computed from plain values. The exported
//! C functions themselves live in the application.

use vstd::prelude::*;
use crate::session::samples_per_sec;
use crate::state::{state_name, RecordingState};
use crate::text::{decimal, push_decimal, push_str};

verus! {

/// The metrics object: overrun counts, remote samples, duration and the
/// remote sample rate, as one line of JSON.
pub open spec fn metrics_json(mic_overruns: u64, remote_overruns: u64, remote_samples: u64, duration_secs: u64) -> Seq<char> {
    "{\"mic_overruns\":"@ + decimal(mic_overruns as nat) + ",\"remote_overruns\":"@ + decimal(
        remote_overruns as nat,
    ) + ",\"remote_samples\":"@ + decimal(remote_samples as nat) + ",\"duration_secs\":"@
        + decimal(duration_secs as nat) + ",\"remote_samples_per_sec\":"@ + decimal(
        samples_per_sec(remote_samples, duration_secs) as nat,
    ) + "}"@
}

/// Renders a metrics snapshot (mic_overruns, remote_overruns, remote_samples, duration_secs) as JSON.
pub fn recording_metrics_json(snapshot: (u64, u64, u64, u64)) -> (r: String)
    ensures
        r@ == metrics_json(snapshot.0, snapshot.1, snapshot.2, snapshot.3),
{
    let (mic_overruns, remote_overruns, remote_samples, duration_secs) = snapshot;
    let rate: u64 = crate::session::remote_samples_per_sec(remote_samples, duration_secs);
    let mut json = String::new();
    push_str(&mut json, "{\"mic_overruns\":");
    push_decimal(&mut json, mic_overruns, 1);
    push_str(&mut json, ",\"remote_overruns\":");
    push_decimal(&mut json, remote_overruns, 1);
    push_str(&mut json, ",\"remote_samples\":");
    push_decimal(&mut json, remote_samples, 1);
    push_str(&mut json, ",\"duration_secs\":");
    push_decimal(&mut json, duration_secs, 1);
    push_str(&mut json, ",\"remote_samples_per_sec\":");
    push_decimal(&mut json, rate, 1);
    push_str(&mut json, "}");
    json
}

/// The state name reported over the C interface: the current state's name,
/// or "idle" before the core is initialized.
pub fn reported_state_name(state: Option<&RecordingState>) -> (r: &'static str)
    ensures
        r@ == (match state {
            Some(s) => state_name(*s),
            None => "idle"@,
        }),
{
    match state {
        Some(s) => s.display_name(),
        None => "idle",
    }
}

/// The recording duration reported over the C interface: the seconds the
/// recording has run while the state is Recording, 0 in any other state or
/// when no duration is known.
pub fn reported_duration_secs(state: Option<&RecordingState>, duration_secs: Option<u64>) -> (r: u64)
    ensures
        r == (match (state, duration_secs) {
            (Some(RecordingState::Recording), Some(d)) => d,
            _ => 0,
        }),
{
    match (state, duration_secs) {
        (Some(RecordingState::Recording), Some(d)) => d,
        _ => 0,
    }
}

/// The transcription progress reported over the C interface: the stored
/// percentage (never more than 100) while the state is Processing, 0 in any
/// other state or before the core is initialized.
pub fn reported_progress(state: Option<&RecordingState>, progress: u32) -> (r: u32)
    ensures
        r == (if state matches Some(s) && s is Processing {
            if progress <= 100 {
                progress
            } else {
                100
            }
        } else {
            0
        }),
        r <= 100,
{
    match state {
        Some(RecordingState::Processing) => if progress <= 100 {
            progress
        } else {
            100
        },
        _ => 0,
    }
}

} // verus!
