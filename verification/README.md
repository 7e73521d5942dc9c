# ultra_meeting_core

The core of a local-first meeting recorder (microphone and remote audio in
five-second WAV chunks, then local transcription), written as a Verus library
whose decisions are proved against their contracts.

- `src/` is the verified library: the recording state machine and its laws,
  meeting-name sanitizing, the session folder layout and metadata, chunk
  booking, input device and configuration choice, WAV error classification,
  transcription batching, progress and the markdown transcript, the session
  coordinator's lifecycle decisions, and the metrics report of the C interface.
  Calls into chrono, uuid, dirs and a few std functions go through small
  trusted wrappers whose contracts say what those functions return.
- `app/` is the code around it: audio devices (cpal), ring buffers of float
  samples (rtrb), WAV files (hound), serialization (serde_json, serde_yaml),
  the whisper model, threads, locks and the exported C functions.
- `tests/` exercises the library on concrete values.
