# metafy

The logic of Metafy Desktop, a local-only screen recording and transcript assistant, as a
Verus library: every function in `src/` carries a contract that Verus proves, except ten
trusted wrappers whose contracts are taken on trust from the code they call (LZ4 compression
and decompression from `lz4_flex`, the triangle resize and the JPEG encoder from `image`,
`char::is_alphanumeric`, the system clock, and `Path::is_absolute`, `Path::join`,
`Path::parent` and `Path::extension` of the platform the library is built for), and one
trusted specification of `String::push`.

- `src/capture.rs`, `src/source_audio.rs`, `src/recorder.rs`, `src/session_metadata.rs`:
  capture selection and validation, video and audio targets, the locked output canvas and
  frame normalization, and the records and metadata written while capturing.
- `src/media/`: the sidecar formats (frame and audio block records, LZ4 framing), chunked
  video manifests, audio timing, WAV bytes, thumbnails, encoder readiness and the pure parts
  of the platform encoders.
- `src/encoding.rs`: which session can be encoded, the staging files, and the result.
- `src/storage.rs`, `src/storage/`: the stored records and the rules for each change of a
  recording, session, transcript, AI summary or processing job.
- `src/jobs.rs`: the decisions of the processing-job worker and of start-up recovery.
- `src/session_control.rs`: the capture runtime's one active session and the steps of
  starting a recording session.
- `src/transcription.rs`, `src/ai.rs`: whisper model handling and commands, and the
  transcript-only AI payload with its guardrail.
- `src/text.rs`, `src/paths.rs`: string and path helpers with their specifications.

`tests/` runs the library on concrete values. `app/` holds what the library does not: the
SQLite store, file, process and network I/O, float audio mixing, the job worker loop and the capture-session loop.
