# loon

Verified core of Loon, a local speech-to-text app: a global shortcut toggles
recording, a bundled runtime transcribes the audio with whisper.cpp, and the
transcript is copied or pasted, optionally after polishing by a local Ollama
model.

- `src/` is the library, verified with Verus: cancellation flags, recorder
  state, shortcut decisions and the processing pipeline after a recording,
  transcript cleaning and prompt filling, the runtime's request handling (WAV
  decoding itself is hound's, behind a trusted wrapper), whisper.cpp invocation, paths, settings defaults, endpoints.
- `app/` drives it: the HTTP runtime (axum), the desktop shell (Tauri, cpal,
  arboard, enigo), the SQLite history and the JSON settings file, and the
  floating-point audio processing.
- `tests/` runs the library on concrete inputs.
