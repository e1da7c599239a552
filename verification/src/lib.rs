//! Verified core of Loon, a local speech-to-text companion: the decisions,
//! text handling and request shaping of the desktop app and of its bundled
//! transcription runtime. Everything that touches devices, files, sockets or
//! processes lives in the `app/` crate, which drives these functions.

pub mod cancel;
pub mod text;
pub mod polish;
pub mod paths;
pub mod transcribe;
pub mod whisper;
pub mod config;
pub mod recorder;
pub mod shortcut;
pub mod server;
pub mod launcher;
pub mod proxy;
pub mod history;
