//! just-talk: the verified core of a voice dictation tool.
//!
//! The library holds the decisions of the application: the dictation state
//! machine, configuration defaults and lookup, hotkey parsing and detection,
//! output routing, and the request/response logic of the transcription and
//! refinement backends. The program around it performs the I/O.

pub mod app;
pub mod audio;
pub mod config;
pub mod error;
pub mod hotkey;
pub mod json;
pub mod output;
pub mod overlay;
pub mod refine;
pub mod text;
pub mod transcribe;
pub mod tray;
