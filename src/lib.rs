//! Capture, segmenting and transcription logic of a desktop meeting recorder.
//!
//! The library holds the decisions and data transformations of the recording
//! pipeline; the edges that talk to the operating system (audio devices, files,
//! child processes) hand it plain values and act on what it returns.

pub mod text;
pub mod manifest;
pub mod format;
pub mod layout;
pub mod transcoder;
pub mod capture;
pub mod session;
pub mod watcher;
pub mod listener;
pub mod transcript;
pub mod segment;
pub mod aggregate;
pub mod summary;
pub mod error;
pub mod recorder;
