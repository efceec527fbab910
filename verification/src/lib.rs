//! Core of a microphone recorder: sample conversion to 16-bit PCM,
//! a WAV container encoder, and the start/stop recording lifecycle.
//!
//! Device discovery, the platform audio stream and all file output
//! live outside this crate; the library works on plain sample values
//! and produces the finished WAV bytes.

pub mod convert;
pub mod recorder;
pub mod wav;
