//! Real-time conversational audio: capture, speech segmentation, speech
//! synthesis with a viseme timeline, and the orchestrator that ties them
//! together.
//!
//! The library works on integers throughout. Samples are signed 16-bit PCM,
//! amplitudes and thresholds are in PCM units, times and durations are in
//! milliseconds, and ratios (volume, speed, intensity, confidence) are in
//! thousandths.

pub mod channel;
pub mod config;
pub mod device;
pub mod error;
pub mod frame;
pub mod mode;
pub mod phoneme;
pub mod processor;
pub mod queue;
pub mod shell;
pub mod stt;
pub mod text;
pub mod tts;
pub mod viseme;
