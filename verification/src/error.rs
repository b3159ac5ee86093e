//! The error taxonomy of the audio pipeline.

use vstd::prelude::*;

verus! {

/// What can go wrong in the audio pipeline.
#[derive(Debug, Clone, Copy, PartialEq, Eq, Structural)]
pub enum AudioError {
    /// A configured device name matches none of the host's devices.
    DeviceNotFound,
    /// The device is configured as `"default"` and the host has none.
    NoDefaultDevice,
    /// A capture or playback stream could not be opened as requested.
    StreamError,
    /// An operation was invoked before the setup it depends on.
    EngineUninitialized,
    /// The transcription engine reported an error.
    TranscriptionFailure,
    /// The synthesis engine reported an error, or the request is beyond what
    /// the timeline or the waveform length can represent.
    SynthesisFailure,
    /// A channel has nobody left on its other side.
    ChannelClosed,
    /// A subscriber fell behind by more than its channel retains, and lost
    /// the oldest values that it had not read.
    SubscriberLagged,
    /// The requested mode is not reachable from the current one.
    InvalidTransition,
    /// A setting is outside the supported range.
    UnsupportedConfig,
}

impl AudioError {
    /// Both ways in which hardware can be missing.
    pub open spec fn device_unavailable(self) -> bool {
        self == AudioError::DeviceNotFound || self == AudioError::NoDefaultDevice
    }

    /// Tells whether the error means that no matching or default device exists.
    pub fn is_device_unavailable(&self) -> (b: bool)
        ensures
            b == self.device_unavailable(),
    {
        match self {
            AudioError::DeviceNotFound => true,
            AudioError::NoDefaultDevice => true,
            _ => false,
        }
    }

    /// A descriptive message for the error.
    pub fn message(&self) -> (text: String)
        ensures
            text@ == message_of(*self),
    {
        match self {
            AudioError::DeviceNotFound => "No audio device matches the configured name".to_string(),
            AudioError::NoDefaultDevice => "No default audio device available".to_string(),
            AudioError::StreamError => "Audio stream could not be opened".to_string(),
            AudioError::EngineUninitialized => "Audio engine not initialized".to_string(),
            AudioError::TranscriptionFailure => "Transcription failed".to_string(),
            AudioError::SynthesisFailure => "Speech synthesis failed".to_string(),
            AudioError::ChannelClosed => "Channel closed".to_string(),
            AudioError::SubscriberLagged => "Subscriber lagged and lost events".to_string(),
            AudioError::InvalidTransition => "Mode transition not allowed".to_string(),
            AudioError::UnsupportedConfig => "Configuration value out of range".to_string(),
        }
    }
}

/// The message that belongs to each error.
pub open spec fn message_of(error: AudioError) -> Seq<char> {
    match error {
        AudioError::DeviceNotFound => "No audio device matches the configured name"@,
        AudioError::NoDefaultDevice => "No default audio device available"@,
        AudioError::StreamError => "Audio stream could not be opened"@,
        AudioError::EngineUninitialized => "Audio engine not initialized"@,
        AudioError::TranscriptionFailure => "Transcription failed"@,
        AudioError::SynthesisFailure => "Speech synthesis failed"@,
        AudioError::ChannelClosed => "Channel closed"@,
        AudioError::SubscriberLagged => "Subscriber lagged and lost events"@,
        AudioError::InvalidTransition => "Mode transition not allowed"@,
        AudioError::UnsupportedConfig => "Configuration value out of range"@,
    }
}

} // verus!
