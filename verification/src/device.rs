//! The audio devices: which device is used for input and output, the state
//! of capture and playback, and the frames that capture delivers.
//!
//! The hardware itself is driven by the application. This module decides
//! which device is meant, what the capture stream is opened with, and what
//! becomes of each buffer that the hardware delivers.

use tokio::sync::broadcast::Receiver;
use vstd::prelude::*;

use crate::channel;
use crate::channel::Channel;
use crate::config::AppConfig;
use crate::error::AudioError;
use crate::frame::AudioFrame;
use crate::frame::VisemeData;
use crate::queue::after_push;
use crate::queue::FrameQueue;
use crate::queue::QueueView;
use crate::text::contains;
use crate::text::occurs_in;

verus! {

/// The number of captured frames that may wait for the segmenter.
pub const FRAME_QUEUE_CAPACITY: usize = 1024;

/// The number of viseme cues that the channel retains.
pub const VISEME_CAPACITY: usize = 1000;

/// The device name that stands for the host's default device.
pub open spec fn default_name() -> Seq<char> {
    "default"@
}

/// Which device of the host is used.
#[derive(Debug, Clone, Copy, PartialEq, Eq, Structural)]
pub enum DeviceChoice {
    /// The host's default device.
    Default,
    /// The device at this place in the host's list.
    Named(usize),
}

/// What the host offers: the names of its devices in the order in which it
/// lists them, `None` for a device whose name cannot be read, and whether it
/// has a default device for each direction.
#[derive(Debug, Clone)]
pub struct HostDevices {
    pub inputs: Vec<Option<String>>,
    pub outputs: Vec<Option<String>>,
    pub has_default_input: bool,
    pub has_default_output: bool,
}

/// What the capture stream is opened with.
#[derive(Debug, Clone, Copy, PartialEq, Eq, Structural)]
pub struct StreamSettings {
    pub channels: u16,
    pub sample_rate: u32,
    pub buffer_size: u32,
}

/// The device at a place in the list has a name, and the wanted text is part
/// of it.
pub open spec fn matches_at(names: Seq<Option<String>>, wanted: Seq<char>, i: int) -> bool {
    names[i] matches Some(name) && occurs_in(wanted, name@)
}

/// The first place at or after `from` at which a device's name holds the
/// wanted text, if there is one.
pub open spec fn first_match(names: Seq<Option<String>>, wanted: Seq<char>, from: int) -> Option<
    int,
>
    decreases names.len() - from,
{
    if from < 0 || from >= names.len() {
        None
    } else if matches_at(names, wanted, from) {
        Some(from)
    } else {
        first_match(names, wanted, from + 1)
    }
}

/// What `first_match` finds is a match with none before it, and where it
/// finds nothing, there is none.
pub proof fn lemma_first_match(names: Seq<Option<String>>, wanted: Seq<char>, from: int)
    requires
        0 <= from,
    ensures
        match first_match(names, wanted, from) {
            Some(i) => {
                &&& from <= i < names.len()
                &&& matches_at(names, wanted, i)
                &&& forall|j: int| from <= j < i ==> !matches_at(names, wanted, j)
            },
            None => forall|j: int| from <= j < names.len() ==> !matches_at(names, wanted, j),
        },
    decreases names.len() - from,
{
    if from < names.len() && !matches_at(names, wanted, from) {
        lemma_first_match(names, wanted, from + 1);
    }
}

/// What a configured device name resolves to. `"default"` means the host's
/// default device and fails with `NoDefaultDevice` where the host has none.
/// Any other name means the first device whose name holds it and fails with
/// `DeviceNotFound` where no device does.
pub open spec fn resolution(configured: Seq<char>, names: Seq<Option<String>>, has_default: bool)
    -> Result<DeviceChoice, AudioError> {
    if configured == default_name() {
        if has_default {
            Ok(DeviceChoice::Default)
        } else {
            Err(AudioError::NoDefaultDevice)
        }
    } else {
        match first_match(names, configured, 0) {
            Some(i) => Ok(DeviceChoice::Named(i as usize)),
            None => Err(AudioError::DeviceNotFound),
        }
    }
}

/// Finds the first device whose name holds the wanted text.
pub fn find_device_by_name(names: &Vec<Option<String>>, wanted: &str) -> (found: Option<usize>)
    ensures
        match found {
            Some(i) => first_match(names@, wanted@, 0) == Some(i as int),
            None => first_match(names@, wanted@, 0) is None,
        },
{
    let mut i: usize = 0;
    while i < names.len()
        invariant
            i <= names.len(),
            first_match(names@, wanted@, 0) == first_match(names@, wanted@, i as int),
        decreases names.len() - i,
    {
        match &names[i] {
            Some(name) => {
                if contains(name.as_str(), wanted) {
                    return Some(i);
                }
            },
            None => {},
        }
        i += 1;
    }
    None
}

/// Resolves a configured device name among the devices of the host.
pub fn resolve_device(configured: &str, names: &Vec<Option<String>>, has_default: bool) -> (choice:
    Result<DeviceChoice, AudioError>)
    ensures
        choice == resolution(configured@, names@, has_default),
{
    if configured.eq("default") {
        if has_default {
            Ok(DeviceChoice::Default)
        } else {
            Err(AudioError::NoDefaultDevice)
        }
    } else {
        match find_device_by_name(names, configured) {
            Some(i) => Ok(DeviceChoice::Named(i)),
            None => Err(AudioError::DeviceNotFound),
        }
    }
}

/// The audio devices and what they are doing.
pub struct AudioManager {
    input_name: String,
    output_name: String,
    settings: StreamSettings,
    input_device: Option<DeviceChoice>,
    output_device: Option<DeviceChoice>,
    stream_open: bool,
    is_recording: bool,
    is_playing: bool,
    frames: FrameQueue,
    viseme_broadcaster: Channel<VisemeData>,
}

/// The state of the audio devices, as mathematical values.
#[verifier::ext_equal]
pub ghost struct ManagerView {
    /// The configured device names.
    pub input_name: Seq<char>,
    pub output_name: Seq<char>,
    /// What the capture stream is opened with.
    pub settings: StreamSettings,
    /// The devices in use, once resolved.
    pub input: Option<DeviceChoice>,
    pub output: Option<DeviceChoice>,
    /// Whether the capture stream is open.
    pub stream_open: bool,
    pub recording: bool,
    pub playing: bool,
    /// The captured frames that wait for the segmenter.
    pub queue: QueueView,
    /// The number of cues that the viseme channel was made to retain.
    pub viseme_capacity: nat,
}

impl View for AudioManager {
    type V = ManagerView;

    closed spec fn view(&self) -> ManagerView {
        ManagerView {
            input_name: self.input_name@,
            output_name: self.output_name@,
            settings: self.settings,
            input: self.input_device,
            output: self.output_device,
            stream_open: self.stream_open,
            recording: self.is_recording,
            playing: self.is_playing,
            queue: self.frames@,
            viseme_capacity: self.viseme_broadcaster.made_with(),
        }
    }
}

/// The frame that capture makes of a buffer.
pub open spec fn stamped(settings: StreamSettings, data: Vec<i16>, now_ms: u64) -> AudioFrame {
    AudioFrame {
        data,
        sample_rate: settings.sample_rate,
        channels: settings.channels,
        timestamp: now_ms,
    }
}

/// The audio devices as configured: none resolved yet, nothing recording or
/// playing, no frame waiting.
pub open spec fn fresh_manager(config: &AppConfig) -> ManagerView {
    ManagerView {
        input_name: config.audio.input.device@,
        output_name: config.audio.output.device@,
        settings: StreamSettings {
            channels: config.audio.input.channels,
            sample_rate: config.audio.input.sample_rate,
            buffer_size: config.audio.input.buffer_size,
        },
        input: None,
        output: None,
        stream_open: false,
        recording: false,
        playing: false,
        queue: QueueView {
            frames: Seq::empty(),
            capacity: FRAME_QUEUE_CAPACITY as nat,
            dropped: 0,
        },
        viseme_capacity: VISEME_CAPACITY as nat,
    }
}

/// The state after the setup of the devices: the input device is resolved
/// first, then the output device; what cannot be resolved stays as it was,
/// and so does the output device where the input device cannot be resolved.
pub open spec fn after_setup(state: ManagerView, host: &HostDevices) -> ManagerView {
    match resolution(state.input_name, host.inputs@, host.has_default_input) {
        Err(_) => state,
        Ok(input) => match resolution(state.output_name, host.outputs@, host.has_default_output) {
            Err(_) => ManagerView { input: Some(input), ..state },
            Ok(output) => ManagerView { input: Some(input), output: Some(output), ..state },
        },
    }
}

/// What the setup of the devices reports: the error of the first device that
/// cannot be resolved, the input device first.
pub open spec fn setup_outcome(state: ManagerView, host: &HostDevices) -> Result<(), AudioError> {
    match resolution(state.input_name, host.inputs@, host.has_default_input) {
        Err(e) => Err(e),
        Ok(_) => match resolution(state.output_name, host.outputs@, host.has_default_output) {
            Err(e) => Err(e),
            Ok(_) => Ok(()),
        },
    }
}

/// The state after capture and playback were shut down.
pub open spec fn shut_down(state: ManagerView) -> ManagerView {
    ManagerView { stream_open: false, recording: false, playing: false, ..state }
}

/// The state after capture was stopped.
pub open spec fn capture_stopped(state: ManagerView) -> ManagerView {
    ManagerView { stream_open: false, recording: false, ..state }
}

impl AudioManager {
    /// No more frames wait than the queue may hold, recording goes on only
    /// while the capture stream is open, and the stream is open only on a
    /// resolved input device.
    pub open spec fn wf(&self) -> bool {
        &&& self@.queue.frames.len() <= self@.queue.capacity
        &&& self@.recording ==> self@.stream_open
        &&& self@.stream_open ==> self@.input is Some
    }

    /// The audio devices as configured: none resolved yet, nothing recording
    /// or playing, no frame waiting.
    pub fn new(config: &AppConfig) -> (manager: AudioManager)
        ensures
            manager.wf(),
            manager@ == fresh_manager(config),
    {
        AudioManager {
            input_name: config.audio.input.device.clone(),
            output_name: config.audio.output.device.clone(),
            settings: StreamSettings {
                channels: config.audio.input.channels,
                sample_rate: config.audio.input.sample_rate,
                buffer_size: config.audio.input.buffer_size,
            },
            input_device: None,
            output_device: None,
            stream_open: false,
            is_recording: false,
            is_playing: false,
            frames: FrameQueue::new(FRAME_QUEUE_CAPACITY),
            viseme_broadcaster: channel::open_channel(VISEME_CAPACITY),
        }
    }

    /// Resolves the configured input device, then the configured output
    /// device, among what the host offers. The first that cannot be resolved
    /// ends the setup with its error; an input device resolved before that
    /// stays resolved.
    pub fn initialize(&mut self, host: &HostDevices) -> (done: Result<(), AudioError>)
        requires
            old(self).wf(),
        ensures
            final(self).wf(),
            final(self)@ == after_setup(old(self)@, host),
            done == setup_outcome(old(self)@, host),
    {
        let input = match resolve_device(
            self.input_name.as_str(),
            &host.inputs,
            host.has_default_input,
        ) {
            Ok(choice) => choice,
            Err(e) => {
                return Err(e);
            },
        };
        self.input_device = Some(input);
        let output = match resolve_device(
            self.output_name.as_str(),
            &host.outputs,
            host.has_default_output,
        ) {
            Ok(choice) => choice,
            Err(e) => {
                return Err(e);
            },
        };
        self.output_device = Some(output);
        Ok(())
    }

    /// What the capture stream is to be opened with. Fails with
    /// `EngineUninitialized` where no input device was resolved.
    pub fn stream_settings(&self) -> (settings: Result<StreamSettings, AudioError>)
        ensures
            self@.input is Some ==> settings == Ok::<StreamSettings, AudioError>(self@.settings),
            self@.input is None ==> settings == Err::<StreamSettings, AudioError>(
                AudioError::EngineUninitialized,
            ),
    {
        match self.input_device {
            Some(_) => Ok(self.settings),
            None => Err(AudioError::EngineUninitialized),
        }
    }

    /// Starts recording on the capture stream that the application has tried
    /// to open. Without a resolved input device the result is
    /// `EngineUninitialized`; where the stream could not be opened it is
    /// `StreamError`. Either failure leaves the state as it was.
    pub fn start_recording(&mut self, stream_opened: bool) -> (done: Result<(), AudioError>)
        requires
            old(self).wf(),
        ensures
            final(self).wf(),
            old(self)@.input is None ==> {
                &&& done == Err::<(), AudioError>(AudioError::EngineUninitialized)
                &&& final(self)@ == old(self)@
            },
            old(self)@.input is Some && !stream_opened ==> {
                &&& done == Err::<(), AudioError>(AudioError::StreamError)
                &&& final(self)@ == old(self)@
            },
            old(self)@.input is Some && stream_opened ==> {
                &&& done == Ok::<(), AudioError>(())
                &&& final(self)@ == (ManagerView {
                    stream_open: true,
                    recording: true,
                    ..old(self)@
                })
            },
    {
        if self.input_device.is_none() {
            return Err(AudioError::EngineUninitialized);
        }
        if !stream_opened {
            return Err(AudioError::StreamError);
        }
        self.stream_open = true;
        self.is_recording = true;
        Ok(())
    }

    /// Stops recording and gives the capture stream up. Doing so again
    /// changes nothing.
    pub fn stop_recording(&mut self) -> (done: Result<(), AudioError>)
        requires
            old(self).wf(),
        ensures
            final(self).wf(),
            done == Ok::<(), AudioError>(()),
            final(self)@ == capture_stopped(old(self)@),
    {
        self.is_recording = false;
        self.stream_open = false;
        Ok(())
    }

    /// Stops capture and marks playback as over. This is what remains to be
    /// done before the devices are given up.
    pub fn shutdown(&mut self)
        requires
            old(self).wf(),
        ensures
            final(self).wf(),
            final(self)@ == shut_down(old(self)@),
    {
        self.is_recording = false;
        self.stream_open = false;
        self.is_playing = false;
    }

    /// Takes a buffer from the capture stream. While recording, the buffer
    /// is stamped with the stream's rate and channels and with the time, and
    /// queued; where the queue is full, its oldest frame is dropped. While
    /// not recording, the buffer is dropped. Returns whether it was queued.
    pub fn capture(&mut self, data: Vec<i16>, now_ms: u64) -> (queued: bool)
        requires
            old(self).wf(),
        ensures
            final(self).wf(),
            queued == old(self)@.recording,
            !queued ==> final(self)@ == old(self)@,
            queued ==> final(self)@ == (ManagerView {
                queue: after_push(old(self)@.queue, stamped(old(self)@.settings, data, now_ms)),
                ..old(self)@
            }),
    {
        if !self.is_recording {
            return false;
        }
        let frame = AudioFrame {
            data,
            sample_rate: self.settings.sample_rate,
            channels: self.settings.channels,
            timestamp: now_ms,
        };
        let _overflow = self.frames.push(frame);
        true
    }

    /// Takes the frames that wait out of the queue, oldest first.
    pub fn take_frames(&mut self) -> (frames: Vec<AudioFrame>)
        requires
            old(self).wf(),
        ensures
            final(self).wf(),
            frames@ == old(self)@.queue.frames,
            final(self)@ == (ManagerView {
                queue: QueueView { frames: Seq::empty(), ..old(self)@.queue },
                ..old(self)@
            }),
    {
        self.frames.drain()
    }

    /// Records the playback of a waveform that the application has tried to
    /// hand to the output. Where it was handed over, playback counts as
    /// going on; where it could not be, the result is `StreamError` and the
    /// state stays as it was.
    pub fn play_audio(&mut self, audio_data: &Vec<i16>, sample_rate: u32, scheduled: bool) -> (done:
        Result<(), AudioError>)
        requires
            old(self).wf(),
        ensures
            final(self).wf(),
            scheduled ==> {
                &&& done == Ok::<(), AudioError>(())
                &&& final(self)@ == (ManagerView { playing: true, ..old(self)@ })
            },
            !scheduled ==> {
                &&& done == Err::<(), AudioError>(AudioError::StreamError)
                &&& final(self)@ == old(self)@
            },
    {
        if !scheduled {
            return Err(AudioError::StreamError);
        }
        self.is_playing = true;
        Ok(())
    }

    /// A receiver for the viseme cues sent from now on.
    pub fn get_viseme_receiver(&self) -> Receiver<VisemeData> {
        channel::subscribe(&self.viseme_broadcaster)
    }

    /// Sends a viseme cue to the subscribers of the viseme channel. Without
    /// a subscriber the cue is dropped and the result is `ChannelClosed`.
    pub fn send_viseme(&self, viseme: VisemeData) -> (done: Result<(), AudioError>)
        ensures
            done == Ok::<(), AudioError>(()) || done == Err::<(), AudioError>(
                AudioError::ChannelClosed,
            ),
    {
        channel::delivery(channel::send(&self.viseme_broadcaster, viseme))
    }

    /// The input device in use, once resolved.
    pub fn input_device(&self) -> (choice: Option<DeviceChoice>)
        ensures
            choice == self@.input,
    {
        self.input_device
    }

    /// The output device in use, once resolved.
    pub fn output_device(&self) -> (choice: Option<DeviceChoice>)
        ensures
            choice == self@.output,
    {
        self.output_device
    }

    /// Tells whether capture is recording.
    pub fn is_recording(&self) -> (recording: bool)
        ensures
            recording == self@.recording,
    {
        self.is_recording
    }

    /// Tells whether playback is going on.
    pub fn is_playing(&self) -> (playing: bool)
        ensures
            playing == self@.playing,
    {
        self.is_playing
    }
}

/// Stopping capture twice is the same as stopping it once, and so is
/// shutting down.
pub proof fn lemma_stop_idempotent(state: ManagerView)
    ensures
        capture_stopped(capture_stopped(state)) == capture_stopped(state),
        shut_down(shut_down(state)) == shut_down(state),
        !capture_stopped(state).recording,
        !shut_down(state).recording && !shut_down(state).playing,
{
}

} // verus!
