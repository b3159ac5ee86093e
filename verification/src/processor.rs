//! The orchestrator: it owns the devices, the segmenter and the synthesizer,
//! keeps the operating mode, and turns their results into one stream of
//! events.

use tokio::sync::broadcast::Receiver;
use vstd::prelude::*;

use crate::channel;
use crate::channel::Channel;
use crate::config::AppConfig;
use crate::device::after_setup;
use crate::device::capture_stopped;
use crate::device::fresh_manager;
use crate::device::setup_outcome;
use crate::device::shut_down;
use crate::device::stamped;
use crate::device::AudioManager;
use crate::device::DeviceChoice;
use crate::device::HostDevices;
use crate::device::ManagerView;
use crate::device::StreamSettings;
use crate::error::message_of;
use crate::error::AudioError;
use crate::frame::cue_views;
use crate::frame::duplicate_cues;
use crate::frame::CueView;
use crate::frame::VisemeData;
use crate::mode::allowed_edge;
use crate::mode::can_transition;
use crate::mode::ProcessingMode;
use crate::queue::after_push;
use crate::queue::QueueView;
use crate::stt::after_frames;
use crate::stt::frame_data;
use crate::stt::fresh_segmenter;
use crate::stt::model_file;
use crate::stt::processing_started;
use crate::stt::sample_views;
use crate::stt::transcript;
use crate::stt::transcript_views;
use crate::stt::transcripts;
use crate::stt::utterances;
use crate::stt::SegmenterView;
use crate::stt::SpeechToText;
use crate::stt::TranscriptionResult;
use crate::text::blank;
use crate::text::is_blank;
use crate::tts::fresh_synthesizer;
use crate::tts::plan_matches;
use crate::tts::result_fits;
use crate::tts::waveform_len;
use crate::tts::AudioPlan;
use crate::tts::SynthesisRequest;
use crate::tts::SynthesisResult;
use crate::tts::SynthesizerView;
use crate::tts::TextToSpeech;

verus! {

/// The number of events that the event channel retains.
pub const EVENT_CAPACITY: usize = 1000;

/// What the pipeline tells its subscribers.
#[derive(Debug, Clone)]
pub enum AudioEvent {
    /// An utterance was recognized as this text.
    SpeechDetected(String),
    SpeechEnded,
    /// This waveform was synthesized and handed to playback.
    AudioGenerated(Vec<i16>),
    /// This cue belongs to the waveform announced before it.
    VisemeGenerated(VisemeData),
    /// Something failed in the background.
    Error(String),
}

/// What an event says, as mathematical values.
#[verifier::ext_equal]
pub ghost enum EventView {
    SpeechDetected(Seq<char>),
    SpeechEnded,
    AudioGenerated(Seq<i16>),
    VisemeGenerated(CueView),
    Error(Seq<char>),
}

impl View for AudioEvent {
    type V = EventView;

    open spec fn view(&self) -> EventView {
        match self {
            AudioEvent::SpeechDetected(text) => EventView::SpeechDetected(text@),
            AudioEvent::SpeechEnded => EventView::SpeechEnded,
            AudioEvent::AudioGenerated(samples) => EventView::AudioGenerated(samples@),
            AudioEvent::VisemeGenerated(cue) => EventView::VisemeGenerated(cue@),
            AudioEvent::Error(message) => EventView::Error(message@),
        }
    }
}

/// The views of a sequence of events, in the same order.
pub open spec fn event_views(events: Seq<AudioEvent>) -> Seq<EventView> {
    Seq::new(events.len(), |i: int| events[i]@)
}

/// The event for a transcription result: the recognized text, unless it is
/// blank. A blank text gives no event.
pub open spec fn speech_event(text: Seq<char>) -> Option<EventView> {
    if blank(text) {
        None
    } else {
        Some(EventView::SpeechDetected(text))
    }
}

/// The events for a synthesis result: the waveform first, then one event for
/// each cue, in the order of the cues.
pub open spec fn result_events(audio: Seq<i16>, cues: Seq<CueView>) -> Seq<EventView> {
    Seq::new(
        cues.len() + 1,
        |i: int|
            if i == 0 {
                EventView::AudioGenerated(audio)
            } else {
                EventView::VisemeGenerated(cues[i - 1])
            },
    )
}

/// The event that tells of a lag.
pub open spec fn lag_event() -> EventView {
    EventView::Error(message_of(AudioError::SubscriberLagged))
}

/// The event that tells that a waveform could not be handed to the output.
pub open spec fn playback_failure() -> EventView {
    EventView::Error(message_of(AudioError::StreamError))
}

/// The events of one turn of the loop that drains the transcription stream:
/// while the pipeline is running, a result gives its event, unless its text
/// is blank, and a lag gives an error event. Nothing else gives an event.
pub open spec fn transcription_turn_events(running: bool, received: Reception<TranscriptionResult>)
    -> Seq<EventView> {
    if !running {
        Seq::empty()
    } else {
        match received {
            Reception::Value(result) => match speech_event(result@.text) {
                Some(event) => seq![event],
                None => Seq::empty(),
            },
            Reception::Lagged(_) => seq![lag_event()],
            Reception::Closed => Seq::empty(),
        }
    }
}

/// The events of one turn of the loop that drains the synthesis stream,
/// before playback: while the pipeline is running, a lag gives an error
/// event. Nothing else gives an event.
pub open spec fn synthesis_turn_events(running: bool, received: Reception<SynthesisResult>) -> Seq<
    EventView,
> {
    if running && received is Lagged {
        seq![lag_event()]
    } else {
        Seq::empty()
    }
}

/// The events for a synthesis result after the application has tried to
/// hand its waveform to the output: an error event first where that failed,
/// then the waveform, then one event for each cue, in the order of the cues.
pub open spec fn playback_events(audio: Seq<i16>, cues: Seq<CueView>, scheduled: bool) -> Seq<
    EventView,
> {
    if scheduled {
        result_events(audio, cues)
    } else {
        seq![playback_failure()] + result_events(audio, cues)
    }
}

/// The event for a transcription result.
pub fn transcription_event(result: &TranscriptionResult) -> (event: Option<AudioEvent>)
    ensures
        match event {
            Some(e) => speech_event(result@.text) == Some(e@),
            None => speech_event(result@.text) is None,
        },
{
    if is_blank(result.text.as_str()) {
        None
    } else {
        Some(AudioEvent::SpeechDetected(result.text.clone()))
    }
}

/// The events for a synthesis result.
pub fn synthesis_events(result: &SynthesisResult) -> (events: Vec<AudioEvent>)
    ensures
        event_views(events@) == result_events(result@.audio, result@.visemes),
{
    let mut events: Vec<AudioEvent> = Vec::new();
    events.push(AudioEvent::AudioGenerated(result.audio_data.clone()));
    let mut i: usize = 0;
    while i < result.visemes.len()
        invariant
            i <= result.visemes.len(),
            events@.len() == i + 1,
            forall|k: int|
                0 <= k < events@.len() ==> events@[k]@ == result_events(
                    result@.audio,
                    result@.visemes,
                )[k],
        decreases result.visemes.len() - i,
    {
        events.push(AudioEvent::VisemeGenerated(result.visemes[i].duplicate()));
        i += 1;
    }
    assert(event_views(events@) =~= result_events(result@.audio, result@.visemes));
    events
}

/// The events of one turn of the loop that drains the transcription stream.
pub fn events_of_transcription_turn(
    running: bool,
    received: &Reception<TranscriptionResult>,
) -> (events: Vec<AudioEvent>)
    ensures
        event_views(events@) == transcription_turn_events(running, *received),
{
    let mut events: Vec<AudioEvent> = Vec::new();
    if running {
        match received {
            Reception::Value(result) => {
                match transcription_event(result) {
                    Some(event) => {
                        events.push(event);
                    },
                    None => {},
                }
            },
            Reception::Lagged(_) => {
                events.push(error_event(AudioError::SubscriberLagged));
            },
            Reception::Closed => {},
        }
    }
    assert(event_views(events@) =~= transcription_turn_events(running, *received));
    events
}

/// The events of one turn of the loop that drains the synthesis stream,
/// before playback.
pub fn events_of_synthesis_turn(running: bool, received: &Reception<SynthesisResult>) -> (events:
    Vec<AudioEvent>)
    ensures
        event_views(events@) == synthesis_turn_events(running, *received),
{
    let mut events: Vec<AudioEvent> = Vec::new();
    if running {
        match received {
            Reception::Lagged(_) => {
                events.push(error_event(AudioError::SubscriberLagged));
            },
            _ => {},
        }
    }
    assert(event_views(events@) =~= synthesis_turn_events(running, *received));
    events
}

/// The events for a synthesis result after the application has tried to
/// hand its waveform to the output.
pub fn events_of_playback(result: &SynthesisResult, scheduled: bool) -> (events: Vec<AudioEvent>)
    ensures
        event_views(events@) == playback_events(result@.audio, result@.visemes, scheduled),
{
    let mut events: Vec<AudioEvent> = Vec::new();
    if !scheduled {
        events.push(error_event(AudioError::StreamError));
    }
    let ghost lead = event_views(events@);
    let following = synthesis_events(result);
    let mut i: usize = 0;
    while i < following.len()
        invariant
            i <= following.len(),
            event_views(events@) == lead + event_views(following@).take(i as int),
        decreases following.len() - i,
    {
        let ghost sofar = event_views(events@);
        events.push(duplicate_event(&following[i]));
        assert(event_views(events@) =~= sofar.push(event_views(following@)[i as int]));
        i += 1;
        assert(event_views(events@) =~= lead + event_views(following@).take(i as int));
    }
    assert(event_views(following@).take(following.len() as int) =~= event_views(following@));
    assert(event_views(events@) =~= playback_events(result@.audio, result@.visemes, scheduled));
    events
}

/// The cues of a synthesis result that are sent to the viseme channel: all
/// of them, in their order.
pub fn cues_to_send(result: &SynthesisResult) -> (cues: Vec<VisemeData>)
    ensures
        cue_views(cues@) == result@.visemes,
{
    duplicate_cues(&result.visemes)
}

/// A second event that says the same.
pub fn duplicate_event(event: &AudioEvent) -> (copy: AudioEvent)
    ensures
        copy@ == event@,
{
    match event {
        AudioEvent::SpeechDetected(text) => AudioEvent::SpeechDetected(text.clone()),
        AudioEvent::SpeechEnded => AudioEvent::SpeechEnded,
        AudioEvent::AudioGenerated(samples) => AudioEvent::AudioGenerated(samples.clone()),
        AudioEvent::VisemeGenerated(cue) => AudioEvent::VisemeGenerated(cue.duplicate()),
        AudioEvent::Error(message) => AudioEvent::Error(message.clone()),
    }
}

/// The event that reports an error.
pub fn error_event(error: AudioError) -> (event: AudioEvent)
    ensures
        event@ == EventView::Error(message_of(error)),
{
    AudioEvent::Error(error.message())
}

/// What a consumer loop got from its channel.
#[derive(Debug, Clone)]
pub enum Reception<T> {
    /// The next value.
    Value(T),
    /// The loop fell behind by more than the channel retains; so many of the
    /// oldest values it had not read are lost.
    Lagged(u64),
    /// Nobody is left to send on the channel.
    Closed,
}

/// What a consumer loop does after a turn.
#[derive(Debug, Clone, Copy, PartialEq, Eq, Structural)]
pub enum LoopControl {
    /// Wait for the next value.
    Continue,
    /// End the loop.
    Exit,
}

/// What the loop that drains the synthesis stream does after a turn.
#[derive(Debug, Clone, Copy, PartialEq, Eq, Structural)]
pub enum SynthesisStep {
    /// Hand the waveform of the result to the output, then report how that
    /// went.
    Play,
    /// Wait for the next result.
    Continue,
    /// End the loop.
    Exit,
}

/// What the loop that drains the synthesis stream does with what it got:
/// it ends where the pipeline is not running or the channel is closed, plays
/// a result, and waits on after a lag.
pub open spec fn synthesis_step(running: bool, received: Reception<SynthesisResult>)
    -> SynthesisStep {
    if !running {
        SynthesisStep::Exit
    } else {
        match received {
            Reception::Value(_) => SynthesisStep::Play,
            Reception::Lagged(_) => SynthesisStep::Continue,
            Reception::Closed => SynthesisStep::Exit,
        }
    }
}

/// A consumer loop goes on while the pipeline is running and its channel is
/// open.
pub open spec fn turn_control(running: bool, closed: bool) -> LoopControl {
    if running && !closed {
        LoopControl::Continue
    } else {
        LoopControl::Exit
    }
}

/// The orchestrator of the pipeline.
pub struct AudioProcessor {
    audio_manager: AudioManager,
    stt: SpeechToText,
    tts: TextToSpeech,
    event_sender: Channel<AudioEvent>,
    is_running: bool,
    initialized: bool,
    processing_mode: ProcessingMode,
    voice: String,
    speed: u32,
    pitch: u32,
    volume: u32,
    generate_visemes: bool,
}

/// The state of the orchestrator, as mathematical values.
#[verifier::ext_equal]
pub ghost struct ProcessorView {
    pub manager: ManagerView,
    pub stt: SegmenterView,
    pub tts: SynthesizerView,
    pub running: bool,
    /// Whether the setup has succeeded.
    pub initialized: bool,
    pub mode: ProcessingMode,
    /// What a request to speak is made with.
    pub voice: Seq<char>,
    pub speed: u32,
    pub pitch: u32,
    pub volume: u32,
    pub with_visemes: bool,
    /// The number of events that the event channel was made to retain.
    pub event_capacity: nat,
}

impl View for AudioProcessor {
    type V = ProcessorView;

    closed spec fn view(&self) -> ProcessorView {
        ProcessorView {
            manager: self.audio_manager@,
            stt: self.stt@,
            tts: self.tts@,
            running: self.is_running,
            initialized: self.initialized,
            mode: self.processing_mode,
            voice: self.voice@,
            speed: self.speed,
            pitch: self.pitch,
            volume: self.volume,
            with_visemes: self.generate_visemes,
            event_capacity: self.event_sender.made_with(),
        }
    }
}

/// The mode stays, or changes along an edge of the mode graph.
pub open spec fn mode_step(from: ProcessingMode, to: ProcessingMode) -> bool {
    from == to || allowed_edge(from, to)
}

/// An orchestrator as configured: idle, not running, nothing set up.
pub open spec fn fresh_processor(config: &AppConfig) -> ProcessorView {
    ProcessorView {
        manager: fresh_manager(config),
        stt: fresh_segmenter(config),
        tts: fresh_synthesizer(config),
        running: false,
        initialized: false,
        mode: ProcessingMode::Idle,
        voice: config.tts.voice@,
        speed: config.tts.speed,
        pitch: config.tts.pitch,
        volume: config.tts.volume,
        with_visemes: config.tts.generate_visemes,
        event_capacity: EVENT_CAPACITY as nat,
    }
}

/// The sample rates of input and output are supported: neither is zero.
pub open spec fn supported(config: &AppConfig) -> bool {
    config.audio.input.sample_rate > 0 && config.audio.output.sample_rate > 0
}

/// The state after the setup. The devices are resolved first; with the
/// devices resolved, the state of the engine's model is recorded; with the
/// model loaded, the synthesizer takes the configured voice and the setup
/// has succeeded. A setup that fails leaves the pipeline not set up, also
/// where an earlier setup had succeeded.
pub open spec fn after_initialize(state: ProcessorView, host: &HostDevices, model_loaded: bool)
    -> ProcessorView {
    if setup_outcome(state.manager, host) is Err {
        ProcessorView {
            manager: after_setup(state.manager, host),
            initialized: false,
            ..state
        }
    } else if !model_loaded {
        ProcessorView {
            manager: after_setup(state.manager, host),
            stt: SegmenterView { ready: false, ..state.stt },
            initialized: false,
            ..state
        }
    } else {
        ProcessorView {
            manager: after_setup(state.manager, host),
            stt: SegmenterView { ready: true, ..state.stt },
            tts: SynthesizerView { voice: state.voice, ..state.tts },
            initialized: true,
            ..state
        }
    }
}

/// What the setup reports: the error of the devices, else
/// `EngineUninitialized` where the model is not loaded, else success.
pub open spec fn initialize_outcome(state: ProcessorView, host: &HostDevices, model_loaded: bool)
    -> Result<(), AudioError> {
    if setup_outcome(state.manager, host) is Err {
        setup_outcome(state.manager, host)
    } else if !model_loaded {
        Err(AudioError::EngineUninitialized)
    } else {
        Ok(())
    }
}

/// The state after the pipeline was started on an open capture stream.
pub open spec fn started(state: ProcessorView) -> ProcessorView {
    ProcessorView {
        manager: ManagerView { stream_open: true, recording: true, ..state.manager },
        stt: processing_started(state.stt),
        running: true,
        mode: ProcessingMode::Listening,
        ..state
    }
}

/// The state after the pipeline was stopped.
pub open spec fn stopped(state: ProcessorView) -> ProcessorView {
    ProcessorView {
        manager: capture_stopped(state.manager),
        stt: SegmenterView { processing: false, ..state.stt },
        tts: SynthesizerView { synthesizing: false, ..state.tts },
        running: false,
        mode: ProcessingMode::Idle,
        ..state
    }
}

impl AudioProcessor {
    /// The parts are well formed, and a pipeline that was set up has its
    /// input device resolved.
    pub open spec fn wf(&self) -> bool {
        &&& self@.manager.queue.frames.len() <= self@.manager.queue.capacity
        &&& self@.manager.recording ==> self@.manager.stream_open
        &&& self@.manager.stream_open ==> self@.manager.input is Some
        &&& self@.tts.sample_rate > 0
        &&& self@.initialized ==> self@.manager.input is Some
    }

    /// An orchestrator for the configured devices. Sample rates of zero are
    /// not supported.
    pub fn new(config: &AppConfig) -> (made: Result<AudioProcessor, AudioError>)
        ensures
            match made {
                Ok(processor) => {
                    &&& supported(config)
                    &&& processor.wf()
                    &&& processor@ == fresh_processor(config)
                },
                Err(e) => e == AudioError::UnsupportedConfig && !supported(config),
            },
    {
        let audio_manager = AudioManager::new(config);
        let stt = match SpeechToText::new(config) {
            Ok(stt) => stt,
            Err(e) => {
                return Err(e);
            },
        };
        let tts = match TextToSpeech::new(config) {
            Ok(tts) => tts,
            Err(e) => {
                return Err(e);
            },
        };
        Ok(
            AudioProcessor {
                audio_manager,
                stt,
                tts,
                event_sender: channel::open_channel(EVENT_CAPACITY),
                is_running: false,
                initialized: false,
                processing_mode: ProcessingMode::Idle,
                voice: config.tts.voice.clone(),
                speed: config.tts.speed,
                pitch: config.tts.pitch,
                volume: config.tts.volume,
                generate_visemes: config.tts.generate_visemes,
            },
        )
    }

    /// Sets the pipeline up: resolves the devices among what the host
    /// offers, records whether the engine's model was loaded, and gives the
    /// synthesizer its voice. The first step that fails ends the setup with
    /// its error, and the pipeline cannot be started.
    pub fn initialize(&mut self, host: &HostDevices, model_loaded: bool) -> (done: Result<
        (),
        AudioError,
    >)
        requires
            old(self).wf(),
        ensures
            mode_step(old(self)@.mode, final(self)@.mode),
            final(self).wf(),
            final(self)@ == after_initialize(old(self)@, host, model_loaded),
            done == initialize_outcome(old(self)@, host, model_loaded),
    {
        self.initialized = false;
        match self.audio_manager.initialize(host) {
            Ok(_) => {},
            Err(e) => {
                return Err(e);
            },
        }
        match self.stt.initialize(model_loaded) {
            Ok(_) => {},
            Err(e) => {
                return Err(e);
            },
        }
        match self.tts.initialize(self.voice.as_str()) {
            Ok(_) => {},
            Err(e) => {
                return Err(e);
            },
        }
        self.initialized = true;
        Ok(())
    }

    /// What the capture stream is to be opened with. Fails with
    /// `EngineUninitialized` where no input device was resolved.
    pub fn stream_settings(&self) -> (settings: Result<StreamSettings, AudioError>)
        ensures
            self@.manager.input is Some ==> settings == Ok::<StreamSettings, AudioError>(
                self@.manager.settings,
            ),
            self@.manager.input is None ==> settings == Err::<StreamSettings, AudioError>(
                AudioError::EngineUninitialized,
            ),
    {
        self.audio_manager.stream_settings()
    }

    /// Starts the pipeline on the capture stream that the application has
    /// tried to open: capture records, the segmenter consumes, and the mode
    /// is `Listening`. Before a successful setup the result is
    /// `EngineUninitialized`; where the stream could not be opened it is
    /// `StreamError`. A failed start changes nothing.
    pub fn start(&mut self, stream_opened: bool) -> (done: Result<(), AudioError>)
        requires
            old(self).wf(),
        ensures
            final(self).wf(),
            mode_step(old(self)@.mode, final(self)@.mode),
            !old(self)@.initialized ==> {
                &&& done == Err::<(), AudioError>(AudioError::EngineUninitialized)
                &&& final(self)@ == old(self)@
            },
            old(self)@.initialized && !stream_opened ==> {
                &&& done == Err::<(), AudioError>(AudioError::StreamError)
                &&& final(self)@ == old(self)@
            },
            old(self)@.initialized && stream_opened ==> {
                &&& done == Ok::<(), AudioError>(())
                &&& final(self)@ == started(old(self)@)
            },
    {
        if !self.initialized {
            return Err(AudioError::EngineUninitialized);
        }
        match self.audio_manager.start_recording(stream_opened) {
            Ok(_) => {},
            Err(e) => {
                return Err(e);
            },
        }
        self.is_running = true;
        self.processing_mode = ProcessingMode::Listening;
        self.stt.start_processing();
        Ok(())
    }

    /// Starts the pipeline; another name for `start`.
    pub fn start_processing(&mut self, stream_opened: bool) -> (done: Result<(), AudioError>)
        requires
            old(self).wf(),
        ensures
            final(self).wf(),
            mode_step(old(self)@.mode, final(self)@.mode),
            !old(self)@.initialized ==> {
                &&& done == Err::<(), AudioError>(AudioError::EngineUninitialized)
                &&& final(self)@ == old(self)@
            },
            old(self)@.initialized && !stream_opened ==> {
                &&& done == Err::<(), AudioError>(AudioError::StreamError)
                &&& final(self)@ == old(self)@
            },
            old(self)@.initialized && stream_opened ==> {
                &&& done == Ok::<(), AudioError>(())
                &&& final(self)@ == started(old(self)@)
            },
    {
        self.start(stream_opened)
    }

    /// Stops the pipeline: the mode is `Idle`, capture is stopped, and the
    /// segmenter and the synthesizer are told to stop. Doing so again
    /// changes nothing.
    pub fn stop(&mut self) -> (done: Result<(), AudioError>)
        requires
            old(self).wf(),
        ensures
            final(self).wf(),
            mode_step(old(self)@.mode, final(self)@.mode),
            done == Ok::<(), AudioError>(()),
            final(self)@ == stopped(old(self)@),
    {
        self.is_running = false;
        self.processing_mode = ProcessingMode::Idle;
        let _stopped = self.audio_manager.stop_recording();
        self.stt.stop_processing();
        self.tts.stop_synthesis();
        Ok(())
    }

    /// Gives the pipeline up: stops it and marks playback as over. This is
    /// what remains to be done before the pipeline is dropped.
    pub fn shutdown(&mut self)
        requires
            old(self).wf(),
        ensures
            final(self).wf(),
            mode_step(old(self)@.mode, final(self)@.mode),
            final(self)@ == (ProcessorView {
                manager: shut_down(old(self)@.manager),
                ..stopped(old(self)@)
            }),
    {
        let _stopped = self.stop();
        self.audio_manager.shutdown();
    }

    /// Stops the pipeline; another name for `stop`.
    pub fn stop_processing(&mut self) -> (done: Result<(), AudioError>)
        requires
            old(self).wf(),
        ensures
            final(self).wf(),
            mode_step(old(self)@.mode, final(self)@.mode),
            done == Ok::<(), AudioError>(()),
            final(self)@ == stopped(old(self)@),
    {
        self.stop()
    }

    /// Goes to the requested mode where the mode graph has an edge to it
    /// from the current mode, or where it is the current mode. Otherwise the
    /// mode stays and the result is `InvalidTransition`.
    pub fn set_processing_mode(&mut self, mode: ProcessingMode) -> (done: Result<(), AudioError>)
        ensures
            old(self).wf() ==> final(self).wf(),
            mode_step(old(self)@.mode, final(self)@.mode),
            mode_step(old(self)@.mode, mode) ==> {
                &&& done == Ok::<(), AudioError>(())
                &&& final(self)@ == (ProcessorView { mode, ..old(self)@ })
            },
            !mode_step(old(self)@.mode, mode) ==> {
                &&& done == Err::<(), AudioError>(AudioError::InvalidTransition)
                &&& final(self)@ == old(self)@
            },
    {
        if self.processing_mode == mode || can_transition(self.processing_mode, mode) {
            self.processing_mode = mode;
            Ok(())
        } else {
            Err(AudioError::InvalidTransition)
        }
    }

    /// The current mode.
    pub fn get_processing_mode(&self) -> (mode: ProcessingMode)
        ensures
            mode == self@.mode,
    {
        self.processing_mode
    }

    /// Tells whether the pipeline is running.
    pub fn is_running(&self) -> (running: bool)
        ensures
            running == self@.running,
    {
        self.is_running
    }

    /// Tells whether capture is recording.
    pub fn is_recording(&self) -> (recording: bool)
        ensures
            recording == self@.manager.recording,
    {
        self.audio_manager.is_recording()
    }

    /// Tells whether playback is going on.
    pub fn is_playing(&self) -> (playing: bool)
        ensures
            playing == self@.manager.playing,
    {
        self.audio_manager.is_playing()
    }

    /// The input device in use, once resolved.
    pub fn input_device(&self) -> (choice: Option<DeviceChoice>)
        ensures
            choice == self@.manager.input,
    {
        self.audio_manager.input_device()
    }

    /// The output device in use, once resolved.
    pub fn output_device(&self) -> (choice: Option<DeviceChoice>)
        ensures
            choice == self@.manager.output,
    {
        self.audio_manager.output_device()
    }

    /// The path of the file from which the transcription engine's model is
    /// loaded.
    pub fn model_path(&self) -> (path: String)
        ensures
            path@ == model_file(self@.stt.model),
    {
        self.stt.model_path()
    }

    /// What the synthesis engine is to render for a request.
    pub fn plan_audio(&self, request: &SynthesisRequest) -> (planned: Result<AudioPlan, AudioError>)
        ensures
            match planned {
                Ok(plan) => plan_matches(self@.tts, request, &plan),
                Err(e) => {
                    &&& e == AudioError::SynthesisFailure
                    &&& waveform_len(request.text@, self@.tts.sample_rate as nat) > usize::MAX
                },
            },
    {
        self.tts.plan_audio(request)
    }

    /// A receiver for the events published from now on.
    pub fn get_event_receiver(&self) -> Receiver<AudioEvent> {
        channel::subscribe(&self.event_sender)
    }

    /// A receiver for the viseme cues sent from now on.
    pub fn get_viseme_receiver(&self) -> Receiver<VisemeData> {
        self.audio_manager.get_viseme_receiver()
    }

    /// A receiver for the transcription results published from now on.
    pub fn get_transcription_receiver(&self) -> Receiver<TranscriptionResult> {
        self.stt.get_transcription_receiver()
    }

    /// A receiver for the synthesis results published from now on.
    pub fn get_synthesis_receiver(&self) -> Receiver<SynthesisResult> {
        self.tts.get_synthesis_receiver()
    }

    /// Publishes an event to the subscribers of the event channel. Returns
    /// how many subscribers there were; with none, the event is dropped.
    pub fn emit(&self, event: AudioEvent) -> (subscribers: usize) {
        channel::reached(channel::send(&self.event_sender, event))
    }

    /// The request that the pipeline makes to speak a text: with the
    /// configured voice, speed, pitch and volume, and with visemes where the
    /// configuration asks for them.
    pub open spec fn request_matches(self, text: Seq<char>, request: SynthesisRequest) -> bool {
        &&& request.text@ == text
        &&& request.voice matches Some(voice) && voice@ == self@.voice
        &&& request.speed == Some(self@.speed)
        &&& request.pitch == Some(self@.pitch)
        &&& request.volume == Some(self@.volume)
        &&& request.generate_visemes == self@.with_visemes
    }

    /// Begins to speak a text: from `Listening` the mode becomes `Speaking`
    /// and the request for the synthesizer is returned. From any other mode
    /// nothing changes and the result is `InvalidTransition`.
    pub fn begin_speech(&mut self, text: &str) -> (begun: Result<SynthesisRequest, AudioError>)
        ensures
            old(self).wf() ==> final(self).wf(),
            mode_step(old(self)@.mode, final(self)@.mode),
            old(self)@.mode == ProcessingMode::Listening ==> {
                &&& begun matches Ok(request) && old(self).request_matches(text@, request)
                &&& final(self)@ == (ProcessorView { mode: ProcessingMode::Speaking, ..old(self)@ })
            },
            old(self)@.mode != ProcessingMode::Listening ==> {
                &&& begun matches Err(e) && e == AudioError::InvalidTransition
                &&& final(self)@ == old(self)@
            },
    {
        if self.processing_mode != ProcessingMode::Listening {
            return Err(AudioError::InvalidTransition);
        }
        self.processing_mode = ProcessingMode::Speaking;
        Ok(
            SynthesisRequest {
                text: text.to_string(),
                voice: Some(self.voice.clone()),
                speed: Some(self.speed),
                pitch: Some(self.pitch),
                volume: Some(self.volume),
                generate_visemes: self.generate_visemes,
            },
        )
    }

    /// Ends a request to speak with the waveform that the engine rendered
    /// for it, or with the engine's failure. The synthesizer builds and
    /// publishes the result; whatever it reports, a pipeline that is
    /// `Speaking` goes back to `Listening`, and a pipeline in another mode
    /// stays in it.
    pub fn finish_speech(&mut self, request: SynthesisRequest, waveform: Result<
        Vec<i16>,
        AudioError,
    >) -> (done: Result<(), AudioError>)
        requires
            old(self).wf(),
        ensures
            final(self).wf(),
            mode_step(old(self)@.mode, final(self)@.mode),
            final(self)@ == (ProcessorView {
                mode: if old(self)@.mode == ProcessingMode::Speaking {
                    ProcessingMode::Listening
                } else {
                    old(self)@.mode
                },
                tts: SynthesizerView { synthesizing: done is Err, ..old(self)@.tts },
                ..old(self)@
            }),
            waveform is Err ==> done == Err::<(), AudioError>(AudioError::SynthesisFailure),
            waveform matches Ok(samples) ==> {
                if result_fits(request.text@, samples@.len(), old(self)@.tts.sample_rate as nat) {
                    done == Ok::<(), AudioError>(()) || done == Err::<(), AudioError>(
                        AudioError::ChannelClosed,
                    )
                } else {
                    done == Err::<(), AudioError>(AudioError::SynthesisFailure)
                }
            },
    {
        let done = self.tts.synthesize(request, waveform);
        if self.processing_mode == ProcessingMode::Speaking {
            self.processing_mode = ProcessingMode::Listening;
        }
        done
    }

    /// Speaks a text with the waveform that the engine rendered for it, or
    /// with the engine's failure: the pipeline goes from `Listening` to
    /// `Speaking`, the synthesizer builds and publishes the result, and the
    /// pipeline goes back to `Listening`. From any other mode nothing
    /// changes and the result is `InvalidTransition`.
    pub fn synthesize_speech(&mut self, text: String, waveform: Result<
        Vec<i16>,
        AudioError,
    >) -> (done: Result<(), AudioError>)
        requires
            old(self).wf(),
        ensures
            mode_step(old(self)@.mode, final(self)@.mode),
            final(self).wf(),
            final(self)@.mode == old(self)@.mode,
            old(self)@.mode != ProcessingMode::Listening ==> {
                &&& done == Err::<(), AudioError>(AudioError::InvalidTransition)
                &&& final(self)@ == old(self)@
            },
            old(self)@.mode == ProcessingMode::Listening ==> {
                &&& final(self)@ == (ProcessorView {
                    tts: SynthesizerView { synthesizing: done is Err, ..old(self)@.tts },
                    ..old(self)@
                })
                &&& waveform is Err ==> done == Err::<(), AudioError>(AudioError::SynthesisFailure)
                &&& waveform matches Ok(samples) ==> {
                    if result_fits(text@, samples@.len(), old(self)@.tts.sample_rate as nat) {
                        done == Ok::<(), AudioError>(()) || done == Err::<(), AudioError>(
                            AudioError::ChannelClosed,
                        )
                    } else {
                        done == Err::<(), AudioError>(AudioError::SynthesisFailure)
                    }
                }
            },
    {
        let request = match self.begin_speech(text.as_str()) {
            Ok(request) => request,
            Err(e) => {
                return Err(e);
            },
        };
        self.finish_speech(request, waveform)
    }

    /// Takes a buffer from the capture stream. While capture is recording
    /// and the mode is not `Speaking`, the buffer is stamped and queued for
    /// the segmenter. A buffer that arrives while the pipeline is speaking,
    /// or while capture is not recording, is dropped, so that nothing the
    /// pipeline says itself waits for the segmenter. Returns whether the
    /// buffer was queued.
    pub fn capture(&mut self, data: Vec<i16>, now_ms: u64) -> (queued: bool)
        requires
            old(self).wf(),
        ensures
            mode_step(old(self)@.mode, final(self)@.mode),
            final(self).wf(),
            queued == captures(old(self)@),
            !queued ==> final(self)@ == old(self)@,
            queued ==> final(self)@ == (ProcessorView {
                manager: ManagerView {
                    queue: after_push(
                        old(self)@.manager.queue,
                        stamped(old(self)@.manager.settings, data, now_ms),
                    ),
                    ..old(self)@.manager
                },
                ..old(self)@
            }),
    {
        if self.processing_mode == ProcessingMode::Speaking {
            return false;
        }
        self.audio_manager.capture(data, now_ms)
    }

    /// Hands the captured frames that wait to the segmenter, unless the mode
    /// is `Speaking`: then they are dropped, so that the pipeline does not
    /// transcribe what it says itself. Returns the transcription results
    /// that were published.
    pub fn process_captured(&mut self, now_ms: u64) -> (results: Vec<TranscriptionResult>)
        requires
            old(self).wf(),
        ensures
            mode_step(old(self)@.mode, final(self)@.mode),
            final(self).wf(),
            final(self)@ == (ProcessorView {
                manager: ManagerView {
                    queue: QueueView { frames: Seq::empty(), ..old(self)@.manager.queue },
                    ..old(self)@.manager
                },
                stt: final(self)@.stt,
                ..old(self)@
            }),
            !forwards(old(self)@) ==> final(self)@.stt == old(self)@.stt && results@.len() == 0,
            forwards(old(self)@) ==> {
                &&& final(self)@.stt == after_frames(
                    old(self)@.stt,
                    frame_data(old(self)@.manager.queue.frames),
                )
                &&& transcript_views(results@) == transcripts(
                    old(self)@.stt.language,
                    utterances(old(self)@.stt, frame_data(old(self)@.manager.queue.frames)),
                    now_ms as nat,
                )
            },
    {
        let frames = self.audio_manager.take_frames();
        if self.processing_mode == ProcessingMode::Speaking {
            return Vec::new();
        }
        self.stt.poll(&frames, now_ms)
    }

    /// Publishes the event for a transcription result, if it has one.
    /// Returns how many subscribers there were.
    pub fn handle_transcription(&self, result: &TranscriptionResult) -> (subscribers: usize)
        ensures
            speech_event(result@.text) is None ==> subscribers == 0,
    {
        match transcription_event(result) {
            Some(event) => self.emit(event),
            None => 0,
        }
    }

    /// Publishes events to the subscribers of the event channel, in their
    /// order. Returns how many events were handed to the channel.
    pub fn emit_all(&self, events: Vec<AudioEvent>) -> (count: usize)
        ensures
            count == events@.len(),
    {
        let count = events.len();
        for event in events {
            let _subscribers = self.emit(event);
        }
        count
    }

    /// Takes a synthesis result whose waveform the application has tried to
    /// hand to the output. Where that succeeded, playback counts as going
    /// on; where it failed, an error event is published first. Then the
    /// waveform and the cues are published as events, and each cue is sent
    /// to the subscribers of the viseme channel, in the order of the cues.
    /// Returns the number of events.
    pub fn handle_synthesis(&mut self, result: &SynthesisResult, scheduled: bool) -> (count: usize)
        requires
            old(self).wf(),
        ensures
            mode_step(old(self)@.mode, final(self)@.mode),
            final(self).wf(),
            count == playback_events(result@.audio, result@.visemes, scheduled).len(),
            final(self)@ == (ProcessorView {
                manager: ManagerView {
                    playing: scheduled || old(self)@.manager.playing,
                    ..old(self)@.manager
                },
                ..old(self)@
            }),
    {
        let played = self.audio_manager.play_audio(
            &result.audio_data,
            result.sample_rate,
            scheduled,
        );
        let ghost after = self@;
        let count = self.emit_all(events_of_playback(result, played.is_ok()));
        let cues = cues_to_send(result);
        for cue in cues
            invariant
                self@ == after,
        {
            let _sent = self.audio_manager.send_viseme(cue);
        }
        count
    }

    /// Drains the captured frames that wait into the segmenter, unless the
    /// mode is `Speaking`: then they are dropped. Returns the utterances
    /// that the frames complete, for the engine to transcribe.
    pub fn collect_utterances(&mut self) -> (spoken: Vec<Vec<i16>>)
        requires
            old(self).wf(),
        ensures
            mode_step(old(self)@.mode, final(self)@.mode),
            final(self).wf(),
            final(self)@ == (ProcessorView {
                manager: ManagerView {
                    queue: QueueView { frames: Seq::empty(), ..old(self)@.manager.queue },
                    ..old(self)@.manager
                },
                stt: final(self)@.stt,
                ..old(self)@
            }),
            !forwards(old(self)@) ==> final(self)@.stt == old(self)@.stt && spoken@.len() == 0,
            forwards(old(self)@) ==> {
                &&& final(self)@.stt == after_frames(
                    old(self)@.stt,
                    frame_data(old(self)@.manager.queue.frames),
                )
                &&& sample_views(spoken@) == utterances(
                    old(self)@.stt,
                    frame_data(old(self)@.manager.queue.frames),
                )
            },
    {
        let frames = self.audio_manager.take_frames();
        if self.processing_mode == ProcessingMode::Speaking {
            return Vec::new();
        }
        self.stt.segment(&frames)
    }

    /// Ends the transcription of an utterance with what the engine made of
    /// it. A transcribed text is published as a transcription result and
    /// returned. A failure of the engine is reported as an error event, and
    /// the utterance is dropped.
    pub fn complete_transcription(
        &self,
        transcribed: Result<String, AudioError>,
        now_ms: u64,
    ) -> (result: Option<TranscriptionResult>)
        ensures
            match transcribed {
                Ok(text) => result matches Some(r) && r@ == transcript(
                    self@.stt.language,
                    text@,
                    now_ms as nat,
                ),
                Err(_) => result is None,
            },
    {
        if transcribed.is_err() {
            let _subscribers = self.report_error(AudioError::TranscriptionFailure);
        }
        self.stt.finish_utterance(transcribed, now_ms)
    }

    /// One turn of the loop that drains the transcription stream. While the
    /// pipeline is running, a result is forwarded as an event unless its
    /// text is blank, and a lag is reported as an error event. The loop ends
    /// where the pipeline is not running or the channel is closed; what was
    /// received then is discarded.
    pub fn transcription_turn(&self, received: Reception<TranscriptionResult>) -> (next:
        LoopControl)
        ensures
            next == turn_control(self@.running, received is Closed),
    {
        let _count = self.emit_all(events_of_transcription_turn(self.is_running, &received));
        if !self.is_running {
            return LoopControl::Exit;
        }
        match received {
            Reception::Closed => LoopControl::Exit,
            _ => LoopControl::Continue,
        }
    }

    /// One turn of the loop that drains the synthesis stream. While the
    /// pipeline is running, a result is to be played, and a lag is reported
    /// as an error event. The loop ends where the pipeline is not running
    /// or the channel is closed; what was received then is discarded. A
    /// result that is to be played is handed to the output by the
    /// application, which then calls `handle_synthesis` with the outcome.
    pub fn synthesis_turn(&self, received: &Reception<SynthesisResult>) -> (next: SynthesisStep)
        ensures
            next == synthesis_step(self@.running, *received),
    {
        let _count = self.emit_all(events_of_synthesis_turn(self.is_running, received));
        if !self.is_running {
            return SynthesisStep::Exit;
        }
        match received {
            Reception::Value(_) => SynthesisStep::Play,
            Reception::Lagged(_) => SynthesisStep::Continue,
            Reception::Closed => SynthesisStep::Exit,
        }
    }

    /// Publishes the event that reports an error of the background work.
    /// Returns how many subscribers there were.
    pub fn report_error(&self, error: AudioError) -> (subscribers: usize) {
        self.emit(error_event(error))
    }
}

/// Buffers are queued for the segmenter while capture is recording and the
/// mode is not `Speaking`.
pub open spec fn captures(state: ProcessorView) -> bool {
    state.manager.recording && state.mode != ProcessingMode::Speaking
}

/// Frames are handed to the segmenter while it is processing and the mode is
/// not `Speaking`.
pub open spec fn forwards(state: ProcessorView) -> bool {
    state.stt.processing && state.mode != ProcessingMode::Speaking
}

/// Setting up, starting and stopping leave the mode as it is or take it
/// along an edge of the mode graph: setting up keeps it, starting ends in
/// `Listening`, stopping ends in `Idle`.
pub proof fn lemma_mode_follows_edges(state: ProcessorView, host: &HostDevices, model_loaded: bool)
    ensures
        after_initialize(state, host, model_loaded).mode == state.mode,
        started(state).mode == ProcessingMode::Listening,
        mode_step(state.mode, started(state).mode),
        stopped(state).mode == ProcessingMode::Idle,
        mode_step(state.mode, stopped(state).mode),
{
}

/// Stopping twice is the same as stopping once, and a stopped pipeline is
/// idle, not running and not recording.
pub proof fn lemma_stop_idempotent(state: ProcessorView)
    ensures
        stopped(stopped(state)) == stopped(state),
        stopped(state).mode == ProcessingMode::Idle,
        !stopped(state).running,
        !stopped(state).manager.recording,
        !stopped(state).stt.processing,
{
}

/// While the mode is `Speaking`, no buffer is queued for the segmenter and
/// no frame that waits is handed to it: what is captured while the pipeline
/// speaks never reaches the segmenter, whenever the queue is read.
pub proof fn lemma_no_echo(state: ProcessorView)
    requires
        state.mode == ProcessingMode::Speaking,
    ensures
        !captures(state),
        !forwards(state),
{
}

} // verus!
