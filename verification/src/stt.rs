//! Speech segmentation: voice-activity detection on captured frames, the
//! accumulation of speech into utterances, and the results of transcription.

use tokio::sync::broadcast::Receiver;
use vstd::prelude::*;
use vstd::string::StringExecFns;

use crate::channel;
use crate::channel::Channel;
use crate::config::AppConfig;
use crate::error::AudioError;
use crate::frame::AudioFrame;
use crate::frame::FULL_SCALE;

verus! {

/// How long the silence after speech must last before the speech is taken
/// as a complete utterance, in milliseconds.
pub const SILENCE_WINDOW_MS: u64 = 500;

/// The confidence that is reported where the engine supplies none, in
/// thousandths.
pub const DEFAULT_CONFIDENCE: u32 = 900;

/// The number of transcription results that the channel retains.
pub const TRANSCRIPTION_CAPACITY: usize = 100;

/// The number of samples above which the built-in engine reports speech.
pub const ENGINE_MIN_SAMPLES: usize = 1000;

/// One recognized utterance.
#[derive(Debug, Clone)]
pub struct TranscriptionResult {
    pub text: String,
    /// In thousandths, 0 to 1000.
    pub confidence: u32,
    pub language: String,
    /// In milliseconds.
    pub timestamp: u64,
    pub is_final: bool,
}

/// What a transcription result says, as mathematical values.
#[verifier::ext_equal]
pub ghost struct TranscriptView {
    pub text: Seq<char>,
    pub confidence: nat,
    pub language: Seq<char>,
    pub timestamp: nat,
    pub is_final: bool,
}

impl View for TranscriptionResult {
    type V = TranscriptView;

    open spec fn view(&self) -> TranscriptView {
        TranscriptView {
            text: self.text@,
            confidence: self.confidence as nat,
            language: self.language@,
            timestamp: self.timestamp as nat,
            is_final: self.is_final,
        }
    }
}

/// The views of a sequence of transcription results, in the same order.
pub open spec fn transcript_views(results: Seq<TranscriptionResult>) -> Seq<TranscriptView> {
    Seq::new(results.len(), |i: int| results[i]@)
}

impl TranscriptionResult {
    /// A second result that says the same.
    pub fn duplicate(&self) -> (copy: TranscriptionResult)
        ensures
            copy@ == self@,
    {
        TranscriptionResult {
            text: self.text.clone(),
            confidence: self.confidence,
            language: self.language.clone(),
            timestamp: self.timestamp,
            is_final: self.is_final,
        }
    }
}

/// The sum of the squares of the samples.
pub open spec fn sum_squares(samples: Seq<i16>) -> nat
    decreases samples.len(),
{
    if samples.len() == 0 {
        0
    } else {
        sum_squares(samples.drop_last()) + (samples.last() as int * samples.last() as int) as nat
    }
}

/// The root mean square of the samples exceeds the threshold. Stated over
/// squares: the sum of the squares exceeds the square of the threshold times
/// the number of samples. No samples exceed no threshold.
pub open spec fn is_speech(samples: Seq<i16>, threshold: nat) -> bool {
    sum_squares(samples) > threshold * threshold * samples.len()
}

/// No square of a sample is above the square of full scale.
pub proof fn lemma_sum_squares_bound(samples: Seq<i16>)
    ensures
        sum_squares(samples) <= 0x4000_0000 * samples.len(),
    decreases samples.len(),
{
    if samples.len() > 0 {
        lemma_sum_squares_bound(samples.drop_last());
        let x = samples.last() as int;
        assert(0 <= x * x <= 0x4000_0000) by (nonlinear_arith)
            requires
                -0x8000 <= x <= 0x7fff,
        ;
    }
}

/// Tells whether the energy of the samples exceeds the threshold, given as
/// an amplitude in PCM units.
pub fn exceeds_threshold(samples: &Vec<i16>, threshold: u32) -> (speech: bool)
    ensures
        speech == is_speech(samples@, threshold as nat),
{
    let count = samples.len();
    if threshold >= FULL_SCALE {
        proof {
            lemma_sum_squares_bound(samples@);
            assert(threshold * threshold * count >= 0x4000_0000 * count) by (nonlinear_arith)
                requires
                    threshold >= 0x8000,
                    count >= 0,
            ;
        }
        return false;
    }
    let mut total: u128 = 0;
    let mut i: usize = 0;
    while i < count
        invariant
            i <= count,
            count == samples.len(),
            total == sum_squares(samples@.take(i as int)),
            total <= 0x4000_0000 * i,
        decreases count - i,
    {
        let x = samples[i] as i64;
        proof {
            assert(samples@.take(i + 1).drop_last() =~= samples@.take(i as int));
            assert(0 <= x * x <= 0x4000_0000) by (nonlinear_arith)
                requires
                    -0x8000 <= x <= 0x7fff,
            ;
        }
        total = total + (x * x) as u128;
        i += 1;
    }
    proof {
        assert(threshold * threshold <= 0x4000_0000) by (nonlinear_arith)
            requires
                0 <= threshold < 0x8000,
        ;
    }
    let square = (threshold as u128) * (threshold as u128);
    proof {
        assert(samples@.take(count as int) =~= samples@);
        assert(square * count <= 0x4000_0000 * count) by (nonlinear_arith)
            requires
                square <= 0x4000_0000,
                count >= 0,
        ;
    }
    total > square * (count as u128)
}

/// The segmenter: it gathers the frames that hold speech and hands the
/// gathered speech out as one utterance once silence has lasted long enough.
pub struct SpeechToText {
    audio_buffer: Vec<i16>,
    silence_counter: u64,
    is_processing: bool,
    engine_ready: bool,
    sample_rate: u32,
    vad_threshold: u32,
    min_speech_samples: u64,
    silence_window: u64,
    language: String,
    model: String,
    transcription_sender: Channel<TranscriptionResult>,
}

/// The state of the segmenter, as mathematical values.
#[verifier::ext_equal]
pub ghost struct SegmenterView {
    /// The speech gathered so far.
    pub buffer: Seq<i16>,
    /// The number of samples of silence counted so far.
    pub silence: nat,
    /// Whether frames are being consumed.
    pub processing: bool,
    /// Whether the transcription engine was set up.
    pub ready: bool,
    pub sample_rate: nat,
    /// The amplitude above which a frame counts as speech.
    pub threshold: nat,
    /// The number of samples that an utterance must exceed to be submitted.
    pub min_speech: nat,
    /// The number of samples of silence that must be exceeded to complete an
    /// utterance.
    pub window: nat,
    pub language: Seq<char>,
    pub model: Seq<char>,
    /// The number of results that the transcription channel was made to
    /// retain.
    pub capacity: nat,
}

impl View for SpeechToText {
    type V = SegmenterView;

    closed spec fn view(&self) -> SegmenterView {
        SegmenterView {
            buffer: self.audio_buffer@,
            silence: self.silence_counter as nat,
            processing: self.is_processing,
            ready: self.engine_ready,
            sample_rate: self.sample_rate as nat,
            threshold: self.vad_threshold as nat,
            min_speech: self.min_speech_samples as nat,
            window: self.silence_window as nat,
            language: self.language@,
            model: self.model@,
            capacity: self.transcription_sender.made_with(),
        }
    }
}

/// The number of samples that a duration in milliseconds holds at a rate.
pub open spec fn samples_in(duration_ms: nat, rate: nat) -> nat {
    duration_ms * rate / 1000
}

/// The silence counter after `len` more samples of silence. It stops at the
/// largest value that 64 bits hold.
pub open spec fn count_silence(silence: nat, len: nat) -> nat {
    if silence + len > u64::MAX {
        u64::MAX as nat
    } else {
        silence + len
    }
}

/// The frame is silence, speech was gathered, and with this frame the silence
/// has lasted longer than the window: the gathered speech is complete.
pub open spec fn completes(state: SegmenterView, frame: Seq<i16>) -> bool {
    &&& !is_speech(frame, state.threshold)
    &&& state.buffer.len() > 0
    &&& count_silence(state.silence, frame.len()) > state.window
}

/// The utterance that the frame causes to be submitted for transcription:
/// the gathered speech, where the frame completes it and it is longer than
/// the minimum. Shorter speech is noise and is submitted nowhere.
pub open spec fn submitted(state: SegmenterView, frame: Seq<i16>) -> Option<Seq<i16>> {
    if completes(state, frame) && state.buffer.len() > state.min_speech {
        Some(state.buffer)
    } else {
        None
    }
}

/// The state after a frame. A frame of speech is appended to the gathered
/// speech and ends the silence. A frame of silence is counted; where it
/// completes the gathered speech, the speech and the count are cleared.
pub open spec fn after_frame(state: SegmenterView, frame: Seq<i16>) -> SegmenterView {
    if is_speech(frame, state.threshold) {
        SegmenterView { buffer: state.buffer + frame, silence: 0, ..state }
    } else if completes(state, frame) {
        SegmenterView { buffer: Seq::empty(), silence: 0, ..state }
    } else {
        SegmenterView { silence: count_silence(state.silence, frame.len()), ..state }
    }
}

/// The state after a sequence of frames.
pub open spec fn after_frames(state: SegmenterView, frames: Seq<Seq<i16>>) -> SegmenterView
    decreases frames.len(),
{
    if frames.len() == 0 {
        state
    } else {
        after_frame(after_frames(state, frames.drop_last()), frames.last())
    }
}

/// The utterances that a sequence of frames causes to be submitted, in order.
pub open spec fn utterances(state: SegmenterView, frames: Seq<Seq<i16>>) -> Seq<Seq<i16>>
    decreases frames.len(),
{
    if frames.len() == 0 {
        Seq::empty()
    } else {
        let earlier = utterances(state, frames.drop_last());
        match submitted(after_frames(state, frames.drop_last()), frames.last()) {
            Some(utterance) => earlier.push(utterance),
            None => earlier,
        }
    }
}

/// The samples of each frame of a sequence.
pub open spec fn frame_data(frames: Seq<AudioFrame>) -> Seq<Seq<i16>> {
    Seq::new(frames.len(), |i: int| frames[i].data@)
}

/// What the built-in engine transcribes an utterance of so many samples to.
pub open spec fn engine_text(samples: nat) -> Seq<char> {
    if samples > ENGINE_MIN_SAMPLES {
        "[Transcribed speech placeholder]"@
    } else {
        Seq::empty()
    }
}

/// The result that is published for a transcribed text: final, in the
/// configured language, with the default confidence.
pub open spec fn transcript(language: Seq<char>, text: Seq<char>, now: nat) -> TranscriptView {
    TranscriptView {
        text,
        confidence: DEFAULT_CONFIDENCE as nat,
        language,
        timestamp: now,
        is_final: true,
    }
}

/// The results of the utterances, as the built-in engine transcribes them.
pub open spec fn transcripts(language: Seq<char>, spoken: Seq<Seq<i16>>, now: nat) -> Seq<
    TranscriptView,
> {
    Seq::new(spoken.len(), |i: int| transcript(language, engine_text(spoken[i].len()), now))
}

/// The path of the file that holds a model.
pub open spec fn model_file(model: Seq<char>) -> Seq<char> {
    "models/"@ + model + ".bin"@
}

/// A segmenter as configured: idle, with nothing gathered. The minimum of
/// speech and the window of silence are the configured durations, in samples
/// at the rate of the input.
pub open spec fn fresh_segmenter(config: &AppConfig) -> SegmenterView {
    SegmenterView {
        buffer: Seq::empty(),
        silence: 0,
        processing: false,
        ready: false,
        sample_rate: config.audio.input.sample_rate as nat,
        threshold: config.stt.silence_threshold as nat,
        min_speech: samples_in(
            config.stt.min_speech_duration as nat,
            config.audio.input.sample_rate as nat,
        ),
        window: samples_in(SILENCE_WINDOW_MS as nat, config.audio.input.sample_rate as nat),
        language: config.stt.language@,
        model: config.stt.model@,
        capacity: TRANSCRIPTION_CAPACITY as nat,
    }
}

/// The state after processing was started: a segmenter that was not
/// processing starts afresh, one that is processing goes on.
pub open spec fn processing_started(state: SegmenterView) -> SegmenterView {
    if state.processing {
        state
    } else {
        SegmenterView { buffer: Seq::empty(), silence: 0, processing: true, ..state }
    }
}

/// The built-in transcription engine: it reports a fixed text for an
/// utterance of more than 1000 samples and nothing for a shorter one.
pub fn transcribe_audio(samples: &Vec<i16>) -> (text: String)
    ensures
        text@ == engine_text(samples@.len()),
{
    if samples.len() > ENGINE_MIN_SAMPLES {
        "[Transcribed speech placeholder]".to_string()
    } else {
        String::new()
    }
}

impl SpeechToText {
    /// A segmenter for the configured input: idle, with nothing gathered. A
    /// sample rate of zero is not supported.
    pub fn new(config: &AppConfig) -> (made: Result<SpeechToText, AudioError>)
        ensures
            match made {
                Ok(stt) => config.audio.input.sample_rate > 0 && stt@ == fresh_segmenter(config),
                Err(e) => e == AudioError::UnsupportedConfig && config.audio.input.sample_rate == 0,
            },
    {
        let rate = config.audio.input.sample_rate;
        if rate == 0 {
            return Err(AudioError::UnsupportedConfig);
        }
        let duration = config.stt.min_speech_duration;
        assert(duration * rate <= u64::MAX) by (nonlinear_arith)
            requires
                0 <= duration <= u32::MAX,
                0 <= rate <= u32::MAX,
        ;
        let min_speech = (duration as u64) * (rate as u64) / 1000;
        let window = SILENCE_WINDOW_MS * (rate as u64) / 1000;
        Ok(
            SpeechToText {
                audio_buffer: Vec::new(),
                silence_counter: 0,
                is_processing: false,
                engine_ready: false,
                sample_rate: rate,
                vad_threshold: config.stt.silence_threshold,
                min_speech_samples: min_speech,
                silence_window: window,
                language: config.stt.language.clone(),
                model: config.stt.model.clone(),
                transcription_sender: channel::open_channel(TRANSCRIPTION_CAPACITY),
            },
        )
    }

    /// The path of the file from which the engine's model is loaded.
    pub fn model_path(&self) -> (path: String)
        ensures
            path@ == model_file(self@.model),
    {
        let mut path = String::from_str("models/");
        path.append(self.model.as_str());
        path.append(".bin");
        path
    }

    /// Records whether the engine's model could be loaded. Without the model
    /// the engine is not ready and the result is `EngineUninitialized`.
    pub fn initialize(&mut self, model_loaded: bool) -> (done: Result<(), AudioError>)
        ensures
            final(self)@ == (SegmenterView { ready: model_loaded, ..old(self)@ }),
            model_loaded ==> done == Ok::<(), AudioError>(()),
            !model_loaded ==> done == Err::<(), AudioError>(AudioError::EngineUninitialized),
    {
        self.engine_ready = model_loaded;
        if model_loaded {
            Ok(())
        } else {
            Err(AudioError::EngineUninitialized)
        }
    }

    /// Starts the consumption of frames. A segmenter that was not processing
    /// starts with nothing gathered and no silence counted; one that is
    /// processing already goes on as it is.
    pub fn start_processing(&mut self)
        ensures
            final(self)@ == processing_started(old(self)@),
    {
        if !self.is_processing {
            self.audio_buffer = Vec::new();
            self.silence_counter = 0;
            self.is_processing = true;
        }
    }

    /// Stops the consumption of frames. Frames that arrive from now on are
    /// dropped.
    pub fn stop_processing(&mut self)
        ensures
            final(self)@ == (SegmenterView { processing: false, ..old(self)@ }),
    {
        self.is_processing = false;
    }

    /// Tells whether frames are being consumed.
    pub fn is_processing(&self) -> (processing: bool)
        ensures
            processing == self@.processing,
    {
        self.is_processing
    }

    /// The number of samples of speech gathered so far.
    pub fn buffered_samples(&self) -> (count: usize)
        ensures
            count == self@.buffer.len(),
    {
        self.audio_buffer.len()
    }

    /// The number of samples of silence counted so far.
    pub fn silence_samples(&self) -> (count: u64)
        ensures
            count == self@.silence,
    {
        self.silence_counter
    }

    /// A receiver for the transcription results published from now on.
    pub fn get_transcription_receiver(&self) -> Receiver<TranscriptionResult> {
        channel::subscribe(&self.transcription_sender)
    }

    /// Takes one frame. Returns the utterance that the frame completes, if it
    /// completes one that is long enough to be transcribed.
    pub fn process_frame(&mut self, frame: &AudioFrame) -> (utterance: Option<Vec<i16>>)
        ensures
            final(self)@ == after_frame(old(self)@, frame.data@),
            match utterance {
                Some(speech) => submitted(old(self)@, frame.data@) == Some(speech@),
                None => submitted(old(self)@, frame.data@) is None,
            },
    {
        if exceeds_threshold(&frame.data, self.vad_threshold) {
            self.audio_buffer.extend_from_slice(frame.data.as_slice());
            self.silence_counter = 0;
            assert(self@ =~= after_frame(old(self)@, frame.data@));
            None
        } else {
            let silence = self.silence_counter.saturating_add(frame.data.len() as u64);
            if self.audio_buffer.len() > 0 && silence > self.silence_window {
                let mut speech: Vec<i16> = Vec::new();
                std::mem::swap(&mut speech, &mut self.audio_buffer);
                self.silence_counter = 0;
                assert(self@ =~= after_frame(old(self)@, frame.data@));
                if speech.len() as u64 > self.min_speech_samples {
                    Some(speech)
                } else {
                    None
                }
            } else {
                self.silence_counter = silence;
                assert(self@ =~= after_frame(old(self)@, frame.data@));
                None
            }
        }
    }

    /// The result to publish for a transcribed text.
    pub fn make_result(&self, text: String, now_ms: u64) -> (result: TranscriptionResult)
        ensures
            result@ == transcript(self@.language, text@, now_ms as nat),
    {
        TranscriptionResult {
            text,
            confidence: DEFAULT_CONFIDENCE,
            language: self.language.clone(),
            timestamp: now_ms,
            is_final: true,
        }
    }

    /// Publishes a result to the subscribers of the transcription channel.
    /// Returns how many subscribers there were; with none, the result is
    /// dropped.
    fn publish(&self, result: TranscriptionResult) -> (subscribers: usize) {
        channel::reached(channel::send(&self.transcription_sender, result))
    }

    /// Consumes the frames that were captured, in order, while processing is
    /// on; otherwise drops them. Returns the utterances that the frames
    /// complete, in order, for the engine to transcribe.
    pub fn segment(&mut self, frames: &Vec<AudioFrame>) -> (spoken: Vec<Vec<i16>>)
        ensures
            !old(self)@.processing ==> final(self)@ == old(self)@ && spoken@.len() == 0,
            old(self)@.processing ==> final(self)@ == after_frames(
                old(self)@,
                frame_data(frames@),
            ),
            old(self)@.processing ==> sample_views(spoken@) == utterances(
                old(self)@,
                frame_data(frames@),
            ),
    {
        let mut spoken: Vec<Vec<i16>> = Vec::new();
        if !self.is_processing {
            return spoken;
        }
        let ghost start = self@;
        let ghost all = frame_data(frames@);
        let mut i: usize = 0;
        assert(sample_views(spoken@) =~= utterances(start, all.take(0)));
        while i < frames.len()
            invariant
                i <= frames.len(),
                all == frame_data(frames@),
                self@ == after_frames(start, all.take(i as int)),
                sample_views(spoken@) == utterances(start, all.take(i as int)),
            decreases frames.len() - i,
        {
            let ghost before = sample_views(spoken@);
            proof {
                assert(all.take(i + 1).drop_last() =~= all.take(i as int));
                assert(all.take(i + 1).last() == frames@[i as int].data@);
            }
            match self.process_frame(&frames[i]) {
                Some(speech) => {
                    spoken.push(speech);
                    assert(sample_views(spoken@) =~= before.push(speech@));
                },
                None => {},
            }
            i += 1;
        }
        assert(all.take(frames.len() as int) =~= all);
        spoken
    }

    /// Ends the transcription of an utterance with what the engine made of
    /// it. A transcribed text is published as a result and returned; it may
    /// be empty. An utterance on which the engine failed is dropped: nothing
    /// is published and it is not tried again.
    pub fn finish_utterance(&self, transcribed: Result<String, AudioError>, now_ms: u64) -> (result:
        Option<TranscriptionResult>)
        ensures
            match transcribed {
                Ok(text) => result matches Some(r) && r@ == transcript(
                    self@.language,
                    text@,
                    now_ms as nat,
                ),
                Err(_) => result is None,
            },
    {
        match transcribed {
            Ok(text) => {
                let result = self.make_result(text, now_ms);
                let _subscribers = self.publish(result.duplicate());
                Some(result)
            },
            Err(_) => None,
        }
    }

    /// Consumes the frames that were captured, in order, while processing is
    /// on; otherwise drops them. Every utterance that the frames complete is
    /// transcribed by the built-in engine, and its result is published and
    /// returned.
    pub fn poll(&mut self, frames: &Vec<AudioFrame>, now_ms: u64) -> (results: Vec<
        TranscriptionResult,
    >)
        ensures
            !old(self)@.processing ==> final(self)@ == old(self)@ && results@.len() == 0,
            old(self)@.processing ==> final(self)@ == after_frames(
                old(self)@,
                frame_data(frames@),
            ),
            old(self)@.processing ==> transcript_views(results@) == transcripts(
                old(self)@.language,
                utterances(old(self)@, frame_data(frames@)),
                now_ms as nat,
            ),
    {
        let ghost language = self@.language;
        let spoken = self.segment(frames);
        proof {
            if old(self)@.processing {
                lemma_settings_kept(old(self)@, frame_data(frames@));
            }
        }
        let mut results: Vec<TranscriptionResult> = Vec::new();
        let mut i: usize = 0;
        while i < spoken.len()
            invariant
                i <= spoken.len(),
                results@.len() == i,
                self@.language == language,
                forall|k: int|
                    0 <= k < i ==> (#[trigger] results@[k])@ == transcript(
                        language,
                        engine_text(spoken@[k]@.len()),
                        now_ms as nat,
                    ),
            decreases spoken.len() - i,
        {
            let text = transcribe_audio(&spoken[i]);
            match self.finish_utterance(Ok(text), now_ms) {
                Some(result) => {
                    results.push(result);
                },
                None => {},
            }
            i += 1;
        }
        proof {
            if old(self)@.processing {
                assert(transcript_views(results@) =~= transcripts(
                    language,
                    sample_views(spoken@),
                    now_ms as nat,
                ));
            }
        }
        results
    }
}

/// The samples of each utterance of a sequence.
pub open spec fn sample_views(spoken: Seq<Vec<i16>>) -> Seq<Seq<i16>> {
    Seq::new(spoken.len(), |i: int| spoken[i]@)
}

/// Speech that is not longer than the minimum is never submitted, whatever
/// the frame.
pub proof fn lemma_short_speech_not_submitted(state: SegmenterView, frame: Seq<i16>)
    requires
        state.buffer.len() <= state.min_speech,
    ensures
        submitted(state, frame) is None,
{
}

/// Whatever is submitted is the speech gathered before a frame of silence
/// with which the silence outlasts the window, and it is longer than the
/// minimum.
pub proof fn lemma_submitted_is_complete(state: SegmenterView, frame: Seq<i16>)
    requires
        submitted(state, frame) is Some,
    ensures
        submitted(state, frame) == Some(state.buffer),
        state.buffer.len() > state.min_speech,
        !is_speech(frame, state.threshold),
        count_silence(state.silence, frame.len()) > state.window,
        after_frame(state, frame).buffer.len() == 0,
{
}

/// Over every run of frames, each utterance that is submitted is longer than
/// the minimum.
pub proof fn lemma_utterances_exceed_minimum(state: SegmenterView, frames: Seq<Seq<i16>>)
    ensures
        forall|i: int|
            0 <= i < utterances(state, frames).len() ==> (#[trigger] utterances(
                state,
                frames,
            )[i]).len() > state.min_speech,
    decreases frames.len(),
{
    if frames.len() > 0 {
        let earlier = utterances(state, frames.drop_last());
        let reached = after_frames(state, frames.drop_last());
        lemma_utterances_exceed_minimum(state, frames.drop_last());
        lemma_settings_kept(state, frames.drop_last());
        assert(reached.min_speech == state.min_speech);
        assert forall|i: int| 0 <= i < utterances(state, frames).len() implies (
        #[trigger] utterances(state, frames)[i]).len() > state.min_speech by {
            if i < earlier.len() {
                assert(utterances(state, frames)[i] == earlier[i]);
            }
        }
    }
}

/// Frames change what is gathered and counted, and nothing else.
pub proof fn lemma_settings_kept(state: SegmenterView, frames: Seq<Seq<i16>>)
    ensures
        after_frames(state, frames) == (SegmenterView {
            buffer: after_frames(state, frames).buffer,
            silence: after_frames(state, frames).silence,
            ..state
        }),
    decreases frames.len(),
{
    if frames.len() > 0 {
        lemma_settings_kept(state, frames.drop_last());
    }
}

/// It makes no difference in how many portions the frames arrive: the state
/// after two portions is the state after the frames of both, and the
/// utterances of the two portions, one after the other, are the utterances
/// of the frames of both.
pub proof fn lemma_portions(state: SegmenterView, first: Seq<Seq<i16>>, second: Seq<Seq<i16>>)
    ensures
        after_frames(state, first + second) == after_frames(after_frames(state, first), second),
        utterances(state, first + second) == utterances(state, first) + utterances(
            after_frames(state, first),
            second,
        ),
    decreases second.len(),
{
    if second.len() == 0 {
        assert(first + second =~= first);
        assert(utterances(state, first) + Seq::<Seq<i16>>::empty() =~= utterances(state, first));
    } else {
        let head = second.drop_last();
        lemma_portions(state, first, head);
        assert((first + second).drop_last() =~= first + head);
        assert((first + second).last() == second.last());
        let middle = after_frames(state, first);
        match submitted(after_frames(middle, head), second.last()) {
            Some(utterance) => {
                assert(utterances(state, first + second) =~= utterances(state, first)
                    + utterances(middle, second));
            },
            None => {},
        }
    }
}

/// The samples of a sequence of frames, one frame after the other.
pub open spec fn joined(frames: Seq<Seq<i16>>) -> Seq<i16>
    decreases frames.len(),
{
    if frames.len() == 0 {
        Seq::empty()
    } else {
        joined(frames.drop_last()) + frames.last()
    }
}

/// Frames of speech are gathered whole and in order, and submit nothing.
pub proof fn lemma_speech_is_gathered(state: SegmenterView, frames: Seq<Seq<i16>>)
    requires
        forall|i: int| 0 <= i < frames.len() ==> is_speech(#[trigger] frames[i], state.threshold),
    ensures
        after_frames(state, frames).buffer == state.buffer + joined(frames),
        frames.len() > 0 ==> after_frames(state, frames).silence == 0,
        utterances(state, frames).len() == 0,
    decreases frames.len(),
{
    if frames.len() > 0 {
        let head = frames.drop_last();
        assert forall|i: int| 0 <= i < head.len() implies is_speech(
            #[trigger] head[i],
            state.threshold,
        ) by {
            assert(head[i] == frames[i]);
        }
        lemma_speech_is_gathered(state, head);
        lemma_settings_kept(state, head);
        assert(is_speech(frames[frames.len() - 1], state.threshold));
        assert(state.buffer + joined(head) + frames.last() =~= state.buffer + joined(frames));
    } else {
        assert(state.buffer + joined(frames) =~= state.buffer);
    }
}

/// Gathered speech that is longer than the minimum is submitted, whole, by
/// the frame of silence with which the silence outlasts the window.
pub proof fn lemma_silence_submits(state: SegmenterView, frame: Seq<i16>)
    requires
        state.buffer.len() > state.min_speech,
        !is_speech(frame, state.threshold),
        count_silence(state.silence, frame.len()) > state.window,
    ensures
        submitted(state, frame) == Some(state.buffer),
        after_frame(state, frame).buffer.len() == 0,
        after_frame(state, frame).silence == 0,
{
}

} // verus!
