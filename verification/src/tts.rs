//! Speech synthesis: from a request to a waveform plan, a viseme timeline and
//! the published result.

use tokio::sync::broadcast::Receiver;
use vstd::prelude::*;
use vstd::utf8::encode_utf8;

use crate::channel;
use crate::channel::Channel;
use crate::config::AppConfig;
use crate::error::AudioError;
use crate::frame::cue_views;
use crate::frame::duplicate_cues;
use crate::frame::CueView;
use crate::frame::VisemeData;
use crate::phoneme::generate_visemes;
use crate::phoneme::text_to_phonemes;
use crate::phoneme::timeline;
use crate::phoneme::timeline_span;
use crate::phoneme::visemes_of;

verus! {

/// The number of synthesis results that the channel retains.
pub const SYNTHESIS_CAPACITY: usize = 100;

/// The frequency of the reference tone, in hertz.
pub const TONE_HZ: u32 = 440;

/// The largest amplitude of a 16-bit sample.
pub const PEAK: u32 = 32767;

/// The volume, in thousandths, at which the waveform reaches full scale.
pub const FULL_SCALE_VOLUME: u32 = 10000;

/// The voice of a synthesizer that was not initialized.
pub open spec fn initial_voice() -> Seq<char> {
    "neural"@
}

/// A request to speak a text.
#[derive(Debug, Clone)]
pub struct SynthesisRequest {
    pub text: String,
    pub voice: Option<String>,
    /// In thousandths.
    pub speed: Option<u32>,
    /// In thousandths.
    pub pitch: Option<u32>,
    /// In thousandths.
    pub volume: Option<u32>,
    pub generate_visemes: bool,
}

/// The output of one synthesis request.
#[derive(Debug, Clone)]
pub struct SynthesisResult {
    /// The waveform, as signed 16-bit PCM samples.
    pub audio_data: Vec<i16>,
    pub sample_rate: u32,
    /// In milliseconds.
    pub duration: u64,
    pub visemes: Vec<VisemeData>,
}

/// What a synthesis result says, as mathematical values.
#[verifier::ext_equal]
pub ghost struct ResultView {
    pub audio: Seq<i16>,
    pub sample_rate: nat,
    pub duration: nat,
    pub visemes: Seq<CueView>,
}

impl View for SynthesisResult {
    type V = ResultView;

    open spec fn view(&self) -> ResultView {
        ResultView {
            audio: self.audio_data@,
            sample_rate: self.sample_rate as nat,
            duration: self.duration as nat,
            visemes: cue_views(self.visemes@),
        }
    }
}

impl SynthesisResult {
    /// A second result that says the same.
    pub fn duplicate(&self) -> (copy: SynthesisResult)
        ensures
            copy@ == self@,
    {
        SynthesisResult {
            audio_data: self.audio_data.clone(),
            sample_rate: self.sample_rate,
            duration: self.duration,
            visemes: duplicate_cues(&self.visemes),
        }
    }
}

/// What the synthesis engine is asked to render.
#[derive(Debug, Clone)]
pub struct AudioPlan {
    /// The number of samples of the waveform.
    pub sample_count: usize,
    pub sample_rate: u32,
    /// The frequency of the tone at a pitch of 1000, in hertz.
    pub frequency: u32,
    /// The largest amplitude that a sample may have.
    pub amplitude: i16,
    pub voice: String,
    /// In thousandths.
    pub speed: u32,
    /// In thousandths.
    pub pitch: u32,
    /// In thousandths.
    pub volume: u32,
}

/// The number of bytes that a text takes in UTF-8.
pub open spec fn byte_len(text: Seq<char>) -> nat {
    encode_utf8(text).len()
}

/// The number of samples of the waveform of a text: a tenth of a second for
/// each byte of the text.
pub open spec fn waveform_len(text: Seq<char>, rate: nat) -> nat {
    byte_len(text) * rate / 10
}

/// The largest amplitude at a volume: a tenth of the volume, of full scale,
/// and never above full scale.
pub open spec fn peak_amplitude(volume: nat) -> nat {
    if volume >= FULL_SCALE_VOLUME {
        PEAK as nat
    } else {
        (PEAK as nat) * volume / (FULL_SCALE_VOLUME as nat)
    }
}

/// The time that so many samples take at a rate, in milliseconds.
pub open spec fn duration_ms(samples: nat, rate: nat) -> nat {
    samples * 1000 / rate
}

/// The value that a request asks for, or the default where it asks for none.
pub open spec fn chosen(asked: Option<u32>, default: u32) -> u32 {
    match asked {
        Some(value) => value,
        None => default,
    }
}

/// The voice that a request asks for, or the default where it asks for none.
pub open spec fn chosen_voice(asked: Option<String>, default: Seq<char>) -> Seq<char> {
    match asked {
        Some(voice) => voice@,
        None => default,
    }
}

/// The synthesizer.
pub struct TextToSpeech {
    synthesis_sender: Channel<SynthesisResult>,
    is_synthesizing: bool,
    current_voice: String,
    sample_rate: u32,
    speed: u32,
    pitch: u32,
    volume: u32,
}

/// The state of the synthesizer, as mathematical values.
#[verifier::ext_equal]
pub ghost struct SynthesizerView {
    pub synthesizing: bool,
    pub voice: Seq<char>,
    /// The sample rate of the output. It is never zero.
    pub sample_rate: u32,
    /// The defaults for requests that do not say otherwise, in thousandths.
    pub speed: u32,
    pub pitch: u32,
    pub volume: u32,
    /// The number of results that the synthesis channel was made to retain.
    pub capacity: nat,
}

impl View for TextToSpeech {
    type V = SynthesizerView;

    closed spec fn view(&self) -> SynthesizerView {
        SynthesizerView {
            synthesizing: self.is_synthesizing,
            voice: self.current_voice@,
            sample_rate: self.sample_rate,
            speed: self.speed,
            pitch: self.pitch,
            volume: self.volume,
            capacity: self.synthesis_sender.made_with(),
        }
    }
}

/// A synthesizer as configured: not synthesizing, with the initial voice and
/// the configured defaults.
pub open spec fn fresh_synthesizer(config: &AppConfig) -> SynthesizerView {
    SynthesizerView {
        synthesizing: false,
        voice: initial_voice(),
        sample_rate: config.audio.output.sample_rate,
        speed: config.tts.speed,
        pitch: config.tts.pitch,
        volume: config.tts.volume,
        capacity: SYNTHESIS_CAPACITY as nat,
    }
}

/// The plan is the plan for the request: a tone of 440 Hz at the rate of the
/// output, a tenth of a second long for each byte of the text, with the
/// amplitude that the volume allows. Voice, speed, pitch and volume are those
/// of the request, or the defaults where the request gives none.
pub open spec fn plan_matches(state: SynthesizerView, request: &SynthesisRequest, plan: &AudioPlan)
    -> bool {
    &&& plan.sample_count == waveform_len(request.text@, state.sample_rate as nat)
    &&& plan.sample_rate == state.sample_rate
    &&& plan.frequency == TONE_HZ
    &&& plan.volume == chosen(request.volume, state.volume)
    &&& plan.speed == chosen(request.speed, state.speed)
    &&& plan.pitch == chosen(request.pitch, state.pitch)
    &&& plan.voice@ == chosen_voice(request.voice, state.voice)
    &&& plan.amplitude == peak_amplitude(plan.volume as nat)
}

/// The waveform is what the plan asks for: it has the planned number of
/// samples, and no sample is beyond the planned amplitude.
pub open spec fn plan_admits(plan: &AudioPlan, waveform: Seq<i16>) -> bool {
    &&& waveform.len() == plan.sample_count
    &&& forall|i: int|
        0 <= i < waveform.len() ==> -plan.amplitude <= #[trigger] waveform[i] <= plan.amplitude
}

impl AudioPlan {
    /// Tells whether a rendered waveform is what the plan asks for.
    pub fn admits(&self, waveform: &Vec<i16>) -> (fits: bool)
        ensures
            fits == plan_admits(self, waveform@),
    {
        if waveform.len() != self.sample_count {
            return false;
        }
        let peak = self.amplitude as i32;
        let mut i: usize = 0;
        while i < waveform.len()
            invariant
                i <= waveform.len(),
                peak == self.amplitude,
                forall|k: int| 0 <= k < i ==> -peak <= #[trigger] waveform@[k] <= peak,
            decreases waveform.len() - i,
        {
            let sample = waveform[i] as i32;
            if sample < -peak || sample > peak {
                return false;
            }
            i += 1;
        }
        true
    }
}

/// A waveform that the plan for a request admits has a tenth of a second of
/// samples for each byte of the text, and no sample of it is beyond a tenth
/// of the chosen volume, of full scale.
pub proof fn lemma_admitted_waveform(
    state: SynthesizerView,
    request: &SynthesisRequest,
    plan: &AudioPlan,
    waveform: Seq<i16>,
)
    requires
        plan_matches(state, request, plan),
        plan_admits(plan, waveform),
    ensures
        waveform.len() == waveform_len(request.text@, state.sample_rate as nat),
        forall|i: int|
            0 <= i < waveform.len() ==> -peak_amplitude(
                chosen(request.volume, state.volume) as nat,
            ) <= #[trigger] waveform[i] <= peak_amplitude(
                chosen(request.volume, state.volume) as nat,
            ),
{
}

/// The timeline of the text and the duration of the waveform both fit into
/// 64 bits of milliseconds.
pub open spec fn result_fits(text: Seq<char>, samples: nat, rate: nat) -> bool {
    timeline_span(text) <= u64::MAX && duration_ms(samples, rate) <= u64::MAX
}

/// The result of a request for which the engine rendered a waveform.
pub open spec fn result_of(
    state: SynthesizerView,
    text: Seq<char>,
    with_visemes: bool,
    waveform: Seq<i16>,
) -> ResultView {
    ResultView {
        audio: waveform,
        sample_rate: state.sample_rate as nat,
        duration: duration_ms(waveform.len(), state.sample_rate as nat),
        visemes: if with_visemes {
            visemes_of(timeline(text))
        } else {
            Seq::empty()
        },
    }
}

impl TextToSpeech {
    /// The sample rate of the output is not zero.
    pub open spec fn wf(&self) -> bool {
        self@.sample_rate > 0
    }

    /// A synthesizer for the configured output, with the initial voice and
    /// the configured defaults. A sample rate of zero is not supported.
    pub fn new(config: &AppConfig) -> (made: Result<TextToSpeech, AudioError>)
        ensures
            match made {
                Ok(tts) => tts.wf() && tts@ == fresh_synthesizer(config),
                Err(e) => e == AudioError::UnsupportedConfig && config.audio.output.sample_rate
                    == 0,
            },
    {
        if config.audio.output.sample_rate == 0 {
            return Err(AudioError::UnsupportedConfig);
        }
        Ok(
            TextToSpeech {
                synthesis_sender: channel::open_channel(SYNTHESIS_CAPACITY),
                is_synthesizing: false,
                current_voice: "neural".to_string(),
                sample_rate: config.audio.output.sample_rate,
                speed: config.tts.speed,
                pitch: config.tts.pitch,
                volume: config.tts.volume,
            },
        )
    }

    /// Takes the configured voice.
    pub fn initialize(&mut self, voice: &str) -> (done: Result<(), AudioError>)
        ensures
            done == Ok::<(), AudioError>(()),
            final(self)@ == (SynthesizerView { voice: voice@, ..old(self)@ }),
    {
        self.current_voice = voice.to_string();
        Ok(())
    }

    /// Tells whether a request is being synthesized.
    pub fn is_synthesizing(&self) -> (synthesizing: bool)
        ensures
            synthesizing == self@.synthesizing,
    {
        self.is_synthesizing
    }

    /// Marks the synthesizer as not synthesizing.
    pub fn stop_synthesis(&mut self)
        ensures
            final(self)@ == (SynthesizerView { synthesizing: false, ..old(self)@ }),
    {
        self.is_synthesizing = false;
    }

    /// A receiver for the synthesis results published from now on.
    pub fn get_synthesis_receiver(&self) -> Receiver<SynthesisResult> {
        channel::subscribe(&self.synthesis_sender)
    }

    /// What the engine is to render for a request: a tone of 440 Hz, a tenth
    /// of a second long for each byte of the text, with the amplitude that
    /// the volume allows. Voice, speed, pitch and volume are those of the
    /// request, or the defaults where the request gives none. Fails with
    /// `SynthesisFailure` only where the number of samples is beyond `usize`.
    pub fn plan_audio(&self, request: &SynthesisRequest) -> (planned: Result<
        AudioPlan,
        AudioError,
    >)
        ensures
            match planned {
                Ok(plan) => plan_matches(self@, request, &plan),
                Err(e) => {
                    &&& e == AudioError::SynthesisFailure
                    &&& waveform_len(request.text@, self@.sample_rate as nat) > usize::MAX
                },
            },
    {
        let bytes = request.text.as_str().as_bytes();
        let length = bytes.len();
        let rate = self.sample_rate;
        assert(length * rate <= u128::MAX) by (nonlinear_arith)
            requires
                0 <= length <= u64::MAX,
                0 <= rate <= u32::MAX,
        ;
        let samples = (length as u128) * (rate as u128) / 10;
        if samples > usize::MAX as u128 {
            return Err(AudioError::SynthesisFailure);
        }
        let volume = match request.volume {
            Some(value) => value,
            None => self.volume,
        };
        let speed = match request.speed {
            Some(value) => value,
            None => self.speed,
        };
        let pitch = match request.pitch {
            Some(value) => value,
            None => self.pitch,
        };
        let voice = match &request.voice {
            Some(name) => name.clone(),
            None => self.current_voice.clone(),
        };
        let amplitude = if volume >= FULL_SCALE_VOLUME {
            PEAK as i16
        } else {
            ((PEAK as u64) * (volume as u64) / (FULL_SCALE_VOLUME as u64)) as i16
        };
        Ok(
            AudioPlan {
                sample_count: samples as usize,
                sample_rate: rate,
                frequency: TONE_HZ,
                amplitude,
                voice,
                speed,
                pitch,
                volume,
            },
        )
    }

    /// Builds the result of a request from the waveform that the engine
    /// rendered for it: the waveform, its rate and duration, and the viseme
    /// cues of the text where the request asks for them. Fails with
    /// `SynthesisFailure` only where the timeline or the duration does not
    /// fit.
    pub fn build_result(&self, request: &SynthesisRequest, waveform: Vec<i16>) -> (built: Result<
        SynthesisResult,
        AudioError,
    >)
        requires
            self.wf(),
        ensures
            match built {
                Ok(result) => {
                    &&& result_fits(request.text@, waveform@.len(), self@.sample_rate as nat)
                    &&& result@ == result_of(
                        self@,
                        request.text@,
                        request.generate_visemes,
                        waveform@,
                    )
                },
                Err(e) => {
                    &&& e == AudioError::SynthesisFailure
                    &&& !result_fits(request.text@, waveform@.len(), self@.sample_rate as nat)
                },
            },
    {
        let phonemes = match text_to_phonemes(request.text.as_str()) {
            Ok(phonemes) => phonemes,
            Err(_) => {
                return Err(AudioError::SynthesisFailure);
            },
        };
        let visemes = if request.generate_visemes {
            generate_visemes(&phonemes)
        } else {
            Vec::new()
        };
        let length = waveform.len();
        let duration = (length as u128) * 1000 / (self.sample_rate as u128);
        if duration > u64::MAX as u128 {
            return Err(AudioError::SynthesisFailure);
        }
        let result = SynthesisResult {
            audio_data: waveform,
            sample_rate: self.sample_rate,
            duration: duration as u64,
            visemes,
        };
        assert(result@ =~= result_of(self@, request.text@, request.generate_visemes, waveform@));
        Ok(result)
    }

    /// Synthesizes a request with the waveform that the engine rendered for
    /// it, or with the engine's failure. The result is built and published
    /// to the subscribers of the synthesis channel. A failure of the engine,
    /// or a result that does not fit, gives `SynthesisFailure`; a channel
    /// without a subscriber gives `ChannelClosed`. No result is published
    /// where the request fails. The synthesizer counts as synthesizing from
    /// the start of the request and until the request has succeeded.
    pub fn synthesize(&mut self, request: SynthesisRequest, waveform: Result<
        Vec<i16>,
        AudioError,
    >) -> (done: Result<(), AudioError>)
        requires
            old(self).wf(),
        ensures
            final(self).wf(),
            final(self)@ == (SynthesizerView { synthesizing: done is Err, ..old(self)@ }),
            waveform is Err ==> done == Err::<(), AudioError>(AudioError::SynthesisFailure),
            waveform matches Ok(samples) ==> {
                if result_fits(request.text@, samples@.len(), old(self)@.sample_rate as nat) {
                    done == Ok::<(), AudioError>(()) || done == Err::<(), AudioError>(
                        AudioError::ChannelClosed,
                    )
                } else {
                    done == Err::<(), AudioError>(AudioError::SynthesisFailure)
                }
            },
    {
        self.is_synthesizing = true;
        let samples = match waveform {
            Ok(samples) => samples,
            Err(_) => {
                return Err(AudioError::SynthesisFailure);
            },
        };
        let result = match self.build_result(&request, samples) {
            Ok(result) => result,
            Err(e) => {
                return Err(e);
            },
        };
        let done = channel::delivery(channel::send(&self.synthesis_sender, result));
        if done.is_ok() {
            self.is_synthesizing = false;
        }
        done
    }
}

} // verus!
