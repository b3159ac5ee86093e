
use conversation_audio::config::AnimationConfig;
use conversation_audio::config::AppConfig;
use conversation_audio::config::AppSettings;
use conversation_audio::config::AudioConfig;
use conversation_audio::config::AudioInputConfig;
use conversation_audio::config::AudioOutputConfig;
use conversation_audio::config::CharacterConfig;
use conversation_audio::config::DevelopmentConfig;
use conversation_audio::config::FacialExpressionConfig;
use conversation_audio::config::LipSyncConfig;
use conversation_audio::config::LlmConfig;
use conversation_audio::config::LoggingConfig;
use conversation_audio::config::MemoryConfig;
use conversation_audio::config::PerformanceConfig;
use conversation_audio::config::RenderingConfig;
use conversation_audio::config::SttConfig;
use conversation_audio::config::TtsConfig;
use conversation_audio::config::VisionConfig;
use conversation_audio::config::WindowConfig;
use conversation_audio::error::AudioError;
use conversation_audio::frame::AudioFrame;
use conversation_audio::stt::SpeechToText;
use conversation_audio::stt::exceeds_threshold;
use conversation_audio::stt::transcribe_audio;
use tokio::sync::broadcast::error::TryRecvError;

fn settings(input_rate: u32, output_rate: u32) -> AppConfig {
    AppConfig {
        app: AppSettings {
            name: "assistant".to_string(),
            version: "0.1.0".to_string(),
            window: WindowConfig {
                width: 1280,
                height: 720,
                resizable: true,
                fullscreen: false,
                always_on_top: false,
            },
        },
        audio: AudioConfig {
            input: AudioInputConfig {
                device: "default".to_string(),
                sample_rate: input_rate,
                channels: 1,
                buffer_size: 100,
                noise_suppression: false,
                echo_cancellation: false,
            },
            output: AudioOutputConfig {
                device: "default".to_string(),
                sample_rate: output_rate,
                channels: 2,
                volume: 1000,
                low_latency: true,
            },
        },
        stt: SttConfig {
            provider: "whisper".to_string(),
            model: "base".to_string(),
            language: "en".to_string(),
            real_time: true,
            vad_enabled: true,
            silence_threshold: 328,
            min_speech_duration: 100,
            max_speech_duration: 30000,
        },
        tts: TtsConfig {
            provider: "local".to_string(),
            voice: "aria".to_string(),
            speed: 1000,
            pitch: 1000,
            volume: 500,
            streaming: false,
            low_latency: true,
            generate_visemes: true,
        },
        llm: LlmConfig {
            provider: "local".to_string(),
            model: "small".to_string(),
            max_tokens: 256,
            temperature: 700,
            top_p: 900,
            stream: true,
            context_window: 4096,
            system_prompt: "You are helpful.".to_string(),
        },
        vision: VisionConfig {
            enabled: false,
            model: "none".to_string(),
            input_resolution: [640, 480],
            fps: 30,
            object_detection: false,
            face_detection: false,
            emotion_recognition: false,
        },
        character: CharacterConfig {
            enabled: true,
            provider: "avatar".to_string(),
            avatar_url: "avatar.glb".to_string(),
            animations: AnimationConfig {
                idle: "idle".to_string(),
                talking: "talking".to_string(),
                listening: "listening".to_string(),
                thinking: "thinking".to_string(),
            },
            lip_sync: LipSyncConfig {
                enabled: true,
                viseme_mapping: "arkit".to_string(),
                smoothing: 500,
                intensity: 1000,
                real_time: true,
            },
            facial_expressions: FacialExpressionConfig {
                enabled: true,
                emotion_mapping: true,
                blink_rate: 300,
                eye_tracking: false,
            },
            rendering: RenderingConfig {
                quality: "high".to_string(),
                shadows: true,
                lighting: "studio".to_string(),
                anti_aliasing: true,
                fps_target: 60,
            },
        },
        performance: PerformanceConfig {
            hardware_acceleration: true,
            gpu_rendering: true,
            multi_threading: true,
            memory_optimization: false,
            low_latency_mode: true,
            target_fps: 60,
            audio_buffer_size: 512,
            video_buffer_size: 4,
        },
        memory: MemoryConfig {
            enabled: true,
            max_history: 50,
            context_retention: 10,
            save_conversations: false,
            conversation_timeout: 300,
        },
        logging: LoggingConfig {
            level: "info".to_string(),
            file_logging: false,
            console_logging: true,
            log_file: "app.log".to_string(),
            max_file_size: "10MB".to_string(),
            max_files: 3,
        },
        development: DevelopmentConfig {
            debug_mode: false,
            hot_reload: false,
            performance_monitoring: false,
            error_reporting: true,
            telemetry: false,
        },
    }
}

const RATE: u32 = 16000;
const LOW: i16 = 100;
const HIGH: i16 = 3277;

fn frame(sample: i16, len: usize, timestamp: u64) -> AudioFrame {
    AudioFrame { data: vec![sample; len], sample_rate: RATE, channels: 1, timestamp }
}

fn segmenter() -> SpeechToText {
    SpeechToText::new(&settings(RATE, 22050)).unwrap()
}

#[test]
fn energy_is_compared_by_root_mean_square() {
    assert!(exceeds_threshold(&vec![329; 100], 328));
    assert!(!exceeds_threshold(&vec![328; 100], 328));
    assert!(exceeds_threshold(&vec![-329; 100], 328));
    assert!(!exceeds_threshold(&vec![0; 100], 0));
    assert!(exceeds_threshold(&vec![1, 0, 0, 0], 0));
}

#[test]
fn energy_is_the_mean_over_the_frame() {
    // one loud sample among silence: sum of squares 1000000, mean 10000, rms 100
    let mut samples = vec![0i16; 100];
    samples[17] = 1000;
    assert!(exceeds_threshold(&samples, 99));
    assert!(!exceeds_threshold(&samples, 100));
}

#[test]
fn an_empty_frame_is_silence() {
    assert!(!exceeds_threshold(&Vec::new(), 0));
    assert!(!exceeds_threshold(&Vec::new(), 328));
}

#[test]
fn no_frame_exceeds_a_threshold_at_full_scale() {
    assert!(!exceeds_threshold(&vec![i16::MIN; 64], 32768));
    assert!(!exceeds_threshold(&vec![i16::MAX; 64], 40000));
    assert!(exceeds_threshold(&vec![i16::MIN; 64], 32767));
}

#[test]
fn a_zero_sample_rate_is_not_supported() {
    assert!(matches!(
        SpeechToText::new(&settings(0, 22050)),
        Err(AudioError::UnsupportedConfig)
    ));
}

#[test]
fn a_new_segmenter_is_idle_and_empty() {
    let stt = segmenter();
    assert!(!stt.is_processing());
    assert_eq!(stt.buffered_samples(), 0);
    assert_eq!(stt.silence_samples(), 0);
    assert_eq!(stt.model_path(), "models/base.bin");
}

#[test]
fn speech_is_gathered_and_ends_the_silence() {
    let mut stt = segmenter();
    assert!(stt.process_frame(&frame(LOW, 100, 0)).is_none());
    assert_eq!(stt.silence_samples(), 100);
    assert!(stt.process_frame(&frame(HIGH, 100, 1)).is_none());
    assert_eq!(stt.buffered_samples(), 100);
    assert_eq!(stt.silence_samples(), 0);
    assert!(stt.process_frame(&frame(HIGH, 60, 2)).is_none());
    assert_eq!(stt.buffered_samples(), 160);
}

#[test]
fn silence_must_outlast_the_window() {
    let mut stt = segmenter();
    for _ in 0..20 {
        assert!(stt.process_frame(&frame(HIGH, 100, 0)).is_none());
    }
    // the window is half a second: 8000 samples; 80 frames reach it, the 81st exceeds it
    for _ in 0..80 {
        assert!(stt.process_frame(&frame(LOW, 100, 0)).is_none());
    }
    assert_eq!(stt.silence_samples(), 8000);
    assert_eq!(stt.buffered_samples(), 2000);
    let utterance = stt.process_frame(&frame(LOW, 100, 0)).unwrap();
    assert_eq!(utterance, vec![HIGH; 2000]);
    assert_eq!(stt.buffered_samples(), 0);
    assert_eq!(stt.silence_samples(), 0);
}

#[test]
fn speech_at_the_minimum_is_noise() {
    // the minimum is a tenth of a second: 1600 samples, which must be exceeded
    let mut stt = segmenter();
    for _ in 0..16 {
        stt.process_frame(&frame(HIGH, 100, 0));
    }
    assert_eq!(stt.buffered_samples(), 1600);
    for _ in 0..81 {
        assert!(stt.process_frame(&frame(LOW, 100, 0)).is_none());
    }
    assert_eq!(stt.buffered_samples(), 0);
    assert_eq!(stt.silence_samples(), 0);
}

#[test]
fn speech_just_above_the_minimum_is_submitted() {
    let mut stt = segmenter();
    for _ in 0..16 {
        stt.process_frame(&frame(HIGH, 100, 0));
    }
    stt.process_frame(&frame(HIGH, 1, 0));
    let mut submitted = Vec::new();
    for _ in 0..81 {
        if let Some(utterance) = stt.process_frame(&frame(LOW, 100, 0)) {
            submitted.push(utterance);
        }
    }
    assert_eq!(submitted, vec![vec![HIGH; 1601]]);
}

#[test]
fn a_short_burst_between_silence_is_never_submitted() {
    // 200 samples of speech are under the minimum of 1600
    let mut stt = segmenter();
    let mut submissions = 0;
    let mut feed = |stt: &mut SpeechToText, sample: i16, frames: usize| {
        for _ in 0..frames {
            if stt.process_frame(&frame(sample, 100, 0)).is_some() {
                submissions += 1;
            }
        }
    };
    feed(&mut stt, LOW, 50);
    feed(&mut stt, HIGH, 2);
    feed(&mut stt, LOW, 600);
    assert_eq!(submissions, 0);
    assert_eq!(stt.buffered_samples(), 0);
}

#[test]
fn one_run_of_speech_gives_one_submission() {
    // 50 frames of silence, 200 frames of speech, 600 frames of silence,
    // 100 samples each, at 16 kHz
    let mut stt = segmenter();
    let mut submitted: Vec<Vec<i16>> = Vec::new();
    let mut fed = 0u64;
    for (sample, frames) in [(LOW, 50), (HIGH, 200), (LOW, 600)] {
        for _ in 0..frames {
            if let Some(utterance) = stt.process_frame(&frame(sample, 100, fed)) {
                submitted.push(utterance);
            }
            fed += 1;
        }
    }
    assert_eq!(submitted.len(), 1);
    assert_eq!(submitted[0], vec![HIGH; 200 * 100]);
}

#[test]
fn silent_pauses_inside_speech_are_left_out() {
    let mut stt = segmenter();
    for _ in 0..10 {
        stt.process_frame(&frame(HIGH, 100, 0));
    }
    for _ in 0..10 {
        stt.process_frame(&frame(LOW, 100, 0));
    }
    for _ in 0..10 {
        stt.process_frame(&frame(-HIGH, 100, 0));
    }
    let mut submitted = Vec::new();
    for _ in 0..81 {
        if let Some(utterance) = stt.process_frame(&frame(0, 100, 0)) {
            submitted.push(utterance);
        }
    }
    let mut expected = vec![HIGH; 1000];
    expected.extend(vec![-HIGH; 1000]);
    assert_eq!(submitted, vec![expected]);
}

#[test]
fn the_built_in_engine_needs_more_than_a_thousand_samples() {
    assert_eq!(transcribe_audio(&vec![0i16; 1001]), "[Transcribed speech placeholder]");
    assert_eq!(transcribe_audio(&vec![0i16; 1000]), "");
    assert_eq!(transcribe_audio(&Vec::new()), "");
}

#[test]
fn results_are_final_in_the_configured_language() {
    let stt = segmenter();
    let result = stt.make_result("hello".to_string(), 42);
    assert_eq!(result.text, "hello");
    assert_eq!(result.confidence, 900);
    assert_eq!(result.language, "en");
    assert_eq!(result.timestamp, 42);
    assert!(result.is_final);
    let copy = result.duplicate();
    assert_eq!(copy.text, "hello");
    assert_eq!(copy.timestamp, 42);
}

#[test]
fn polling_does_nothing_while_processing_is_off() {
    let mut stt = segmenter();
    let frames: Vec<AudioFrame> = (0..30).map(|i| frame(HIGH, 100, i)).collect();
    assert!(stt.poll(&frames, 7).is_empty());
    assert_eq!(stt.buffered_samples(), 0);
}

#[test]
fn polling_transcribes_and_publishes_each_utterance() {
    let mut stt = segmenter();
    let mut receiver = stt.get_transcription_receiver();
    stt.start_processing();
    assert!(stt.is_processing());
    let mut frames: Vec<AudioFrame> = Vec::new();
    for (sample, count) in [(LOW, 50), (HIGH, 200), (LOW, 600), (HIGH, 17), (LOW, 81)] {
        for _ in 0..count {
            frames.push(frame(sample, 100, 0));
        }
    }
    let results = stt.poll(&frames, 1234);
    assert_eq!(results.len(), 2);
    assert_eq!(results[0].text, "[Transcribed speech placeholder]");
    assert_eq!(results[1].text, "[Transcribed speech placeholder]");
    assert_eq!(results[0].timestamp, 1234);
    assert!(results[0].is_final);
    let first = receiver.try_recv().unwrap();
    assert_eq!(first.text, "[Transcribed speech placeholder]");
    assert_eq!(first.language, "en");
    assert!(receiver.try_recv().is_ok());
    assert_eq!(receiver.try_recv().unwrap_err(), TryRecvError::Empty);
    stt.stop_processing();
    assert!(!stt.is_processing());
}

#[test]
fn polling_keeps_what_is_gathered_between_calls() {
    let mut stt = segmenter();
    stt.start_processing();
    let speech: Vec<AudioFrame> = (0..200).map(|i| frame(HIGH, 100, i)).collect();
    assert!(stt.poll(&speech, 1).is_empty());
    assert_eq!(stt.buffered_samples(), 20000);
    let silence: Vec<AudioFrame> = (0..81).map(|i| frame(LOW, 100, i)).collect();
    assert_eq!(stt.poll(&silence, 2).len(), 1);
    assert_eq!(stt.buffered_samples(), 0);
}

#[test]
fn results_reach_every_subscriber() {
    let stt = segmenter();
    assert!(stt.finish_utterance(Ok("nobody listens".to_string()), 0).is_some());
    let mut first = stt.get_transcription_receiver();
    let mut second = stt.get_transcription_receiver();
    assert!(stt.finish_utterance(Ok("x".to_string()), 0).is_some());
    assert_eq!(first.try_recv().unwrap().text, "x");
    assert_eq!(second.try_recv().unwrap().text, "x");
    assert_eq!(first.try_recv().unwrap_err(), TryRecvError::Empty);
}

#[test]
fn the_engine_is_ready_once_its_model_is_loaded() {
    let mut stt = segmenter();
    assert_eq!(stt.initialize(false), Err(AudioError::EngineUninitialized));
    assert_eq!(stt.initialize(true), Ok(()));
}

#[test]
fn segmenting_hands_out_the_utterances() {
    let mut stt = segmenter();
    let frames: Vec<AudioFrame> = (0..30).map(|i| frame(HIGH, 100, i)).collect();
    assert!(stt.segment(&frames).is_empty());
    assert_eq!(stt.buffered_samples(), 0);
    stt.start_processing();
    let mut frames: Vec<AudioFrame> = Vec::new();
    for (sample, count) in [(HIGH, 20), (LOW, 81), (HIGH, 5), (LOW, 81), (-HIGH, 17), (LOW, 81)] {
        for _ in 0..count {
            frames.push(frame(sample, 100, 0));
        }
    }
    // the second run of speech is too short to be an utterance
    assert_eq!(stt.segment(&frames), vec![vec![HIGH; 2000], vec![-HIGH; 1700]]);
}

#[test]
fn a_failed_transcription_is_dropped() {
    let stt = segmenter();
    let mut receiver = stt.get_transcription_receiver();
    assert!(stt.finish_utterance(Err(AudioError::TranscriptionFailure), 9).is_none());
    assert_eq!(receiver.try_recv().unwrap_err(), TryRecvError::Empty);
    let result = stt.finish_utterance(Ok("good evening".to_string()), 9).unwrap();
    assert_eq!(result.text, "good evening");
    assert_eq!(result.timestamp, 9);
    assert_eq!(receiver.try_recv().unwrap().text, "good evening");
    // an empty text is published too: its consumer decides what to do with it
    assert_eq!(stt.finish_utterance(Ok(String::new()), 9).unwrap().text, "");
    assert_eq!(receiver.try_recv().unwrap().text, "");
}
