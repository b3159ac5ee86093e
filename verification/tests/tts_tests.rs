
use conversation_audio::config::AnimationConfig;
use conversation_audio::config::AppConfig;
use conversation_audio::config::AppSettings;
use conversation_audio::config::AudioConfig;
use conversation_audio::config::AudioInputConfig;
use conversation_audio::config::AudioOutputConfig;
use conversation_audio::config::CharacterConfig;
use conversation_audio::config::DevelopmentConfig;
use conversation_audio::config::FacialExpressionConfig;
use conversation_audio::config::LipSyncConfig;
use conversation_audio::config::LlmConfig;
use conversation_audio::config::LoggingConfig;
use conversation_audio::config::MemoryConfig;
use conversation_audio::config::PerformanceConfig;
use conversation_audio::config::RenderingConfig;
use conversation_audio::config::SttConfig;
use conversation_audio::config::TtsConfig;
use conversation_audio::config::VisionConfig;
use conversation_audio::config::WindowConfig;
use conversation_audio::error::AudioError;
use conversation_audio::tts::SynthesisRequest;
use conversation_audio::tts::TextToSpeech;
use tokio::sync::broadcast::error::TryRecvError;

fn settings(input_rate: u32, output_rate: u32) -> AppConfig {
    AppConfig {
        app: AppSettings {
            name: "assistant".to_string(),
            version: "0.1.0".to_string(),
            window: WindowConfig {
                width: 1280,
                height: 720,
                resizable: true,
                fullscreen: false,
                always_on_top: false,
            },
        },
        audio: AudioConfig {
            input: AudioInputConfig {
                device: "default".to_string(),
                sample_rate: input_rate,
                channels: 1,
                buffer_size: 100,
                noise_suppression: false,
                echo_cancellation: false,
            },
            output: AudioOutputConfig {
                device: "default".to_string(),
                sample_rate: output_rate,
                channels: 2,
                volume: 1000,
                low_latency: true,
            },
        },
        stt: SttConfig {
            provider: "whisper".to_string(),
            model: "base".to_string(),
            language: "en".to_string(),
            real_time: true,
            vad_enabled: true,
            silence_threshold: 328,
            min_speech_duration: 100,
            max_speech_duration: 30000,
        },
        tts: TtsConfig {
            provider: "local".to_string(),
            voice: "aria".to_string(),
            speed: 1000,
            pitch: 1000,
            volume: 500,
            streaming: false,
            low_latency: true,
            generate_visemes: true,
        },
        llm: LlmConfig {
            provider: "local".to_string(),
            model: "small".to_string(),
            max_tokens: 256,
            temperature: 700,
            top_p: 900,
            stream: true,
            context_window: 4096,
            system_prompt: "You are helpful.".to_string(),
        },
        vision: VisionConfig {
            enabled: false,
            model: "none".to_string(),
            input_resolution: [640, 480],
            fps: 30,
            object_detection: false,
            face_detection: false,
            emotion_recognition: false,
        },
        character: CharacterConfig {
            enabled: true,
            provider: "avatar".to_string(),
            avatar_url: "avatar.glb".to_string(),
            animations: AnimationConfig {
                idle: "idle".to_string(),
                talking: "talking".to_string(),
                listening: "listening".to_string(),
                thinking: "thinking".to_string(),
            },
            lip_sync: LipSyncConfig {
                enabled: true,
                viseme_mapping: "arkit".to_string(),
                smoothing: 500,
                intensity: 1000,
                real_time: true,
            },
            facial_expressions: FacialExpressionConfig {
                enabled: true,
                emotion_mapping: true,
                blink_rate: 300,
                eye_tracking: false,
            },
            rendering: RenderingConfig {
                quality: "high".to_string(),
                shadows: true,
                lighting: "studio".to_string(),
                anti_aliasing: true,
                fps_target: 60,
            },
        },
        performance: PerformanceConfig {
            hardware_acceleration: true,
            gpu_rendering: true,
            multi_threading: true,
            memory_optimization: false,
            low_latency_mode: true,
            target_fps: 60,
            audio_buffer_size: 512,
            video_buffer_size: 4,
        },
        memory: MemoryConfig {
            enabled: true,
            max_history: 50,
            context_retention: 10,
            save_conversations: false,
            conversation_timeout: 300,
        },
        logging: LoggingConfig {
            level: "info".to_string(),
            file_logging: false,
            console_logging: true,
            log_file: "app.log".to_string(),
            max_file_size: "10MB".to_string(),
            max_files: 3,
        },
        development: DevelopmentConfig {
            debug_mode: false,
            hot_reload: false,
            performance_monitoring: false,
            error_reporting: true,
            telemetry: false,
        },
    }
}

fn request(text: &str, volume: Option<u32>, visemes: bool) -> SynthesisRequest {
    SynthesisRequest {
        text: text.to_string(),
        voice: None,
        speed: None,
        pitch: None,
        volume,
        generate_visemes: visemes,
    }
}

fn tone(count: usize, rate: u32, frequency: u32, amplitude: i16) -> Vec<i16> {
    (0..count)
        .map(|i| {
            let t = i as f64 / rate as f64;
            let value = (2.0 * std::f64::consts::PI * frequency as f64 * t).sin();
            (value * amplitude as f64) as i16
        })
        .collect()
}

#[test]
fn a_zero_output_rate_is_not_supported() {
    assert!(matches!(
        TextToSpeech::new(&settings(16000, 0)),
        Err(AudioError::UnsupportedConfig)
    ));
}

#[test]
fn the_plan_gives_a_tenth_of_a_second_for_each_byte() {
    let tts = TextToSpeech::new(&settings(16000, 22050)).unwrap();
    let plan = tts.plan_audio(&request("hi", None, true)).unwrap();
    assert_eq!(plan.sample_count, 4410);
    assert_eq!(plan.sample_rate, 22050);
    assert_eq!(plan.frequency, 440);
    let plan = tts.plan_audio(&request("b\u{e9}", None, true)).unwrap();
    assert_eq!(plan.sample_count, 3 * 2205);
    assert_eq!(tts.plan_audio(&request("", None, true)).unwrap().sample_count, 0);
}

#[test]
fn the_sample_count_is_rounded_down() {
    let tts = TextToSpeech::new(&settings(16000, 44101)).unwrap();
    assert_eq!(tts.plan_audio(&request("abc", None, false)).unwrap().sample_count, 13230);
}

#[test]
fn the_request_overrides_the_defaults() {
    let tts = TextToSpeech::new(&settings(16000, 22050)).unwrap();
    let plan = tts.plan_audio(&request("hi", None, false)).unwrap();
    assert_eq!((plan.volume, plan.speed, plan.pitch), (500, 1000, 1000));
    assert_eq!(plan.voice, "neural");
    let asked = SynthesisRequest {
        text: "hi".to_string(),
        voice: Some("nova".to_string()),
        speed: Some(1500),
        pitch: Some(800),
        volume: Some(250),
        generate_visemes: false,
    };
    let plan = tts.plan_audio(&asked).unwrap();
    assert_eq!((plan.volume, plan.speed, plan.pitch), (250, 1500, 800));
    assert_eq!(plan.voice, "nova");
    assert_eq!(plan.amplitude, 819);
}

#[test]
fn the_amplitude_is_a_tenth_of_the_volume() {
    let tts = TextToSpeech::new(&settings(16000, 22050)).unwrap();
    let amplitude = |volume: u32| tts.plan_audio(&request("a", Some(volume), false)).unwrap().amplitude;
    assert_eq!(amplitude(0), 0);
    assert_eq!(amplitude(500), 1638);
    assert_eq!(amplitude(1000), 3276);
    assert_eq!(amplitude(9999), 32763);
    assert_eq!(amplitude(10000), 32767);
    assert_eq!(amplitude(u32::MAX), 32767);
}

#[test]
fn initializing_takes_the_configured_voice() {
    let mut tts = TextToSpeech::new(&settings(16000, 22050)).unwrap();
    assert_eq!(tts.initialize("aria"), Ok(()));
    assert_eq!(tts.plan_audio(&request("hi", None, false)).unwrap().voice, "aria");
}

#[test]
fn the_result_holds_waveform_rate_duration_and_cues() {
    let tts = TextToSpeech::new(&settings(16000, 22050)).unwrap();
    let result = tts.build_result(&request("hello", None, true), vec![7i16; 11025]).unwrap();
    assert_eq!(result.audio_data, vec![7i16; 11025]);
    assert_eq!(result.sample_rate, 22050);
    assert_eq!(result.duration, 500);
    let cues: Vec<(String, u64, u64, u32)> = result
        .visemes
        .iter()
        .map(|c| (c.phoneme.clone(), c.timestamp, c.duration, c.intensity))
        .collect();
    assert_eq!(
        cues,
        vec![
            ("hh".to_string(), 0, 100, 1000),
            ("eh".to_string(), 100, 100, 1000),
            ("l".to_string(), 200, 100, 1000),
            ("ow".to_string(), 300, 100, 1000),
        ]
    );
    let copy = result.duplicate();
    assert_eq!(copy.audio_data, result.audio_data);
    assert_eq!(copy.duration, 500);
    assert_eq!(copy.visemes.len(), 4);
}

#[test]
fn the_duration_is_rounded_down_to_milliseconds() {
    let tts = TextToSpeech::new(&settings(16000, 22050)).unwrap();
    let result = tts.build_result(&request("a", None, false), vec![0i16; 1]).unwrap();
    assert_eq!(result.duration, 0);
    let result = tts.build_result(&request("a", None, false), vec![0i16; 2205]).unwrap();
    assert_eq!(result.duration, 100);
    let result = tts.build_result(&request("a", None, false), vec![0i16; 2204]).unwrap();
    assert_eq!(result.duration, 99);
}

#[test]
fn cues_are_made_only_on_request() {
    let tts = TextToSpeech::new(&settings(16000, 22050)).unwrap();
    let result = tts.build_result(&request("hello", None, false), vec![0i16; 10]).unwrap();
    assert!(result.visemes.is_empty());
}

#[test]
fn synthesis_publishes_the_result() {
    let mut tts = TextToSpeech::new(&settings(16000, 22050)).unwrap();
    let mut receiver = tts.get_synthesis_receiver();
    assert_eq!(tts.synthesize(request("hi", Some(500), true), Ok(vec![1i16; 4410])), Ok(()));
    assert!(!tts.is_synthesizing());
    let result = receiver.try_recv().unwrap();
    assert_eq!(result.audio_data.len(), 4410);
    assert_eq!(result.duration, 200);
    assert_eq!(receiver.try_recv().unwrap_err(), TryRecvError::Empty);
}

#[test]
fn synthesis_without_a_subscriber_reports_a_closed_channel() {
    let mut tts = TextToSpeech::new(&settings(16000, 22050)).unwrap();
    assert_eq!(
        tts.synthesize(request("hi", None, true), Ok(vec![1i16; 10])),
        Err(AudioError::ChannelClosed)
    );
    assert!(tts.is_synthesizing());
    tts.stop_synthesis();
    assert!(!tts.is_synthesizing());
}

#[test]
fn a_failed_engine_publishes_nothing() {
    let mut tts = TextToSpeech::new(&settings(16000, 22050)).unwrap();
    let mut receiver = tts.get_synthesis_receiver();
    assert_eq!(
        tts.synthesize(request("hi", None, true), Err(AudioError::SynthesisFailure)),
        Err(AudioError::SynthesisFailure)
    );
    assert!(tts.is_synthesizing());
    assert_eq!(receiver.try_recv().unwrap_err(), TryRecvError::Empty);
}

#[test]
fn speaking_hi_at_half_volume() {
    let mut tts = TextToSpeech::new(&settings(16000, 22050)).unwrap();
    let mut receiver = tts.get_synthesis_receiver();
    let asked = request("hi", Some(500), true);
    let plan = tts.plan_audio(&asked).unwrap();
    // a tenth of a second for each of the two bytes, at 22050 samples a second
    assert_eq!(plan.sample_count, 4410);
    // a tenth of half of full scale
    assert_eq!(plan.amplitude, 1638);
    let waveform = tone(plan.sample_count, plan.sample_rate, plan.frequency, plan.amplitude);
    assert!(plan.admits(&waveform));
    assert_eq!(tts.synthesize(asked, Ok(waveform)), Ok(()));
    let result = receiver.try_recv().unwrap();
    assert_eq!(result.audio_data.len(), 4410);
    assert!(result.audio_data.iter().all(|s| s.unsigned_abs() <= 1638));
    assert!(result.audio_data.iter().any(|s| s.unsigned_abs() > 1600));
    assert_eq!(result.sample_rate, 22050);
    assert_eq!(result.duration, 200);
    // neither "h" nor "i" has a pose, and a single word has no silence
    assert!(result.visemes.is_empty());
}

#[test]
fn speaking_hello_at_half_volume() {
    let mut tts = TextToSpeech::new(&settings(16000, 22050)).unwrap();
    let mut receiver = tts.get_synthesis_receiver();
    let asked = request("hello world", Some(500), true);
    let plan = tts.plan_audio(&asked).unwrap();
    assert_eq!(plan.sample_count, 11 * 2205);
    assert_eq!(plan.amplitude, 1638);
    let waveform = tone(plan.sample_count, plan.sample_rate, plan.frequency, plan.amplitude);
    assert!(plan.admits(&waveform));
    assert_eq!(tts.synthesize(asked, Ok(waveform)), Ok(()));
    let result = receiver.try_recv().unwrap();
    assert_eq!(result.audio_data.len(), 11 * 2205);
    assert!(result.audio_data.iter().all(|s| s.unsigned_abs() <= 1638));
    // every label of the two words has a pose: one cue for each phoneme
    assert_eq!(result.visemes.len(), 9);
    let last = result.visemes.last().unwrap();
    assert_eq!(last.phoneme, "d");
    assert_eq!(last.intensity, 1000);
    // the cues end where the timeline ends, and their durations add up to it
    assert_eq!(last.timestamp + last.duration, 850);
    assert_eq!(result.visemes.iter().map(|c| c.duration).sum::<u64>(), 850);
}

#[test]
fn a_waveform_is_held_to_its_plan() {
    let tts = TextToSpeech::new(&settings(16000, 22050)).unwrap();
    let plan = tts.plan_audio(&request("a", Some(500), false)).unwrap();
    assert_eq!((plan.sample_count, plan.amplitude), (2205, 1638));
    assert!(plan.admits(&vec![0i16; 2205]));
    assert!(plan.admits(&vec![1638i16; 2205]));
    assert!(plan.admits(&vec![-1638i16; 2205]));
    assert!(!plan.admits(&vec![1639i16; 2205]));
    assert!(!plan.admits(&vec![-1639i16; 2205]));
    assert!(!plan.admits(&vec![0i16; 2204]));
    assert!(!plan.admits(&vec![0i16; 2206]));
    let mut late = vec![0i16; 2205];
    late[2204] = i16::MIN;
    assert!(!plan.admits(&late));
    let nothing = tts.plan_audio(&request("", Some(500), false)).unwrap();
    assert!(nothing.admits(&Vec::new()));
}
