
use conversation_audio::config::AnimationConfig;
use conversation_audio::config::AppConfig;
use conversation_audio::config::AppSettings;
use conversation_audio::config::AudioConfig;
use conversation_audio::config::AudioInputConfig;
use conversation_audio::config::AudioOutputConfig;
use conversation_audio::config::CharacterConfig;
use conversation_audio::config::DevelopmentConfig;
use conversation_audio::config::FacialExpressionConfig;
use conversation_audio::config::LipSyncConfig;
use conversation_audio::config::LlmConfig;
use conversation_audio::config::LoggingConfig;
use conversation_audio::config::MemoryConfig;
use conversation_audio::config::PerformanceConfig;
use conversation_audio::config::RenderingConfig;
use conversation_audio::config::SttConfig;
use conversation_audio::config::TtsConfig;
use conversation_audio::config::VisionConfig;
use conversation_audio::config::WindowConfig;
use conversation_audio::device::AudioManager;
use conversation_audio::device::DeviceChoice;
use conversation_audio::device::FRAME_QUEUE_CAPACITY;
use conversation_audio::device::HostDevices;
use conversation_audio::device::StreamSettings;
use conversation_audio::device::find_device_by_name;
use conversation_audio::device::resolve_device;
use conversation_audio::error::AudioError;
use conversation_audio::frame::VisemeData;

fn settings(input_rate: u32, output_rate: u32) -> AppConfig {
    AppConfig {
        app: AppSettings {
            name: "assistant".to_string(),
            version: "0.1.0".to_string(),
            window: WindowConfig {
                width: 1280,
                height: 720,
                resizable: true,
                fullscreen: false,
                always_on_top: false,
            },
        },
        audio: AudioConfig {
            input: AudioInputConfig {
                device: "default".to_string(),
                sample_rate: input_rate,
                channels: 1,
                buffer_size: 100,
                noise_suppression: false,
                echo_cancellation: false,
            },
            output: AudioOutputConfig {
                device: "default".to_string(),
                sample_rate: output_rate,
                channels: 2,
                volume: 1000,
                low_latency: true,
            },
        },
        stt: SttConfig {
            provider: "whisper".to_string(),
            model: "base".to_string(),
            language: "en".to_string(),
            real_time: true,
            vad_enabled: true,
            silence_threshold: 328,
            min_speech_duration: 100,
            max_speech_duration: 30000,
        },
        tts: TtsConfig {
            provider: "local".to_string(),
            voice: "aria".to_string(),
            speed: 1000,
            pitch: 1000,
            volume: 500,
            streaming: false,
            low_latency: true,
            generate_visemes: true,
        },
        llm: LlmConfig {
            provider: "local".to_string(),
            model: "small".to_string(),
            max_tokens: 256,
            temperature: 700,
            top_p: 900,
            stream: true,
            context_window: 4096,
            system_prompt: "You are helpful.".to_string(),
        },
        vision: VisionConfig {
            enabled: false,
            model: "none".to_string(),
            input_resolution: [640, 480],
            fps: 30,
            object_detection: false,
            face_detection: false,
            emotion_recognition: false,
        },
        character: CharacterConfig {
            enabled: true,
            provider: "avatar".to_string(),
            avatar_url: "avatar.glb".to_string(),
            animations: AnimationConfig {
                idle: "idle".to_string(),
                talking: "talking".to_string(),
                listening: "listening".to_string(),
                thinking: "thinking".to_string(),
            },
            lip_sync: LipSyncConfig {
                enabled: true,
                viseme_mapping: "arkit".to_string(),
                smoothing: 500,
                intensity: 1000,
                real_time: true,
            },
            facial_expressions: FacialExpressionConfig {
                enabled: true,
                emotion_mapping: true,
                blink_rate: 300,
                eye_tracking: false,
            },
            rendering: RenderingConfig {
                quality: "high".to_string(),
                shadows: true,
                lighting: "studio".to_string(),
                anti_aliasing: true,
                fps_target: 60,
            },
        },
        performance: PerformanceConfig {
            hardware_acceleration: true,
            gpu_rendering: true,
            multi_threading: true,
            memory_optimization: false,
            low_latency_mode: true,
            target_fps: 60,
            audio_buffer_size: 512,
            video_buffer_size: 4,
        },
        memory: MemoryConfig {
            enabled: true,
            max_history: 50,
            context_retention: 10,
            save_conversations: false,
            conversation_timeout: 300,
        },
        logging: LoggingConfig {
            level: "info".to_string(),
            file_logging: false,
            console_logging: true,
            log_file: "app.log".to_string(),
            max_file_size: "10MB".to_string(),
            max_files: 3,
        },
        development: DevelopmentConfig {
            debug_mode: false,
            hot_reload: false,
            performance_monitoring: false,
            error_reporting: true,
            telemetry: false,
        },
    }
}

fn names(list: &[Option<&str>]) -> Vec<Option<String>> {
    list.iter().map(|n| n.map(|s| s.to_string())).collect()
}

fn host() -> HostDevices {
    HostDevices {
        inputs: names(&[Some("HDA Intel PCH"), None, Some("USB Microphone"), Some("USB Webcam")]),
        outputs: names(&[Some("HDMI 0"), Some("Speakers (USB Audio)")]),
        has_default_input: true,
        has_default_output: true,
    }
}

fn named(input: &str, output: &str) -> AppConfig {
    let mut config = settings(16000, 22050);
    config.audio.input.device = input.to_string();
    config.audio.output.device = output.to_string();
    config
}

#[test]
fn the_first_device_whose_name_holds_the_text_is_found() {
    let list = host().inputs;
    assert_eq!(find_device_by_name(&list, "USB"), Some(2));
    assert_eq!(find_device_by_name(&list, "Webcam"), Some(3));
    assert_eq!(find_device_by_name(&list, "HDA Intel PCH"), Some(0));
    assert_eq!(find_device_by_name(&list, ""), Some(0));
}

#[test]
fn a_name_that_no_device_holds_is_not_found() {
    let list = host().inputs;
    assert_eq!(find_device_by_name(&list, "usb"), None);
    assert_eq!(find_device_by_name(&list, "Bluetooth"), None);
    assert_eq!(find_device_by_name(&list, "USB Microphone Pro"), None);
    assert_eq!(find_device_by_name(&Vec::new(), "USB"), None);
    assert_eq!(find_device_by_name(&names(&[None, None]), ""), None);
}

#[test]
fn default_means_the_default_device_of_the_host() {
    assert_eq!(resolve_device("default", &host().inputs, true), Ok(DeviceChoice::Default));
    assert_eq!(
        resolve_device("default", &host().inputs, false),
        Err(AudioError::NoDefaultDevice)
    );
    assert_eq!(resolve_device("default", &Vec::new(), true), Ok(DeviceChoice::Default));
}

#[test]
fn another_name_means_the_first_device_that_holds_it() {
    assert_eq!(resolve_device("Microphone", &host().inputs, false), Ok(DeviceChoice::Named(2)));
    assert_eq!(
        resolve_device("Headset", &host().inputs, true),
        Err(AudioError::DeviceNotFound)
    );
}

#[test]
fn both_device_errors_mean_that_hardware_is_missing() {
    assert!(AudioError::DeviceNotFound.is_device_unavailable());
    assert!(AudioError::NoDefaultDevice.is_device_unavailable());
    assert!(!AudioError::StreamError.is_device_unavailable());
}

#[test]
fn a_new_manager_does_nothing_yet() {
    let manager = AudioManager::new(&settings(16000, 22050));
    assert!(!manager.is_recording());
    assert!(!manager.is_playing());
    assert_eq!(manager.stream_settings(), Err(AudioError::EngineUninitialized));
}

#[test]
fn recording_needs_a_resolved_input_device() {
    let mut manager = AudioManager::new(&settings(16000, 22050));
    assert_eq!(manager.start_recording(true), Err(AudioError::EngineUninitialized));
    assert!(!manager.is_recording());
}

#[test]
fn setup_resolves_both_devices() {
    let mut manager = AudioManager::new(&named("Microphone", "Speakers"));
    assert_eq!(manager.initialize(&host()), Ok(()));
    assert_eq!(
        manager.stream_settings(),
        Ok(StreamSettings { channels: 1, sample_rate: 16000, buffer_size: 100 })
    );
}

#[test]
fn setup_fails_on_the_first_device_that_is_missing() {
    let mut manager = AudioManager::new(&named("Headset", "Nowhere"));
    assert_eq!(manager.initialize(&host()), Err(AudioError::DeviceNotFound));
    assert_eq!(manager.stream_settings(), Err(AudioError::EngineUninitialized));

    let mut manager = AudioManager::new(&named("Microphone", "default"));
    let mut offer = host();
    offer.has_default_output = false;
    assert_eq!(manager.initialize(&offer), Err(AudioError::NoDefaultDevice));
    // the input device was resolved before the output device failed
    assert!(manager.stream_settings().is_ok());
}

#[test]
fn a_stream_that_did_not_open_leaves_capture_off() {
    let mut manager = AudioManager::new(&settings(16000, 22050));
    manager.initialize(&host()).unwrap();
    assert_eq!(manager.start_recording(false), Err(AudioError::StreamError));
    assert!(!manager.is_recording());
    assert_eq!(manager.start_recording(true), Ok(()));
    assert!(manager.is_recording());
}

#[test]
fn stopping_capture_twice_is_stopping_it_once() {
    let mut manager = AudioManager::new(&settings(16000, 22050));
    manager.initialize(&host()).unwrap();
    manager.start_recording(true).unwrap();
    assert_eq!(manager.stop_recording(), Ok(()));
    assert!(!manager.is_recording());
    assert_eq!(manager.stop_recording(), Ok(()));
    assert!(!manager.is_recording());
}

#[test]
fn buffers_are_stamped_and_queued_while_recording() {
    let mut manager = AudioManager::new(&settings(16000, 22050));
    manager.initialize(&host()).unwrap();
    assert!(!manager.capture(vec![1, 2, 3], 10));
    manager.start_recording(true).unwrap();
    assert!(manager.capture(vec![4, 5, 6], 20));
    assert!(manager.capture(vec![7], 30));
    manager.stop_recording().unwrap();
    assert!(!manager.capture(vec![8], 40));
    let frames = manager.take_frames();
    assert_eq!(frames.len(), 2);
    assert_eq!(frames[0].data, vec![4, 5, 6]);
    assert_eq!(frames[0].sample_rate, 16000);
    assert_eq!(frames[0].channels, 1);
    assert_eq!(frames[0].timestamp, 20);
    assert_eq!(frames[1].data, vec![7]);
    assert_eq!(frames[1].timestamp, 30);
    assert!(manager.take_frames().is_empty());
}

#[test]
fn capture_never_holds_more_than_the_queue_allows() {
    let mut manager = AudioManager::new(&settings(16000, 22050));
    manager.initialize(&host()).unwrap();
    manager.start_recording(true).unwrap();
    let extra = 10;
    for t in 0..(FRAME_QUEUE_CAPACITY + extra) {
        assert!(manager.capture(vec![0], t as u64));
    }
    let frames = manager.take_frames();
    assert_eq!(frames.len(), FRAME_QUEUE_CAPACITY);
    assert_eq!(frames[0].timestamp, extra as u64);
    assert_eq!(frames.last().unwrap().timestamp, (FRAME_QUEUE_CAPACITY + extra - 1) as u64);
}

#[test]
fn playback_is_marked_until_shutdown() {
    let mut manager = AudioManager::new(&settings(16000, 22050));
    manager.initialize(&host()).unwrap();
    manager.start_recording(true).unwrap();
    assert_eq!(manager.play_audio(&vec![0i16; 100], 22050, false), Err(AudioError::StreamError));
    assert!(!manager.is_playing());
    assert_eq!(manager.play_audio(&vec![0i16; 100], 22050, true), Ok(()));
    assert!(manager.is_playing());
    manager.shutdown();
    assert!(!manager.is_playing());
    assert!(!manager.is_recording());
}

#[test]
fn cues_reach_the_subscribers_of_the_viseme_channel() {
    let manager = AudioManager::new(&settings(16000, 22050));
    let cue = VisemeData { phoneme: "aa".to_string(), timestamp: 10, duration: 100, intensity: 1000 };
    assert_eq!(manager.send_viseme(cue.duplicate()), Err(AudioError::ChannelClosed));
    let mut receiver = manager.get_viseme_receiver();
    assert_eq!(manager.send_viseme(cue), Ok(()));
    let got = receiver.try_recv().unwrap();
    assert_eq!((got.phoneme.as_str(), got.timestamp, got.duration, got.intensity), ("aa", 10, 100, 1000));
}
