//! The settings of the application, and the cell that holds them once loaded.
//!
//! Ratios are in thousandths, durations in milliseconds, and the
//! voice-activity threshold is an amplitude in PCM units.

use once_cell::sync::OnceCell;
use vstd::prelude::*;

use crate::text::string_views;

verus! {

/// `once_cell::sync::OnceCell`, a cell that can be filled once. Nothing is
/// known here of what a cell holds.
#[verifier::external_type_specification]
#[verifier::external_body]
#[verifier::reject_recursive_types(T)]
pub struct ExOnceCell<T>(OnceCell<T>);

#[derive(Debug, Clone)]
pub struct AppConfig {
    pub app: AppSettings,
    pub audio: AudioConfig,
    pub stt: SttConfig,
    pub tts: TtsConfig,
    pub llm: LlmConfig,
    pub vision: VisionConfig,
    pub character: CharacterConfig,
    pub performance: PerformanceConfig,
    pub memory: MemoryConfig,
    pub logging: LoggingConfig,
    pub development: DevelopmentConfig,
}

#[derive(Debug, Clone)]
pub struct AppSettings {
    pub name: String,
    pub version: String,
    pub window: WindowConfig,
}

#[derive(Debug, Clone)]
pub struct WindowConfig {
    pub width: u32,
    pub height: u32,
    pub resizable: bool,
    pub fullscreen: bool,
    pub always_on_top: bool,
}

#[derive(Debug, Clone)]
pub struct AudioConfig {
    pub input: AudioInputConfig,
    pub output: AudioOutputConfig,
}

#[derive(Debug, Clone)]
pub struct AudioInputConfig {
    /// `"default"`, or a part of the device's name.
    pub device: String,
    pub sample_rate: u32,
    pub channels: u16,
    pub buffer_size: u32,
    pub noise_suppression: bool,
    pub echo_cancellation: bool,
}

#[derive(Debug, Clone)]
pub struct AudioOutputConfig {
    /// `"default"`, or a part of the device's name.
    pub device: String,
    pub sample_rate: u32,
    pub channels: u16,
    /// In thousandths.
    pub volume: u32,
    pub low_latency: bool,
}

#[derive(Debug, Clone)]
pub struct SttConfig {
    pub provider: String,
    pub model: String,
    pub language: String,
    pub real_time: bool,
    pub vad_enabled: bool,
    /// Root-mean-square amplitude, in PCM units, above which a frame counts
    /// as speech.
    pub silence_threshold: u32,
    /// In milliseconds.
    pub min_speech_duration: u32,
    /// In milliseconds.
    pub max_speech_duration: u32,
}

#[derive(Debug, Clone)]
pub struct TtsConfig {
    pub provider: String,
    pub voice: String,
    /// In thousandths.
    pub speed: u32,
    /// In thousandths.
    pub pitch: u32,
    /// In thousandths.
    pub volume: u32,
    pub streaming: bool,
    pub low_latency: bool,
    pub generate_visemes: bool,
}

#[derive(Debug, Clone)]
pub struct LlmConfig {
    pub provider: String,
    pub model: String,
    pub max_tokens: u32,
    /// In thousandths.
    pub temperature: u32,
    /// In thousandths.
    pub top_p: u32,
    pub stream: bool,
    pub context_window: u32,
    pub system_prompt: String,
}

#[derive(Debug, Clone)]
pub struct VisionConfig {
    pub enabled: bool,
    pub model: String,
    pub input_resolution: [u32; 2],
    pub fps: u32,
    pub object_detection: bool,
    pub face_detection: bool,
    pub emotion_recognition: bool,
}

#[derive(Debug, Clone)]
pub struct CharacterConfig {
    pub enabled: bool,
    pub provider: String,
    pub avatar_url: String,
    pub animations: AnimationConfig,
    pub lip_sync: LipSyncConfig,
    pub facial_expressions: FacialExpressionConfig,
    pub rendering: RenderingConfig,
}

#[derive(Debug, Clone)]
pub struct AnimationConfig {
    pub idle: String,
    pub talking: String,
    pub listening: String,
    pub thinking: String,
}

#[derive(Debug, Clone)]
pub struct LipSyncConfig {
    pub enabled: bool,
    pub viseme_mapping: String,
    /// In thousandths.
    pub smoothing: u32,
    /// In thousandths.
    pub intensity: u32,
    pub real_time: bool,
}

#[derive(Debug, Clone)]
pub struct FacialExpressionConfig {
    pub enabled: bool,
    pub emotion_mapping: bool,
    /// Blinks per second, in thousandths.
    pub blink_rate: u32,
    pub eye_tracking: bool,
}

#[derive(Debug, Clone)]
pub struct RenderingConfig {
    pub quality: String,
    pub shadows: bool,
    pub lighting: String,
    pub anti_aliasing: bool,
    pub fps_target: u32,
}

#[derive(Debug, Clone)]
pub struct PerformanceConfig {
    pub hardware_acceleration: bool,
    pub gpu_rendering: bool,
    pub multi_threading: bool,
    pub memory_optimization: bool,
    pub low_latency_mode: bool,
    pub target_fps: u32,
    pub audio_buffer_size: u32,
    pub video_buffer_size: u32,
}

#[derive(Debug, Clone)]
pub struct MemoryConfig {
    pub enabled: bool,
    pub max_history: u32,
    pub context_retention: u32,
    pub save_conversations: bool,
    pub conversation_timeout: u32,
}

#[derive(Debug, Clone)]
pub struct LoggingConfig {
    pub level: String,
    pub file_logging: bool,
    pub console_logging: bool,
    pub log_file: String,
    pub max_file_size: String,
    pub max_files: u32,
}

#[derive(Debug, Clone)]
pub struct DevelopmentConfig {
    pub debug_mode: bool,
    pub hot_reload: bool,
    pub performance_monitoring: bool,
    pub error_reporting: bool,
    pub telemetry: bool,
}

/// Why the settings could not be made available.
#[derive(Debug, Clone, Copy, PartialEq, Eq, Structural)]
pub enum ConfigError {
    /// None of the expected locations holds a configuration file.
    NotFound,
    /// The configuration file could not be read.
    ReadFailed,
    /// The configuration file is not a valid description of the settings.
    ParseFailed,
    /// The settings were already set.
    AlreadyInitialized,
}

/// The number of locations in which the configuration file is looked for.
pub const SEARCH_PATH_COUNT: usize = 4;

/// The locations in which the configuration file is looked for, in the order
/// in which they are tried.
pub open spec fn search_paths() -> Seq<Seq<char>> {
    seq![
        "config/config.yaml"@,
        "../config/config.yaml"@,
        "src-tauri/config.yaml"@,
        "./config.yaml"@,
    ]
}

/// The locations in which the configuration file is looked for.
pub fn config_search_paths() -> (paths: Vec<String>)
    ensures
        string_views(paths@) == search_paths(),
{
    let mut paths: Vec<String> = Vec::new();
    paths.push("config/config.yaml".to_string());
    paths.push("../config/config.yaml".to_string());
    paths.push("src-tauri/config.yaml".to_string());
    paths.push("./config.yaml".to_string());
    assert(string_views(paths@) =~= search_paths());
    paths
}

impl AppConfig {
    /// Picks the configuration file to load. `exists[i]` tells whether the
    /// i-th search path exists; a missing entry counts as absent. The first
    /// path that exists is chosen; where none does, the result is `NotFound`.
    pub fn load_default(exists: &Vec<bool>) -> (choice: Result<usize, ConfigError>)
        ensures
            match choice {
                Ok(i) => {
                    &&& i < SEARCH_PATH_COUNT
                    &&& i < exists.len()
                    &&& exists[i as int]
                    &&& forall|j: int| 0 <= j < i ==> !exists[j]
                },
                Err(e) => {
                    &&& e == ConfigError::NotFound
                    &&& forall|j: int|
                        0 <= j < SEARCH_PATH_COUNT && j < exists.len() ==> !exists[j]
                },
            },
    {
        let mut i: usize = 0;
        while i < SEARCH_PATH_COUNT && i < exists.len()
            invariant
                i <= SEARCH_PATH_COUNT,
                i <= exists.len(),
                forall|j: int| 0 <= j < i ==> !exists[j],
            decreases SEARCH_PATH_COUNT - i,
        {
            if exists[i] {
                return Ok(i);
            }
            i += 1;
        }
        Err(ConfigError::NotFound)
    }
}

/// Calls `OnceCell::set`, which fills the cell if it is empty and hands the
/// value back if it is not. Which of the two happens depends on the cell, so
/// nothing is claimed of it; a value that comes back is the one handed in.
#[verifier::external_body]
fn cell_set(cell: &OnceCell<AppConfig>, value: AppConfig) -> (outcome: Result<(), AppConfig>)
    ensures
        outcome matches Err(back) ==> back == value,
{
    cell.set(value)
}

/// What `init_config` reports for each outcome of filling the cell.
pub fn set_outcome(outcome: Result<(), AppConfig>) -> (report: Result<(), ConfigError>)
    ensures
        outcome is Ok ==> report == Ok::<(), ConfigError>(()),
        outcome is Err ==> report == Err::<(), ConfigError>(ConfigError::AlreadyInitialized),
{
    match outcome {
        Ok(()) => Ok(()),
        Err(_) => Err(ConfigError::AlreadyInitialized),
    }
}

/// Makes the loaded settings the settings of the process. A failed load is
/// reported as it is and leaves the cell alone. Loaded settings are put into
/// the cell; where the cell already holds settings, it keeps them and the
/// result is `AlreadyInitialized`.
pub fn init_config(cell: &OnceCell<AppConfig>, loaded: Result<AppConfig, ConfigError>) -> (report:
    Result<(), ConfigError>)
    ensures
        loaded matches Err(e) ==> report == Err::<(), ConfigError>(e),
        loaded is Ok ==> report == Ok::<(), ConfigError>(()) || report == Err::<(), ConfigError>(
            ConfigError::AlreadyInitialized,
        ),
{
    match loaded {
        Err(e) => Err(e),
        Ok(config) => set_outcome(cell_set(cell, config)),
    }
}

} // verus!
