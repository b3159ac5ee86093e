//! What the application shell answers to the commands of the front end, and
//! where it puts the side panel.

use vstd::prelude::*;
use vstd::string::StringExecFns;

verus! {

/// Whether the audio system was initialized.
#[derive(Debug, Default)]
pub struct AudioState {
    initialized: bool,
}

/// Whether the side panel is shown.
#[derive(Debug, Default)]
pub struct SidepanelState {
    shown: bool,
}

impl View for AudioState {
    type V = bool;

    closed spec fn view(&self) -> bool {
        self.initialized
    }
}

impl View for SidepanelState {
    type V = bool;

    closed spec fn view(&self) -> bool {
        self.shown
    }
}

impl AudioState {
    /// A state that holds the given value.
    pub fn new(value: bool) -> (state: AudioState)
        ensures
            state@ == value,
    {
        AudioState { initialized: value }
    }

    /// Tells whether the audio system was initialized.
    pub fn get(&self) -> (value: bool)
        ensures
            value == self@,
    {
        self.initialized
    }
}

impl SidepanelState {
    /// A state that holds the given value.
    pub fn new(value: bool) -> (state: SidepanelState)
        ensures
            state@ == value,
    {
        SidepanelState { shown: value }
    }

    /// Tells whether the side panel is shown.
    pub fn get(&self) -> (value: bool)
        ensures
            value == self@,
    {
        self.shown
    }
}

/// What a command is refused with before the audio system is initialized.
pub open spec fn not_initialized() -> Seq<char> {
    "Audio system not initialized"@
}

/// The greeting for a name.
pub fn greet(name: &str) -> (greeting: String)
    ensures
        greeting@ == "Hello, "@ + name@ + "! You've been greeted from Rust!"@,
{
    let mut greeting = String::from_str("Hello, ");
    greeting.append(name);
    greeting.append("! You've been greeted from Rust!");
    greeting
}

/// Marks the audio system as initialized and says so.
pub fn initialize_audio_system(state: &mut AudioState) -> (reply: Result<String, String>)
    ensures
        final(state)@,
        reply matches Ok(text) && text@ == "Audio system initialized successfully"@,
{
    state.initialized = true;
    Ok("Audio system initialized successfully".to_string())
}

/// Answers a command that has a fixed reply: the reply where the audio
/// system is initialized, the refusal where it is not.
fn answer(state: &AudioState, reply: &str) -> (answer: Result<String, String>)
    ensures
        state@ ==> (answer matches Ok(text) && text@ == reply@),
        !state@ ==> (answer matches Err(text) && text@ == not_initialized()),
{
    if state.initialized {
        Ok(reply.to_string())
    } else {
        Err("Audio system not initialized".to_string())
    }
}

/// Answers a command whose reply names a text.
fn answer_with(state: &AudioState, prefix: &str, text: &str) -> (answer: Result<String, String>)
    ensures
        state@ ==> (answer matches Ok(reply) && reply@ == prefix@ + text@),
        !state@ ==> (answer matches Err(reply) && reply@ == not_initialized()),
{
    if state.initialized {
        let mut reply = String::from_str(prefix);
        reply.append(text);
        Ok(reply)
    } else {
        Err("Audio system not initialized".to_string())
    }
}

/// The answer to the command to start listening.
pub fn start_listening(state: &AudioState) -> (answer: Result<String, String>)
    ensures
        state@ ==> (answer matches Ok(text) && text@ == "Started listening"@),
        !state@ ==> (answer matches Err(text) && text@ == not_initialized()),
{
    answer(state, "Started listening")
}

/// The answer to the command to stop listening.
pub fn stop_listening(state: &AudioState) -> (answer: Result<String, String>)
    ensures
        state@ ==> (answer matches Ok(text) && text@ == "Stopped listening"@),
        !state@ ==> (answer matches Err(text) && text@ == not_initialized()),
{
    answer(state, "Stopped listening")
}

/// The answer to the command to start speaking a text.
pub fn start_speaking(text: &str, state: &AudioState) -> (answer: Result<String, String>)
    ensures
        state@ ==> (answer matches Ok(reply) && reply@ == "Started speaking: "@ + text@),
        !state@ ==> (answer matches Err(reply) && reply@ == not_initialized()),
{
    answer_with(state, "Started speaking: ", text)
}

/// The answer to the command to stop speaking.
pub fn stop_speaking(state: &AudioState) -> (answer: Result<String, String>)
    ensures
        state@ ==> (answer matches Ok(text) && text@ == "Stopped speaking"@),
        !state@ ==> (answer matches Err(text) && text@ == not_initialized()),
{
    answer(state, "Stopped speaking")
}

/// The answer to the command to synthesize a text.
pub fn synthesize_speech(text: &str, state: &AudioState) -> (answer: Result<String, String>)
    ensures
        state@ ==> (answer matches Ok(reply) && reply@ == "Synthesized speech for: "@ + text@),
        !state@ ==> (answer matches Err(reply) && reply@ == not_initialized()),
{
    answer_with(state, "Synthesized speech for: ", text)
}

/// The answer to the command to change the character's emotion: the emotion
/// is announced where the main window exists to take it.
pub fn change_character_emotion(emotion: &str, main_window_found: bool) -> (answer: Result<
    String,
    String,
>)
    ensures
        main_window_found ==> (answer matches Ok(reply) && reply@ == "Emotion changed to: "@
            + emotion@),
        !main_window_found ==> (answer matches Err(reply) && reply@ == "Main window not found"@),
{
    if main_window_found {
        let mut reply = String::from_str("Emotion changed to: ");
        reply.append(emotion);
        Ok(reply)
    } else {
        Err("Main window not found".to_string())
    }
}

/// A monitor, as far as the placing of windows needs to know it.
#[derive(Debug, Clone)]
pub struct MonitorInfo {
    pub name: Option<String>,
    /// The position of the monitor's top left corner.
    pub x: i32,
    pub y: i32,
    /// The size of the monitor.
    pub width: u32,
    pub height: u32,
}

/// How far from the right edge of a monitor the side panel starts.
pub const PANEL_OFFSET_RIGHT: i64 = 400;

/// How far from the top edge of a monitor the side panel starts.
pub const PANEL_OFFSET_TOP: i64 = 100;

/// Two monitor names are the same: both are missing, or both are there and
/// read the same.
pub open spec fn same_name(left: Option<String>, right: Option<String>) -> bool {
    match (left, right) {
        (Some(a), Some(b)) => a@ == b@,
        (None, None) => true,
        _ => false,
    }
}

/// The value within the range of `i32` that is nearest to `value`.
pub open spec fn clamped(value: int) -> int {
    if value < i32::MIN {
        i32::MIN as int
    } else if value > i32::MAX {
        i32::MAX as int
    } else {
        value
    }
}

/// Where the side panel goes on a monitor: 400 to the left of its right
/// edge and 100 below its top edge, kept within the range of `i32`.
pub open spec fn panel_place(monitor: MonitorInfo) -> (int, int) {
    (
        clamped(monitor.x + monitor.width - PANEL_OFFSET_RIGHT),
        clamped(monitor.y + PANEL_OFFSET_TOP),
    )
}

/// The first monitor at or after `from` whose name differs from the given
/// one, if there is one.
pub open spec fn first_other(monitors: Seq<MonitorInfo>, name: Option<String>, from: int) -> Option<
    int,
>
    decreases monitors.len() - from,
{
    if from < 0 || from >= monitors.len() {
        None
    } else if !same_name(monitors[from].name, name) {
        Some(from)
    } else {
        first_other(monitors, name, from + 1)
    }
}

/// Where the side panel is moved to, if it is moved: with more than one
/// monitor and a known monitor of the main window, onto the first monitor
/// whose name differs from that of the main window's monitor.
pub open spec fn panel_position(monitors: Seq<MonitorInfo>, main: Option<MonitorInfo>) -> Option<
    (int, int),
> {
    match main {
        Some(main_monitor) => if monitors.len() > 1 {
            match first_other(monitors, main_monitor.name, 0) {
                Some(i) => Some(panel_place(monitors[i])),
                None => None,
            }
        } else {
            None
        },
        None => None,
    }
}

/// Tells whether two monitor names are the same.
fn names_equal(left: &Option<String>, right: &Option<String>) -> (same: bool)
    ensures
        same == same_name(*left, *right),
{
    match (left, right) {
        (Some(a), Some(b)) => a.as_str().eq(b.as_str()),
        (None, None) => true,
        _ => false,
    }
}

/// Brings a coordinate into the range of `i32`.
fn clamp(value: i64) -> (kept: i32)
    ensures
        kept == clamped(value as int),
{
    if value < i32::MIN as i64 {
        i32::MIN
    } else if value > i32::MAX as i64 {
        i32::MAX
    } else {
        value as i32
    }
}

/// Decides where the side panel is moved to before it is shown. `main` is
/// the monitor of the main window, where it is known.
pub fn sidepanel_position(monitors: &Vec<MonitorInfo>, main: Option<&MonitorInfo>) -> (position:
    Option<(i32, i32)>)
    ensures
        match position {
            Some((x, y)) => panel_position(
                monitors@,
                match main {
                    Some(m) => Some(*m),
                    None => None,
                },
            ) == Some((x as int, y as int)),
            None => panel_position(
                monitors@,
                match main {
                    Some(m) => Some(*m),
                    None => None,
                },
            ) is None,
        },
{
    let main_monitor = match main {
        Some(monitor) => monitor,
        None => {
            return None;
        },
    };
    if monitors.len() <= 1 {
        return None;
    }
    let mut i: usize = 0;
    while i < monitors.len()
        invariant
            i <= monitors.len(),
            monitors.len() > 1,
            main == Some(main_monitor),
            first_other(monitors@, main_monitor.name, 0) == first_other(
                monitors@,
                main_monitor.name,
                i as int,
            ),
        decreases monitors.len() - i,
    {
        let monitor = &monitors[i];
        if !names_equal(&monitor.name, &main_monitor.name) {
            let x = clamp(monitor.x as i64 + monitor.width as i64 - PANEL_OFFSET_RIGHT);
            let y = clamp(monitor.y as i64 + PANEL_OFFSET_TOP);
            return Some((x, y));
        }
        i += 1;
    }
    None
}

/// Marks the side panel as shown and says so.
pub fn show_sidepanel(state: &mut SidepanelState) -> (reply: Result<String, String>)
    ensures
        final(state)@,
        reply matches Ok(text) && text@ == "Sidepanel shown and focused"@,
{
    state.shown = true;
    Ok("Sidepanel shown and focused".to_string())
}

} // verus!
