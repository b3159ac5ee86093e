use conversation_audio::mode::ProcessingMode;
use conversation_audio::mode::can_transition;

const IDLE: ProcessingMode = ProcessingMode::Idle;
const LISTENING: ProcessingMode = ProcessingMode::Listening;
const SPEAKING: ProcessingMode = ProcessingMode::Speaking;

#[test]
fn idle_goes_to_listening_only() {
    assert!(can_transition(ProcessingMode::Idle, ProcessingMode::Listening));
    assert!(!can_transition(ProcessingMode::Idle, ProcessingMode::Speaking));
    assert!(can_transition(ProcessingMode::Idle, ProcessingMode::Idle));
}

#[test]
fn the_mode_graph_has_six_edges() {
    let modes = [IDLE, LISTENING, SPEAKING];
    let mut edges = Vec::new();
    for from in modes {
        for to in modes {
            if can_transition(from, to) {
                edges.push((from, to));
            }
        }
    }
    assert_eq!(
        edges,
        vec![
            (IDLE, IDLE),
            (IDLE, LISTENING),
            (LISTENING, IDLE),
            (LISTENING, SPEAKING),
            (SPEAKING, IDLE),
            (SPEAKING, LISTENING),
        ]
    );
}
