//! The operating mode of the pipeline and the edges between modes.

use vstd::prelude::*;

verus! {

/// What the pipeline is doing at the moment.
#[derive(Debug, Clone, Copy, PartialEq, Eq, Structural)]
pub enum ProcessingMode {
    Listening,
    Speaking,
    Idle,
}

/// The edges of the mode graph: `Idle -> Listening`, `Listening -> Speaking`,
/// `Speaking -> Listening`, and from every mode to `Idle`.
pub open spec fn allowed_edge(from: ProcessingMode, to: ProcessingMode) -> bool {
    ||| to == ProcessingMode::Idle
    ||| (from == ProcessingMode::Idle && to == ProcessingMode::Listening)
    ||| (from == ProcessingMode::Listening && to == ProcessingMode::Speaking)
    ||| (from == ProcessingMode::Speaking && to == ProcessingMode::Listening)
}

/// Tells whether the pipeline may go from `from` to `to`.
pub fn can_transition(from: ProcessingMode, to: ProcessingMode) -> (allowed: bool)
    ensures
        allowed == allowed_edge(from, to),
{
    match (from, to) {
        (_, ProcessingMode::Idle) => true,
        (ProcessingMode::Idle, ProcessingMode::Listening) => true,
        (ProcessingMode::Listening, ProcessingMode::Speaking) => true,
        (ProcessingMode::Speaking, ProcessingMode::Listening) => true,
        _ => false,
    }
}

/// The mode graph has six edges: from every mode to `Idle`, from `Idle` to
/// `Listening`, and between `Listening` and `Speaking` in both directions.
/// It has no edge from `Idle` to `Speaking`, and none from `Listening` or
/// from `Speaking` to itself.
pub proof fn lemma_edges_of_the_graph()
    ensures
        forall|from: ProcessingMode| allowed_edge(from, ProcessingMode::Idle),
        allowed_edge(ProcessingMode::Idle, ProcessingMode::Listening),
        allowed_edge(ProcessingMode::Listening, ProcessingMode::Speaking),
        allowed_edge(ProcessingMode::Speaking, ProcessingMode::Listening),
        !allowed_edge(ProcessingMode::Idle, ProcessingMode::Speaking),
        !allowed_edge(ProcessingMode::Listening, ProcessingMode::Listening),
        !allowed_edge(ProcessingMode::Speaking, ProcessingMode::Speaking),
{
}

/// `Speaking` is entered from `Listening` only.
pub proof fn lemma_speaking_follows_listening(from: ProcessingMode)
    requires
        allowed_edge(from, ProcessingMode::Speaking),
    ensures
        from == ProcessingMode::Listening,
{
}

} // verus!
