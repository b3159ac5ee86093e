//! The data that flows through the pipeline: captured frames and viseme cues.

use vstd::prelude::*;

verus! {

/// Full scale of a 16-bit PCM sample.
pub const FULL_SCALE: u32 = 32768;

/// Full scale of a ratio given in thousandths.
pub const FULL_RATIO: u32 = 1000;

/// One chunk of raw audio, as captured or as destined for playback.
#[derive(Debug, Clone)]
pub struct AudioFrame {
    /// Signed 16-bit PCM samples, in order.
    pub data: Vec<i16>,
    /// Samples per second.
    pub sample_rate: u32,
    /// Number of interleaved channels.
    pub channels: u16,
    /// Capture time in milliseconds.
    pub timestamp: u64,
}

/// One facial-pose instruction, derived from one phoneme.
#[derive(Debug, Clone)]
pub struct VisemeData {
    /// The phoneme label the cue was derived from.
    pub phoneme: String,
    /// Start offset in milliseconds from the start of the utterance.
    pub timestamp: u64,
    /// Duration in milliseconds.
    pub duration: u64,
    /// Intensity in thousandths, 0 to 1000.
    pub intensity: u32,
}

/// What a viseme cue says, as mathematical values.
#[verifier::ext_equal]
pub ghost struct CueView {
    pub phoneme: Seq<char>,
    pub timestamp: nat,
    pub duration: nat,
    pub intensity: nat,
}

impl View for VisemeData {
    type V = CueView;

    open spec fn view(&self) -> CueView {
        CueView {
            phoneme: self.phoneme@,
            timestamp: self.timestamp as nat,
            duration: self.duration as nat,
            intensity: self.intensity as nat,
        }
    }
}

/// The views of a sequence of cues, in the same order.
pub open spec fn cue_views(cues: Seq<VisemeData>) -> Seq<CueView> {
    Seq::new(cues.len(), |i: int| cues[i]@)
}

impl VisemeData {
    /// A second cue that says the same.
    pub fn duplicate(&self) -> (copy: VisemeData)
        ensures
            copy@ == self@,
    {
        VisemeData {
            phoneme: self.phoneme.clone(),
            timestamp: self.timestamp,
            duration: self.duration,
            intensity: self.intensity,
        }
    }
}

/// A second list of cues that says the same, in the same order.
pub fn duplicate_cues(cues: &Vec<VisemeData>) -> (copy: Vec<VisemeData>)
    ensures
        cue_views(copy@) == cue_views(cues@),
{
    let mut copy: Vec<VisemeData> = Vec::new();
    let mut i: usize = 0;
    while i < cues.len()
        invariant
            i <= cues.len(),
            copy@.len() == i,
            forall|k: int| 0 <= k < i ==> copy@[k]@ == cues@[k]@,
        decreases cues.len() - i,
    {
        copy.push(cues[i].duplicate());
        i += 1;
    }
    assert(cue_views(copy@) =~= cue_views(cues@));
    copy
}

} // verus!
