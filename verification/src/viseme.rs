//! The facial poses and the table that assigns one to each phoneme.

use vstd::prelude::*;

verus! {

/// The closed vocabulary of facial poses.
#[derive(Debug, Clone, Copy, PartialEq, Eq, Structural)]
pub enum Viseme {
    JawOpen,
    MouthFunnel,
    MouthClose,
    MouthShrugUpper,
    TongueOut,
    MouthLowerDownRight,
    MouthSmileLeft,
}

/// Silence, the open vowels and the sounds made at the back of the mouth.
pub open spec fn opens_jaw(label: Seq<char>) -> bool {
    ||| label == "sil"@
    ||| label == "aa"@
    ||| label == "ae"@
    ||| label == "ah"@
    ||| label == "ay"@
    ||| label == "eh"@
    ||| label == "ey"@
    ||| label == "g"@
    ||| label == "hh"@
    ||| label == "k"@
    ||| label == "ng"@
}

/// The rounded vowels and glides.
pub open spec fn funnels_mouth(label: Seq<char>) -> bool {
    ||| label == "ao"@
    ||| label == "aw"@
    ||| label == "er"@
    ||| label == "ow"@
    ||| label == "oy"@
    ||| label == "r"@
    ||| label == "uh"@
    ||| label == "uw"@
    ||| label == "w"@
}

/// The bilabial stops.
pub open spec fn closes_mouth(label: Seq<char>) -> bool {
    ||| label == "b"@
    ||| label == "m"@
    ||| label == "p"@
}

/// The sibilants and affricates.
pub open spec fn shrugs_upper(label: Seq<char>) -> bool {
    ||| label == "ch"@
    ||| label == "jh"@
    ||| label == "s"@
    ||| label == "sh"@
    ||| label == "z"@
    ||| label == "zh"@
}

/// The sounds made with the tip of the tongue.
pub open spec fn shows_tongue(label: Seq<char>) -> bool {
    ||| label == "d"@
    ||| label == "dh"@
    ||| label == "l"@
    ||| label == "n"@
    ||| label == "t"@
    ||| label == "th"@
}

/// The labiodental fricatives.
pub open spec fn lowers_lip(label: Seq<char>) -> bool {
    ||| label == "f"@
    ||| label == "v"@
}

/// The close front vowels and the palatal glide.
pub open spec fn smiles(label: Seq<char>) -> bool {
    ||| label == "ih"@
    ||| label == "iy"@
    ||| label == "y"@
}

/// The pose of a phoneme label. A label that the table does not hold has none.
pub open spec fn viseme_for(label: Seq<char>) -> Option<Viseme> {
    if opens_jaw(label) {
        Some(Viseme::JawOpen)
    } else if funnels_mouth(label) {
        Some(Viseme::MouthFunnel)
    } else if closes_mouth(label) {
        Some(Viseme::MouthClose)
    } else if shrugs_upper(label) {
        Some(Viseme::MouthShrugUpper)
    } else if shows_tongue(label) {
        Some(Viseme::TongueOut)
    } else if lowers_lip(label) {
        Some(Viseme::MouthLowerDownRight)
    } else if smiles(label) {
        Some(Viseme::MouthSmileLeft)
    } else {
        None
    }
}

/// The name under which each pose is known to the animation layer.
pub open spec fn pose_name(pose: Viseme) -> Seq<char> {
    match pose {
        Viseme::JawOpen => "jawOpen"@,
        Viseme::MouthFunnel => "mouthFunnel"@,
        Viseme::MouthClose => "mouthClose"@,
        Viseme::MouthShrugUpper => "mouthShrugUpper"@,
        Viseme::TongueOut => "tongueOut"@,
        Viseme::MouthLowerDownRight => "mouthLowerDownRight"@,
        Viseme::MouthSmileLeft => "mouthSmileLeft"@,
    }
}

impl Viseme {
    /// The name under which the pose is known to the animation layer.
    pub fn name(&self) -> (text: String)
        ensures
            text@ == pose_name(*self),
    {
        match self {
            Viseme::JawOpen => "jawOpen".to_string(),
            Viseme::MouthFunnel => "mouthFunnel".to_string(),
            Viseme::MouthClose => "mouthClose".to_string(),
            Viseme::MouthShrugUpper => "mouthShrugUpper".to_string(),
            Viseme::TongueOut => "tongueOut".to_string(),
            Viseme::MouthLowerDownRight => "mouthLowerDownRight".to_string(),
            Viseme::MouthSmileLeft => "mouthSmileLeft".to_string(),
        }
    }
}

/// Looks a phoneme label up in the table of poses.
pub fn phoneme_to_viseme(label: &str) -> (pose: Option<Viseme>)
    ensures
        pose == viseme_for(label@),
{
    if label.eq("sil") || label.eq("aa") || label.eq("ae") || label.eq("ah") || label.eq("ay")
        || label.eq("eh") || label.eq("ey") || label.eq("g") || label.eq("hh") || label.eq("k")
        || label.eq("ng") {
        Some(Viseme::JawOpen)
    } else if label.eq("ao") || label.eq("aw") || label.eq("er") || label.eq("ow") || label.eq(
        "oy",
    ) || label.eq("r") || label.eq("uh") || label.eq("uw") || label.eq("w") {
        Some(Viseme::MouthFunnel)
    } else if label.eq("b") || label.eq("m") || label.eq("p") {
        Some(Viseme::MouthClose)
    } else if label.eq("ch") || label.eq("jh") || label.eq("s") || label.eq("sh") || label.eq("z")
        || label.eq("zh") {
        Some(Viseme::MouthShrugUpper)
    } else if label.eq("d") || label.eq("dh") || label.eq("l") || label.eq("n") || label.eq("t")
        || label.eq("th") {
        Some(Viseme::TongueOut)
    } else if label.eq("f") || label.eq("v") {
        Some(Viseme::MouthLowerDownRight)
    } else if label.eq("ih") || label.eq("iy") || label.eq("y") {
        Some(Viseme::MouthSmileLeft)
    } else {
        None
    }
}

} // verus!
