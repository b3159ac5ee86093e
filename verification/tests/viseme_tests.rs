use conversation_audio::viseme::phoneme_to_viseme;
use conversation_audio::viseme::Viseme;

fn all_have(labels: &[&str], pose: Viseme) {
    for label in labels {
        assert_eq!(phoneme_to_viseme(label), Some(pose), "{}", label);
    }
}

#[test]
fn silence_and_open_vowels_open_the_jaw() {
    all_have(
        &["sil", "aa", "ae", "ah", "ay", "eh", "ey", "g", "hh", "k", "ng"],
        Viseme::JawOpen,
    );
}

#[test]
fn rounded_sounds_funnel_the_mouth() {
    all_have(&["ao", "aw", "er", "ow", "oy", "r", "uh", "uw", "w"], Viseme::MouthFunnel);
}

#[test]
fn bilabial_stops_close_the_mouth() {
    all_have(&["p", "b", "m"], Viseme::MouthClose);
}

#[test]
fn sibilants_shrug_the_upper_lip() {
    all_have(&["s", "sh", "z", "zh", "ch", "jh"], Viseme::MouthShrugUpper);
}

#[test]
fn tongue_tip_sounds_show_the_tongue() {
    all_have(&["d", "dh", "l", "n", "t", "th"], Viseme::TongueOut);
}

#[test]
fn labiodentals_lower_the_lip() {
    all_have(&["f", "v"], Viseme::MouthLowerDownRight);
}

#[test]
fn close_front_vowels_smile() {
    all_have(&["ih", "iy", "y"], Viseme::MouthSmileLeft);
}

#[test]
fn the_table_holds_forty_labels() {
    let labels = [
        "sil", "aa", "ae", "ah", "ao", "aw", "ay", "b", "ch", "d", "dh", "eh", "er", "ey", "f",
        "g", "hh", "ih", "iy", "jh", "k", "l", "m", "n", "ng", "ow", "oy", "p", "r", "s", "sh",
        "t", "th", "uh", "uw", "v", "w", "y", "z", "zh",
    ];
    assert_eq!(labels.len(), 40);
    for label in labels {
        assert!(phoneme_to_viseme(label).is_some(), "{}", label);
    }
}

#[test]
fn labels_outside_the_table_have_no_pose() {
    for label in ["", "h", "i", "x", "q", "SIL", "Aa", "sil ", "zzz", "hello"] {
        assert_eq!(phoneme_to_viseme(label), None, "{:?}", label);
    }
}

#[test]
fn poses_have_their_animation_names() {
    assert_eq!(Viseme::JawOpen.name(), "jawOpen");
    assert_eq!(Viseme::MouthFunnel.name(), "mouthFunnel");
    assert_eq!(Viseme::MouthClose.name(), "mouthClose");
    assert_eq!(Viseme::MouthShrugUpper.name(), "mouthShrugUpper");
    assert_eq!(Viseme::TongueOut.name(), "tongueOut");
    assert_eq!(Viseme::MouthLowerDownRight.name(), "mouthLowerDownRight");
    assert_eq!(Viseme::MouthSmileLeft.name(), "mouthSmileLeft");
}
