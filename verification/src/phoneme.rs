//! From text to phonemes on a timeline, and from phonemes to viseme cues.

use vstd::prelude::*;

use crate::error::AudioError;
use crate::frame::cue_views;
use crate::frame::CueView;
use crate::frame::VisemeData;
use crate::frame::FULL_RATIO;
use crate::text::lowercase;
use crate::text::split_words;
use crate::text::string_views;
use crate::text::words;
use crate::viseme::phoneme_to_viseme;
use crate::viseme::viseme_for;

verus! {

/// How long every phoneme of a word lasts, in milliseconds.
pub const PHONEME_MS: u64 = 100;

/// How long the silence between two words lasts, in milliseconds.
pub const SILENCE_MS: u64 = 50;

/// One phoneme on the timeline of an utterance.
#[derive(Debug, Clone)]
pub struct Phoneme {
    pub label: String,
    /// Start offset in milliseconds.
    pub start: u64,
    /// Duration in milliseconds.
    pub duration: u64,
}

/// What a phoneme says, as mathematical values.
#[verifier::ext_equal]
pub ghost struct PhonemeView {
    pub label: Seq<char>,
    pub start: nat,
    pub duration: nat,
}

impl View for Phoneme {
    type V = PhonemeView;

    open spec fn view(&self) -> PhonemeView {
        PhonemeView {
            label: self.label@,
            start: self.start as nat,
            duration: self.duration as nat,
        }
    }
}

/// The views of a sequence of phonemes, in the same order.
pub open spec fn phoneme_views(phonemes: Seq<Phoneme>) -> Seq<PhonemeView> {
    Seq::new(phonemes.len(), |i: int| phonemes[i]@)
}

/// The phonemes of the words that the dictionary knows, by lower-case form.
pub open spec fn known_word(lowered: Seq<char>) -> Option<Seq<Seq<char>>> {
    if lowered == "hello"@ {
        Some(seq!["hh"@, "eh"@, "l"@, "ow"@])
    } else if lowered == "world"@ {
        Some(seq!["w"@, "er"@, "l"@, "d"@])
    } else if lowered == "how"@ {
        Some(seq!["hh"@, "aw"@])
    } else if lowered == "are"@ {
        Some(seq!["aa"@, "r"@])
    } else if lowered == "you"@ {
        Some(seq!["y"@, "uw"@])
    } else {
        None
    }
}

/// One phoneme per character, each labelled by that character.
pub open spec fn spelled(word: Seq<char>) -> Seq<Seq<char>> {
    Seq::new(word.len(), |i: int| seq![word[i]])
}

/// The phoneme labels of a word whose lower-case form is `lowered`: those of
/// the dictionary where it knows the word, else the word spelled out as it
/// was written.
pub open spec fn word_phonemes(word: Seq<char>, lowered: Seq<char>) -> Seq<Seq<char>> {
    match known_word(lowered) {
        Some(labels) => labels,
        None => spelled(word),
    }
}

/// The phoneme labels of a word.
pub open spec fn expansion(word: Seq<char>) -> Seq<Seq<char>> {
    word_phonemes(word, lowercase(word))
}

/// The phoneme labels of each word of a list.
pub open spec fn expansions(list: Seq<Seq<char>>) -> Seq<Seq<Seq<char>>> {
    Seq::new(list.len(), |i: int| expansion(list[i]))
}

/// The silence that stands before a word: 50 ms where words came earlier,
/// none before the first word.
pub open spec fn gap(earlier: nat) -> nat {
    if earlier > 0 {
        SILENCE_MS as nat
    } else {
        0
    }
}

/// The number of silence phonemes that stand before a word: one where words
/// came earlier, none before the first word.
pub open spec fn lead(earlier: nat) -> nat {
    if earlier > 0 {
        1
    } else {
        0
    }
}

/// The time that a word with these phonemes adds after `earlier` words: the
/// silence between it and the word before it, and its phonemes.
pub open spec fn word_span(labels: Seq<Seq<char>>, earlier: nat) -> nat {
    gap(earlier) + labels.len() * (PHONEME_MS as nat)
}

/// The time that a sequence of words takes, each given by its phonemes.
pub open spec fn span(list: Seq<Seq<Seq<char>>>) -> nat
    decreases list.len(),
{
    if list.len() == 0 {
        0
    } else {
        span(list.drop_last()) + word_span(list.last(), list.drop_last().len())
    }
}

/// What a word adds to the timeline after `earlier` words, from `origin` on:
/// the silence between it and the word before it, where there is one, and
/// then its phonemes.
pub open spec fn word_track(labels: Seq<Seq<char>>, origin: nat, earlier: nat) -> Seq<
    PhonemeView,
> {
    Seq::new(
        lead(earlier) + labels.len(),
        |i: int|
            if i < lead(earlier) {
                PhonemeView { label: "sil"@, start: origin, duration: SILENCE_MS as nat }
            } else {
                PhonemeView {
                    label: labels[i - lead(earlier)],
                    start: origin + gap(earlier) + ((i - lead(earlier)) as nat) * (
                    PHONEME_MS as nat),
                    duration: PHONEME_MS as nat,
                }
            },
    )
}

/// The phonemes of a sequence of words, each given by its phonemes: every
/// phoneme of a word lasts 100 ms, a silence of 50 ms stands between each
/// word and the next, and each phoneme starts where the one before it ended.
/// No silence stands before the first word or after the last.
pub open spec fn track(list: Seq<Seq<Seq<char>>>) -> Seq<PhonemeView>
    decreases list.len(),
{
    if list.len() == 0 {
        Seq::empty()
    } else {
        track(list.drop_last()) + word_track(
            list.last(),
            span(list.drop_last()),
            list.drop_last().len(),
        )
    }
}

/// The phonemes of a text: those of its words.
pub open spec fn timeline(text: Seq<char>) -> Seq<PhonemeView> {
    track(expansions(words(text)))
}

/// The number of phonemes of the words of a list, without the silences.
pub open spec fn label_count(list: Seq<Seq<Seq<char>>>) -> nat
    decreases list.len(),
{
    if list.len() == 0 {
        0
    } else {
        label_count(list.drop_last()) + list.last().len()
    }
}

/// The views of the phoneme labels of each word, in the same order.
pub open spec fn label_views(list: Seq<Vec<String>>) -> Seq<Seq<Seq<char>>> {
    Seq::new(list.len(), |i: int| string_views(list[i]@))
}

/// The phonemes of a word whose lower-case form is given.
pub fn phonemes_for(word: &str, lowered: &str) -> (labels: Vec<String>)
    ensures
        string_views(labels@) == word_phonemes(word@, lowered@),
{
    let mut labels: Vec<String> = Vec::new();
    if lowered.eq("hello") {
        labels.push("hh".to_string());
        labels.push("eh".to_string());
        labels.push("l".to_string());
        labels.push("ow".to_string());
    } else if lowered.eq("world") {
        labels.push("w".to_string());
        labels.push("er".to_string());
        labels.push("l".to_string());
        labels.push("d".to_string());
    } else if lowered.eq("how") {
        labels.push("hh".to_string());
        labels.push("aw".to_string());
    } else if lowered.eq("are") {
        labels.push("aa".to_string());
        labels.push("r".to_string());
    } else if lowered.eq("you") {
        labels.push("y".to_string());
        labels.push("uw".to_string());
    } else {
        for c in it: word.chars()
            invariant
                it.seq() == word@,
                labels@.len() == it.index(),
                string_views(labels@) == spelled(word@.take(it.index() as int)),
        {
            let ghost i = it.index() as int;
            assert(c == word@[i]);
            let ghost before = string_views(labels@);
            let mut label = String::new();
            label.push(c);
            assert(label@ =~= seq![c]);
            labels.push(label);
            assert forall|k: int| 0 <= k < i + 1 implies string_views(labels@)[k] == spelled(
                word@.take(i + 1),
            )[k] by {
                if k < i {
                    assert(before[k] == spelled(word@.take(i))[k]);
                }
            }
            assert(string_views(labels@) =~= spelled(word@.take(i + 1)));
        }
        assert(word@.take(word@.len() as int) =~= word@);
    }
    assert(string_views(labels@) =~= word_phonemes(word@, lowered@));
    labels
}

/// The phonemes of a word.
pub fn word_to_phonemes(word: &str) -> (labels: Vec<String>)
    ensures
        string_views(labels@) == expansion(word@),
{
    let lowered = word.to_lowercase();
    phonemes_for(word, lowered.as_str())
}

/// A prefix of a list of words takes no longer than the whole list.
pub proof fn lemma_span_prefix(list: Seq<Seq<Seq<char>>>, k: int)
    requires
        0 <= k <= list.len(),
    ensures
        span(list.take(k)) <= span(list),
    decreases list.len() - k,
{
    if k < list.len() {
        assert(list.take(k + 1).drop_last() =~= list.take(k));
        lemma_span_prefix(list, k + 1);
    } else {
        assert(list.take(k) =~= list);
    }
}

/// Puts the phonemes of a sequence of words on a timeline: every word gives
/// its phonemes, 100 ms each, a silence of 50 ms stands between each word
/// and the next, and each phoneme starts where the one before it ended.
/// Fails with `SynthesisFailure` only where the timeline does not fit into
/// 64 bits of milliseconds.
pub fn lay_out(list: &Vec<Vec<String>>) -> (outcome: Result<Vec<Phoneme>, AudioError>)
    ensures
        match outcome {
            Ok(phonemes) => {
                &&& span(label_views(list@)) <= u64::MAX
                &&& phoneme_views(phonemes@) == track(label_views(list@))
            },
            Err(e) => e == AudioError::SynthesisFailure && span(label_views(list@)) > u64::MAX,
        },
{
    let ghost all = label_views(list@);
    let mut phonemes: Vec<Phoneme> = Vec::new();
    let mut now: u64 = 0;
    let mut w: usize = 0;
    assert(phoneme_views(phonemes@) =~= track(all.take(0)));
    while w < list.len()
        invariant
            w <= list.len(),
            all == label_views(list@),
            now == span(all.take(w as int)),
            phoneme_views(phonemes@) == track(all.take(w as int)),
        decreases list.len() - w,
    {
        let labels = &list[w];
        let ghost word = all[w as int];
        let ghost origin = now as nat;
        let ghost earlier = w as nat;
        let ghost before = phoneme_views(phonemes@);
        let ghost own = word_track(word, origin, earlier);
        let count = labels.len();
        let pause: u64 = if w > 0 {
            SILENCE_MS
        } else {
            0
        };
        proof {
            assert(word == string_views(labels@));
            assert(all.take(w + 1).drop_last() =~= all.take(w as int));
            assert(all.take(w + 1).last() == word);
            assert(all.take(w as int).len() == earlier);
            assert(pause == gap(earlier));
        }
        let end = match (count as u64).checked_mul(PHONEME_MS) {
            Some(sounds) => match sounds.checked_add(pause) {
                Some(whole) => now.checked_add(whole),
                None => None,
            },
            None => None,
        };
        match end {
            None => {
                proof {
                    lemma_span_prefix(all, w + 1);
                }
                return Err(AudioError::SynthesisFailure);
            },
            Some(end) => {
                if w > 0 {
                    phonemes.push(
                        Phoneme { label: "sil".to_string(), start: now, duration: SILENCE_MS },
                    );
                    assert(phoneme_views(phonemes@) =~= before.push(own[0]));
                }
                let first = now + pause;
                let mut k: usize = 0;
                assert(phoneme_views(phonemes@) =~= before + own.take(lead(earlier) as int));
                while k < count
                    invariant
                        k <= count,
                        count == labels.len(),
                        string_views(labels@) == word,
                        own == word_track(word, origin, earlier),
                        origin == now,
                        first == now + gap(earlier),
                        first + count * PHONEME_MS == end,
                        phoneme_views(phonemes@) == before + own.take(lead(earlier) + k),
                    decreases count - k,
                {
                    let ghost sofar = phoneme_views(phonemes@);
                    let start = first + (k as u64) * PHONEME_MS;
                    let label = labels[k].clone();
                    proof {
                        assert(label@ == string_views(labels@)[k as int]);
                    }
                    phonemes.push(Phoneme { label, start, duration: PHONEME_MS });
                    k += 1;
                    assert(phoneme_views(phonemes@) =~= sofar.push(own[lead(earlier) + k - 1]));
                    assert(phoneme_views(phonemes@) =~= before + own.take(lead(earlier) + k));
                }
                proof {
                    assert(own.take(lead(earlier) + count) =~= own);
                }
                now = end;
            },
        }
        w += 1;
    }
    assert(all.take(list.len() as int) =~= all);
    Ok(phonemes)
}

/// The phonemes of each word of a list.
pub fn expand_words(list: &Vec<String>) -> (expanded: Vec<Vec<String>>)
    ensures
        label_views(expanded@) == expansions(string_views(list@)),
{
    let mut expanded: Vec<Vec<String>> = Vec::new();
    let mut i: usize = 0;
    while i < list.len()
        invariant
            i <= list.len(),
            expanded@.len() == i,
            forall|k: int|
                0 <= k < i ==> string_views((#[trigger] expanded@[k])@) == expansion(list@[k]@),
        decreases list.len() - i,
    {
        expanded.push(word_to_phonemes(list[i].as_str()));
        i += 1;
    }
    assert(label_views(expanded@) =~= expansions(string_views(list@)));
    expanded
}

/// Puts the phonemes of a text on a timeline: the text is split into its
/// words, every word gives its phonemes, a silence stands between each word
/// and the next, and each phoneme starts where the one before it ended. No
/// silence follows the last word. Fails with
/// `SynthesisFailure` only where the timeline does not fit into 64 bits of
/// milliseconds.
pub fn text_to_phonemes(text: &str) -> (outcome: Result<Vec<Phoneme>, AudioError>)
    ensures
        match outcome {
            Ok(phonemes) => {
                &&& timeline_span(text@) <= u64::MAX
                &&& phoneme_views(phonemes@) == timeline(text@)
            },
            Err(e) => e == AudioError::SynthesisFailure && timeline_span(text@) > u64::MAX,
        },
{
    let list = split_words(text);
    let expanded = expand_words(&list);
    lay_out(&expanded)
}

/// The time that the phonemes of a text take.
pub open spec fn timeline_span(text: Seq<char>) -> nat {
    span(expansions(words(text)))
}

/// The cue of a phoneme, at full intensity, if the table of poses holds the
/// phoneme's label; none otherwise.
pub open spec fn cue_for(phoneme: PhonemeView) -> Option<CueView> {
    if viseme_for(phoneme.label) is Some {
        Some(
            CueView {
                phoneme: phoneme.label,
                timestamp: phoneme.start,
                duration: phoneme.duration,
                intensity: FULL_RATIO as nat,
            },
        )
    } else {
        None
    }
}

/// The cues of a sequence of phonemes: one for each phoneme that the table
/// of poses holds, in the order of the phonemes. The others give none.
pub open spec fn visemes_of(phonemes: Seq<PhonemeView>) -> Seq<CueView> {
    phonemes.filter_map(|p: PhonemeView| cue_for(p))
}

/// Derives the viseme cues of a phoneme sequence.
pub fn generate_visemes(phonemes: &Vec<Phoneme>) -> (cues: Vec<VisemeData>)
    ensures
        cue_views(cues@) == visemes_of(phoneme_views(phonemes@)),
{
    let ghost all = phoneme_views(phonemes@);
    let mut cues: Vec<VisemeData> = Vec::new();
    let mut i: usize = 0;
    assert(cue_views(cues@) =~= visemes_of(all.take(0)));
    while i < phonemes.len()
        invariant
            i <= phonemes.len(),
            all == phoneme_views(phonemes@),
            cue_views(cues@) == visemes_of(all.take(i as int)),
        decreases phonemes.len() - i,
    {
        let ghost sofar = cue_views(cues@);
        let phoneme = &phonemes[i];
        proof {
            all.lemma_filter_map_take_succ(|p: PhonemeView| cue_for(p), i as int);
            assert(all[i as int] == phoneme@);
        }
        if phoneme_to_viseme(phoneme.label.as_str()).is_some() {
            cues.push(
                VisemeData {
                    phoneme: phoneme.label.clone(),
                    timestamp: phoneme.start,
                    duration: phoneme.duration,
                    intensity: FULL_RATIO,
                },
            );
            assert(cue_views(cues@) =~= sofar + seq![cue_for(phoneme@).unwrap()]);
        }
        i += 1;
    }
    assert(all.take(phonemes.len() as int) =~= all);
    cues
}

/// Each phoneme but the first starts where the one before it ended.
pub open spec fn contiguous(phonemes: Seq<PhonemeView>) -> bool {
    forall|i: int|
        0 <= i && i + 1 < phonemes.len() ==> (#[trigger] phonemes[i + 1]).start == phonemes[i].start
            + phonemes[i].duration
}

/// Where the last phoneme ends; zero for no phonemes.
pub open spec fn end_of(phonemes: Seq<PhonemeView>) -> nat {
    if phonemes.len() == 0 {
        0
    } else {
        phonemes.last().start + phonemes.last().duration
    }
}

/// The number of boundaries between `count` words that stand in a row: one
/// less than the words, and none where there is no word.
pub open spec fn boundaries(count: nat) -> nat {
    if count > 0 {
        (count - 1) as nat
    } else {
        0
    }
}

/// The phonemes of a list of words follow each other without gap or overlap,
/// the first starts at zero, the last one ends where the time of the words
/// ends, and there are as many as the words expand to, plus one silence for
/// each boundary between two words.
pub proof fn lemma_track_shape(list: Seq<Seq<Seq<char>>>)
    ensures
        contiguous(track(list)),
        end_of(track(list)) == span(list),
        track(list).len() == label_count(list) + boundaries(list.len()),
        track(list).len() > 0 ==> track(list)[0].start == 0,
    decreases list.len(),
{
    if list.len() > 0 {
        let head = list.drop_last();
        let earlier = track(head);
        let origin = span(head);
        let own = word_track(list.last(), origin, head.len());
        let whole = track(list);
        lemma_track_shape(head);
        assert(whole =~= earlier + own);
        assert forall|i: int| 0 <= i && i + 1 < whole.len() implies (#[trigger] whole[i
            + 1]).start == whole[i].start + whole[i].duration by {
            if i + 1 < earlier.len() {
                assert(whole[i + 1] == earlier[i + 1]);
                assert(whole[i] == earlier[i]);
            } else if i + 1 == earlier.len() {
                assert(whole[i] == earlier.last());
                assert(whole[i + 1] == own[0]);
            } else {
                assert(whole[i] == own[i - earlier.len()]);
                assert(whole[i + 1] == own[i + 1 - earlier.len()]);
            }
        }
        if own.len() > 0 {
            assert(whole.last() == own.last());
        } else {
            assert(whole =~= earlier);
        }
        if whole.len() > 0 {
            if earlier.len() > 0 {
                assert(whole[0] == earlier[0]);
            } else {
                assert(whole[0] == own[0]);
            }
        }
    }
}

/// Where phonemes follow each other without gap, a later one never starts
/// before an earlier one.
pub proof fn lemma_contiguous_ordered(phonemes: Seq<PhonemeView>, i: int, j: int)
    requires
        contiguous(phonemes),
        0 <= i <= j < phonemes.len(),
    ensures
        phonemes[i].start <= phonemes[j].start,
    decreases j - i,
{
    if i < j {
        lemma_contiguous_ordered(phonemes, i, j - 1);
        assert(phonemes[(j - 1) + 1].start == phonemes[j - 1].start + phonemes[j - 1].duration);
    }
}

/// The phonemes of every text come with start times that never decrease and
/// with durations that are not negative; none overlaps the next. Their number
/// is the number of phonemes that the words expand to, plus one silence for
/// each boundary between two words: one less than the words.
pub proof fn lemma_timeline_ordered(text: Seq<char>)
    ensures
        forall|i: int, j: int|
            0 <= i <= j < timeline(text).len() ==> (#[trigger] timeline(text)[i]).start <= (
            #[trigger] timeline(text)[j]).start,
        forall|i: int|
            0 <= i < timeline(text).len() ==> (#[trigger] timeline(text)[i]).duration >= 0,
        contiguous(timeline(text)),
        end_of(timeline(text)) == timeline_span(text),
        timeline(text).len() == label_count(expansions(words(text))) + boundaries(
            words(text).len(),
        ),
{
    lemma_track_shape(expansions(words(text)));
    assert forall|i: int, j: int| 0 <= i <= j < timeline(text).len() implies (
    #[trigger] timeline(text)[i]).start <= (#[trigger] timeline(text)[j]).start by {
        lemma_contiguous_ordered(timeline(text), i, j);
    }
}

/// The same phonemes give the same cues, in the same order.
pub proof fn lemma_visemes_deterministic(first: Seq<PhonemeView>, second: Seq<PhonemeView>)
    requires
        first.len() == second.len(),
        forall|i: int| 0 <= i < first.len() ==> first[i] == second[i],
    ensures
        visemes_of(first) == visemes_of(second),
{
    assert(first =~= second);
}

/// A phoneme that the table of poses does not hold adds no cue.
pub proof fn lemma_unmapped_adds_no_cue(phonemes: Seq<PhonemeView>, next: PhonemeView)
    requires
        viseme_for(next.label) is None,
    ensures
        visemes_of(phonemes.push(next)) == visemes_of(phonemes),
{
    assert(phonemes.push(next).drop_last() =~= phonemes);
}

/// A phoneme that the table of poses holds adds its cue at the end.
pub proof fn lemma_mapped_adds_one_cue(phonemes: Seq<PhonemeView>, next: PhonemeView)
    requires
        viseme_for(next.label) is Some,
    ensures
        visemes_of(phonemes.push(next)) == visemes_of(phonemes).push(cue_for(next).unwrap()),
{
    assert(phonemes.push(next).drop_last() =~= phonemes);
    assert(visemes_of(phonemes) + seq![cue_for(next).unwrap()] =~= visemes_of(phonemes).push(
        cue_for(next).unwrap(),
    ));
}

/// Phonemes of which the table of poses holds none give no cue at all.
pub proof fn lemma_unmapped_give_no_cues(phonemes: Seq<PhonemeView>)
    requires
        forall|i: int| 0 <= i < phonemes.len() ==> viseme_for(#[trigger] phonemes[i].label) is None,
    ensures
        visemes_of(phonemes).len() == 0,
    decreases phonemes.len(),
{
    if phonemes.len() > 0 {
        let head = phonemes.drop_last();
        assert forall|i: int| 0 <= i < head.len() implies viseme_for(
            #[trigger] head[i].label,
        ) is None by {
            assert(head[i] == phonemes[i]);
        }
        lemma_unmapped_give_no_cues(head);
        assert(viseme_for(phonemes[phonemes.len() - 1].label) is None);
    }
}

/// A cue read as a phoneme again.
pub open spec fn phoneme_of(cue: CueView) -> PhonemeView {
    PhonemeView { label: cue.phoneme, start: cue.timestamp, duration: cue.duration }
}

/// Every cue stands for a phoneme that the table of poses holds, keeps that
/// phoneme's time, and has full intensity.
pub proof fn lemma_cues_are_mapped(phonemes: Seq<PhonemeView>)
    ensures
        forall|i: int|
            0 <= i < visemes_of(phonemes).len() ==> cue_for(
                phoneme_of(#[trigger] visemes_of(phonemes)[i]),
            ) == Some(visemes_of(phonemes)[i]),
    decreases phonemes.len(),
{
    if phonemes.len() > 0 {
        lemma_cues_are_mapped(phonemes.drop_last());
    }
}

/// Deriving cues is idempotent: the cues, read as phonemes again, give
/// themselves.
pub proof fn lemma_visemes_idempotent(phonemes: Seq<PhonemeView>)
    ensures
        visemes_of(visemes_of(phonemes).map_values(|c: CueView| phoneme_of(c))) == visemes_of(
            phonemes,
        ),
{
    let cues = visemes_of(phonemes);
    lemma_cues_are_mapped(phonemes);
    lemma_all_mapped(cues.map_values(|c: CueView| phoneme_of(c)), cues);
}

/// Phonemes that each give a cue give exactly those cues.
proof fn lemma_all_mapped(phonemes: Seq<PhonemeView>, cues: Seq<CueView>)
    requires
        phonemes.len() == cues.len(),
        forall|i: int| 0 <= i < phonemes.len() ==> cue_for(#[trigger] phonemes[i]) == Some(cues[i]),
    ensures
        visemes_of(phonemes) == cues,
    decreases phonemes.len(),
{
    if phonemes.len() > 0 {
        let head = phonemes.drop_last();
        assert forall|i: int| 0 <= i < head.len() implies cue_for(#[trigger] head[i]) == Some(
            cues.drop_last()[i],
        ) by {
            assert(head[i] == phonemes[i]);
        }
        lemma_all_mapped(head, cues.drop_last());
        assert(cue_for(phonemes[phonemes.len() - 1]) == Some(cues[cues.len() - 1]));
        assert(cues.drop_last() + seq![cues.last()] =~= cues);
    } else {
        assert(cues =~= Seq::<CueView>::empty());
    }
}

/// No phoneme starts before an earlier one has ended.
pub open spec fn spaced(phonemes: Seq<PhonemeView>) -> bool {
    forall|i: int, j: int|
        0 <= i < j < phonemes.len() ==> (#[trigger] phonemes[i]).start + phonemes[i].duration <= (
        #[trigger] phonemes[j]).start
}

/// No cue starts before an earlier one has ended.
pub open spec fn separated(cues: Seq<CueView>) -> bool {
    forall|i: int, j: int|
        0 <= i < j < cues.len() ==> (#[trigger] cues[i]).timestamp + cues[i].duration <= (
        #[trigger] cues[j]).timestamp
}

/// Phonemes that follow each other without gap do not overlap.
pub proof fn lemma_contiguous_spaced(phonemes: Seq<PhonemeView>)
    requires
        contiguous(phonemes),
    ensures
        spaced(phonemes),
{
    assert forall|i: int, j: int| 0 <= i < j < phonemes.len() implies (
    #[trigger] phonemes[i]).start + phonemes[i].duration <= (#[trigger] phonemes[j]).start by {
        assert(phonemes[i + 1].start == phonemes[i].start + phonemes[i].duration);
        lemma_contiguous_ordered(phonemes, i + 1, j);
    }
}

/// Where every phoneme has ended by some time, so has every cue.
proof fn lemma_cues_end_by(phonemes: Seq<PhonemeView>, time: nat)
    requires
        forall|k: int|
            0 <= k < phonemes.len() ==> (#[trigger] phonemes[k]).start + phonemes[k].duration
                <= time,
    ensures
        forall|i: int|
            0 <= i < visemes_of(phonemes).len() ==> (#[trigger] visemes_of(
                phonemes,
            )[i]).timestamp + visemes_of(phonemes)[i].duration <= time,
    decreases phonemes.len(),
{
    if phonemes.len() > 0 {
        let head = phonemes.drop_last();
        assert forall|k: int| 0 <= k < head.len() implies (#[trigger] head[k]).start
            + head[k].duration <= time by {
            assert(head[k] == phonemes[k]);
        }
        lemma_cues_end_by(head, time);
        let last = phonemes.last();
        assert(last == phonemes[phonemes.len() - 1]);
        assert forall|i: int| 0 <= i < visemes_of(phonemes).len() implies (#[trigger] visemes_of(
            phonemes,
        )[i]).timestamp + visemes_of(phonemes)[i].duration <= time by {
            if i < visemes_of(head).len() {
                assert(visemes_of(phonemes)[i] == visemes_of(head)[i]);
            }
        }
    }
}

/// Phonemes that do not overlap give cues that do not overlap, in the order
/// of their start times.
pub proof fn lemma_cues_separated(phonemes: Seq<PhonemeView>)
    requires
        spaced(phonemes),
    ensures
        separated(visemes_of(phonemes)),
    decreases phonemes.len(),
{
    if phonemes.len() > 0 {
        let head = phonemes.drop_last();
        let last = phonemes.last();
        assert(last == phonemes[phonemes.len() - 1]);
        assert(spaced(head)) by {
            assert forall|i: int, j: int| 0 <= i < j < head.len() implies (#[trigger] head[i]).start
                + head[i].duration <= (#[trigger] head[j]).start by {
                assert(head[i] == phonemes[i]);
                assert(head[j] == phonemes[j]);
            }
        }
        lemma_cues_separated(head);
        assert forall|k: int| 0 <= k < head.len() implies (#[trigger] head[k]).start
            + head[k].duration <= last.start by {
            assert(head[k] == phonemes[k]);
        }
        lemma_cues_end_by(head, last.start);
        let cues = visemes_of(phonemes);
        let earlier = visemes_of(head);
        assert forall|i: int, j: int| 0 <= i < j < cues.len() implies (#[trigger] cues[i]).timestamp
            + cues[i].duration <= (#[trigger] cues[j]).timestamp by {
            if j < earlier.len() {
                assert(cues[i] == earlier[i]);
                assert(cues[j] == earlier[j]);
            } else {
                assert(cues[i] == earlier[i]);
                assert(cues[j].timestamp == last.start);
            }
        }
    }
}

/// The cues of every text come in the order of their start times, and none
/// overlaps a later one.
pub proof fn lemma_cues_ordered(text: Seq<char>)
    ensures
        separated(visemes_of(timeline(text))),
{
    lemma_track_shape(expansions(words(text)));
    lemma_contiguous_spaced(timeline(text));
    lemma_cues_separated(timeline(text));
}

/// The table of poses holds the label of every phoneme.
pub open spec fn all_mapped(phonemes: Seq<PhonemeView>) -> bool {
    forall|i: int| 0 <= i < phonemes.len() ==> viseme_for(#[trigger] phonemes[i].label) is Some
}

/// The sum of the durations of the cues.
pub open spec fn total_duration(cues: Seq<CueView>) -> nat
    decreases cues.len(),
{
    if cues.len() == 0 {
        0
    } else {
        total_duration(cues.drop_last()) + cues.last().duration
    }
}

/// Phonemes that follow each other from zero on without gap, and whose
/// labels the table of poses all holds, give one cue each; the last cue is
/// that of the last phoneme, and the durations of the cues add up to the time
/// at which the last phoneme ends.
pub proof fn lemma_cues_cover(phonemes: Seq<PhonemeView>)
    requires
        all_mapped(phonemes),
        contiguous(phonemes),
        phonemes.len() > 0 ==> phonemes[0].start == 0,
    ensures
        visemes_of(phonemes).len() == phonemes.len(),
        phonemes.len() > 0 ==> visemes_of(phonemes).last() == cue_for(phonemes.last()).unwrap(),
        total_duration(visemes_of(phonemes)) == end_of(phonemes),
    decreases phonemes.len(),
{
    if phonemes.len() > 0 {
        let head = phonemes.drop_last();
        let last = phonemes.last();
        assert(last == phonemes[phonemes.len() - 1]);
        assert(all_mapped(head)) by {
            assert forall|i: int| 0 <= i < head.len() implies viseme_for(
                #[trigger] head[i].label,
            ) is Some by {
                assert(head[i] == phonemes[i]);
            }
        }
        assert(contiguous(head)) by {
            assert forall|i: int| 0 <= i && i + 1 < head.len() implies (#[trigger] head[i
                + 1]).start == head[i].start + head[i].duration by {
                assert(head[i + 1] == phonemes[i + 1]);
                assert(head[i] == phonemes[i]);
            }
        }
        if head.len() > 0 {
            assert(head[0] == phonemes[0]);
            assert(head.last() == phonemes[phonemes.len() - 2]);
            assert(phonemes[(phonemes.len() - 2) + 1].start == phonemes[phonemes.len() - 2].start
                + phonemes[phonemes.len() - 2].duration);
        }
        lemma_cues_cover(head);
        let cue = cue_for(last).unwrap();
        assert(visemes_of(phonemes) =~= visemes_of(head) + seq![cue]);
        assert(visemes_of(phonemes).drop_last() =~= visemes_of(head));
    }
}

/// Of every text whose phoneme labels the table of poses all holds: the cues
/// are as many as the phonemes; where the text has a word, there is a cue,
/// and the last cue ends where the timeline ends; and the durations of the
/// cues add up to the length of the timeline. A text with a label that has
/// no pose has fewer cues, and a text of such labels alone has none.
pub proof fn lemma_cues_of_mapped_text(text: Seq<char>)
    requires
        all_mapped(timeline(text)),
    ensures
        visemes_of(timeline(text)).len() == timeline(text).len(),
        timeline(text).len() > 0 ==> {
            &&& visemes_of(timeline(text)).len() > 0
            &&& visemes_of(timeline(text)).last().timestamp + visemes_of(
                timeline(text),
            ).last().duration == timeline_span(text)
        },
        total_duration(visemes_of(timeline(text))) == timeline_span(text),
{
    lemma_track_shape(expansions(words(text)));
    lemma_cues_cover(timeline(text));
}

} // verus!
