//! Text handling for the pipeline: what std's string functions return, and
//! the splitting of a text into words.

use vstd::prelude::*;

verus! {

/// The character has the Unicode property `White_Space`: it is one of the
/// 25 code points that the Unicode Character Database lists under it. They
/// are the controls from tab to carriage return, the space, the next-line
/// control, the no-break space, the Ogham space mark, the spaces from en quad
/// to hair space, the line and paragraph separators, the narrow no-break
/// space, the medium mathematical space and the ideographic space.
pub open spec fn is_whitespace(c: char) -> bool {
    let code = c as u32;
    ||| 0x0009 <= code <= 0x000D
    ||| code == 0x0020
    ||| code == 0x0085
    ||| code == 0x00A0
    ||| code == 0x1680
    ||| 0x2000 <= code <= 0x200A
    ||| code == 0x2028
    ||| code == 0x2029
    ||| code == 0x202F
    ||| code == 0x205F
    ||| code == 0x3000
}

/// What `str::to_lowercase` returns for a text: its Unicode lower-case form.
pub uninterp spec fn lowercase(text: Seq<char>) -> Seq<char>;

/// `char::is_whitespace` is not proved here: it is taken to tell whether the
/// character has the Unicode property `White_Space`, as its documentation
/// says.
pub assume_specification[ char::is_whitespace ](c: char) -> (b: bool)
    ensures
        b == is_whitespace(c),
;

/// `str::to_lowercase` is not proved here: its result is given the name
/// `lowercase`, applied to the characters of the argument.
pub assume_specification[ str::to_lowercase ](text: &str) -> (lowered: String)
    ensures
        lowered@ == lowercase(text@),
;

/// `==` on string slices is not proved here: it is taken to compare the two
/// slices character by character.
pub assume_specification[ <str as PartialEq>::eq ](left: &str, right: &str) -> (same: bool)
    ensures
        same == (left@ == right@),
;

/// `String::push` is not proved here: it is taken to append the character at
/// the end and to leave the rest as it was.
pub assume_specification[ String::push ](text: &mut String, c: char)
    ensures
        final(text)@ == old(text)@.push(c),
;

/// `needle` stands in `hay` at place `i`.
pub open spec fn stands_at(needle: Seq<char>, hay: Seq<char>, i: int) -> bool {
    0 <= i && i + needle.len() <= hay.len() && hay.subrange(i, i + needle.len()) == needle
}

/// `needle` stands somewhere in `hay` as a contiguous run.
pub open spec fn occurs_in(needle: Seq<char>, hay: Seq<char>) -> bool {
    exists|i: int| stands_at(needle, hay, i)
}

/// The characters of a text, in order.
pub fn chars_of(text: &str) -> (chars: Vec<char>)
    ensures
        chars@ == text@,
{
    let mut chars: Vec<char> = Vec::new();
    for c in it: text.chars()
        invariant
            it.seq() == text@,
            chars@ == text@.take(it.index() as int),
    {
        chars.push(c);
        assert(chars@ =~= text@.take(it.index() + 1));
    }
    assert(text@.take(text@.len() as int) =~= text@);
    chars
}

/// Tells whether `needle` stands somewhere in `hay` as a contiguous run of
/// characters. The empty text stands in every text.
pub fn contains(hay: &str, needle: &str) -> (found: bool)
    ensures
        found == occurs_in(needle@, hay@),
{
    let text = chars_of(hay);
    let wanted = chars_of(needle);
    let length = wanted.len();
    if length > text.len() {
        return false;
    }
    let last = text.len() - length;
    let mut i: usize = 0;
    while i <= last
        invariant
            i <= last + 1,
            last + length == text.len(),
            length == wanted.len(),
            text@ == hay@,
            wanted@ == needle@,
            forall|k: int| 0 <= k < i ==> !stands_at(wanted@, text@, k),
        decreases last + 1 - i,
    {
        let mut j: usize = 0;
        while j < length && text[i + j] == wanted[j]
            invariant
                j <= length,
                i + length <= text.len(),
                length == wanted.len(),
                forall|m: int| 0 <= m < j ==> text@[i + m] == wanted@[m],
            decreases length - j,
        {
            j += 1;
        }
        if j == length {
            assert(text@.subrange(i as int, i + length) =~= wanted@);
            assert(stands_at(wanted@, text@, i as int));
            return true;
        }
        assert(text@.subrange(i as int, i + length)[j as int] != wanted@[j as int]);
        i += 1;
    }
    false
}

/// The views of a sequence of strings, in the same order.
pub open spec fn string_views(strings: Seq<String>) -> Seq<Seq<char>> {
    Seq::new(strings.len(), |i: int| strings[i]@)
}

/// Each character of a text with the mark that tells whether it is
/// whitespace.
pub open spec fn marked(text: Seq<char>) -> Seq<(char, bool)> {
    Seq::new(text.len(), |i: int| (text[i], is_whitespace(text[i])))
}

/// The characters of a marked text, without their marks.
pub open spec fn letters(marks: Seq<(char, bool)>) -> Seq<char> {
    Seq::new(marks.len(), |i: int| marks[i].0)
}

/// The characters of a word, each marked as not being whitespace.
pub open spec fn unmarked(word: Seq<char>) -> Seq<(char, bool)> {
    Seq::new(word.len(), |i: int| (word[i], false))
}

/// Every character is marked as whitespace; so for the empty text.
pub open spec fn all_marked(marks: Seq<(char, bool)>) -> bool {
    forall|i: int| 0 <= i < marks.len() ==> (#[trigger] marks[i]).1
}

/// Every character of `text` is whitespace; so for the empty text.
pub open spec fn blank(text: Seq<char>) -> bool {
    all_marked(marked(text))
}

/// The length of the longest prefix in which no character is marked as
/// whitespace.
pub open spec fn run_len(marks: Seq<(char, bool)>) -> nat
    decreases marks.len(),
{
    if marks.len() == 0 || marks[0].1 {
        0
    } else {
        1 + run_len(marks.drop_first())
    }
}

/// The words of a marked text: its maximal runs of characters that are not
/// marked as whitespace, in order. What is marked as whitespace, before,
/// between and after them, is dropped.
pub open spec fn words_of(marks: Seq<(char, bool)>) -> Seq<Seq<char>>
    decreases marks.len(),
    via words_of_decreases
{
    if marks.len() == 0 {
        Seq::empty()
    } else if marks[0].1 {
        words_of(marks.drop_first())
    } else {
        let n = run_len(marks) as int;
        seq![letters(marks.take(n))] + words_of(marks.skip(n))
    }
}

#[via_fn]
proof fn words_of_decreases(marks: Seq<(char, bool)>) {
    lemma_run_len_bounds(marks);
}

/// The words of a text: its maximal runs of characters that are not
/// whitespace, in order.
pub open spec fn words(text: Seq<char>) -> Seq<Seq<char>> {
    words_of(marked(text))
}

/// A run is never longer than the text, and is not empty where the text
/// starts with a character that is not marked as whitespace.
pub proof fn lemma_run_len_bounds(marks: Seq<(char, bool)>)
    ensures
        run_len(marks) <= marks.len(),
        marks.len() > 0 && !marks[0].1 ==> run_len(marks) >= 1,
    decreases marks.len(),
{
    if marks.len() > 0 && !marks[0].1 {
        lemma_run_len_bounds(marks.drop_first());
    }
}

/// A word, followed by nothing or by whitespace, is a run of the whole.
proof fn lemma_run_len_prefix(word: Seq<char>, rest: Seq<(char, bool)>)
    requires
        rest.len() == 0 || rest[0].1,
    ensures
        run_len(unmarked(word) + rest) == word.len(),
    decreases word.len(),
{
    let whole = unmarked(word) + rest;
    if word.len() == 0 {
        assert(whole =~= rest);
    } else {
        assert(whole[0] == unmarked(word)[0]);
        assert(whole.drop_first() =~= unmarked(word.drop_first()) + rest);
        lemma_run_len_prefix(word.drop_first(), rest);
    }
}

/// A word that is followed by nothing or by whitespace is the first word of
/// the whole, and the words of the rest follow it.
proof fn lemma_words_after_word(word: Seq<char>, rest: Seq<(char, bool)>)
    requires
        word.len() > 0,
        rest.len() == 0 || rest[0].1,
    ensures
        words_of(unmarked(word) + rest) == seq![word] + words_of(rest),
{
    let whole = unmarked(word) + rest;
    lemma_run_len_prefix(word, rest);
    assert(whole[0] == unmarked(word)[0]);
    assert(whole.take(word.len() as int) =~= unmarked(word));
    assert(letters(unmarked(word)) =~= word);
    assert(whole.skip(word.len() as int) =~= rest);
}

/// Marks each character of a text as whitespace or not.
pub fn mark(text: &str) -> (marks: Vec<(char, bool)>)
    ensures
        marks@ == marked(text@),
{
    let mut marks: Vec<(char, bool)> = Vec::new();
    for c in it: text.chars()
        invariant
            it.seq() == text@,
            marks@ == marked(text@.take(it.index() as int)),
    {
        marks.push((c, c.is_whitespace()));
        assert(marks@ =~= marked(text@.take(it.index() + 1)));
    }
    assert(text@.take(text@.len() as int) =~= text@);
    marks
}

/// Splits a marked text into its words.
pub fn split_marked(marks: &Vec<(char, bool)>) -> (list: Vec<String>)
    ensures
        string_views(list@) == words_of(marks@),
{
    let mut list: Vec<String> = Vec::new();
    let mut current = String::new();
    let mut i: usize = 0;
    proof {
        assert(unmarked(current@) + marks@.skip(0) =~= marks@);
        assert(string_views(list@) + words_of(marks@) =~= words_of(marks@));
    }
    while i < marks.len()
        invariant
            i <= marks.len(),
            words_of(marks@) == string_views(list@) + words_of(
                unmarked(current@) + marks@.skip(i as int),
            ),
        decreases marks.len() - i,
    {
        let (c, white) = marks[i];
        let ghost rest = marks@.skip(i as int);
        let ghost after = marks@.skip(i + 1);
        assert(rest =~= seq![(c, white)] + after);
        if white {
            if !current.as_str().is_empty() {
                proof {
                    lemma_words_after_word(current@, rest);
                    assert(rest.drop_first() =~= after);
                    assert(string_views(list@.push(current)) =~= string_views(list@) + seq![
                        current@,
                    ]);
                }
                list.push(current);
                current = String::new();
                assert(unmarked(current@) + after =~= after);
            } else {
                proof {
                    assert(unmarked(current@) + rest =~= rest);
                    assert(rest.drop_first() =~= after);
                    assert(unmarked(current@) + after =~= after);
                }
            }
        } else {
            proof {
                assert(unmarked(current@.push(c)) + after =~= unmarked(current@) + rest);
            }
            current.push(c);
        }
        i += 1;
    }
    proof {
        assert(marks@.skip(marks.len() as int) =~= Seq::<(char, bool)>::empty());
        assert(unmarked(current@) + marks@.skip(marks.len() as int) =~= unmarked(current@));
    }
    if !current.as_str().is_empty() {
        proof {
            lemma_words_after_word(current@, Seq::<(char, bool)>::empty());
            assert(unmarked(current@) + Seq::<(char, bool)>::empty() =~= unmarked(current@));
            assert(string_views(list@.push(current)) =~= string_views(list@) + seq![current@]);
        }
        list.push(current);
    }
    list
}

/// Splits a text into its words.
pub fn split_words(text: &str) -> (list: Vec<String>)
    ensures
        string_views(list@) == words(text@),
{
    let marks = mark(text);
    split_marked(&marks)
}

/// Tells whether every character of a marked text is marked as whitespace.
pub fn all_white(marks: &Vec<(char, bool)>) -> (all: bool)
    ensures
        all == all_marked(marks@),
{
    let mut i: usize = 0;
    while i < marks.len()
        invariant
            i <= marks.len(),
            forall|k: int| 0 <= k < i ==> (#[trigger] marks@[k]).1,
        decreases marks.len() - i,
    {
        if !marks[i].1 {
            return false;
        }
        i += 1;
    }
    true
}

/// Tells whether a text holds nothing but whitespace.
pub fn is_blank(text: &str) -> (b: bool)
    ensures
        b == blank(text@),
{
    let marks = mark(text);
    all_white(&marks)
}

} // verus!
