//! Mood detection from the words of a message.

use vstd::prelude::*;

use crate::text::{chars_of, has_substring, lowercase, mentions_any, mentions_any_word, to_lowercase};

verus! {

/// The mood that a message shows.
#[derive(Clone, Copy, Debug, PartialEq, Eq, Structural)]
pub enum Mood {
    Positive,
    Negative,
    Neutral,
}

/// Words that show a positive mood.
pub open spec fn positive_words() -> Seq<Seq<char>> {
    seq!["merci"@, "super"@, "heureux"@, "gentil"@, "love"@, "good"@, "bravo"@]
}

/// Words that show a negative mood.
pub open spec fn negative_words() -> Seq<Seq<char>> {
    seq!["triste"@, "souffre"@, "mal"@, "solitaire"@, "fatigué"@, "suis seul"@]
}

/// The mood of an already lowercased message: positive words win over
/// negative ones, and a message with neither is neutral.
pub open spec fn mood_of(lowered: Seq<char>) -> Mood {
    if mentions_any(lowered, positive_words()) {
        Mood::Positive
    } else if mentions_any(lowered, negative_words()) {
        Mood::Negative
    } else {
        Mood::Neutral
    }
}

/// The name under which a mood is reported.
pub open spec fn mood_label(m: Mood) -> Seq<char> {
    match m {
        Mood::Positive => "positive"@,
        Mood::Negative => "negative"@,
        Mood::Neutral => "neutre"@,
    }
}

impl Mood {
    /// The name under which this mood is reported.
    pub fn label(&self) -> (r: &'static str)
        ensures
            r@ == mood_label(*self),
    {
        match self {
            Mood::Positive => "positive",
            Mood::Negative => "negative",
            Mood::Neutral => "neutre",
        }
    }
}

fn positive_keywords() -> (r: Vec<&'static str>)
    ensures
        r@.map_values(|w: &str| w@) == positive_words(),
{
    let r = vec!["merci", "super", "heureux", "gentil", "love", "good", "bravo"];
    assert(r@.map_values(|w: &str| w@) =~= positive_words());
    r
}

fn negative_keywords() -> (r: Vec<&'static str>)
    ensures
        r@.map_values(|w: &str| w@) == negative_words(),
{
    let r = vec!["triste", "souffre", "mal", "solitaire", "fatigué", "suis seul"];
    assert(r@.map_values(|w: &str| w@) =~= negative_words());
    r
}

/// The mood of a message that has already been lowercased.
pub fn mood_of_lowered(lowered: &str) -> (m: Mood)
    ensures
        m == mood_of(lowered@),
{
    let text = chars_of(lowered);
    if mentions_any_word(&text, &positive_keywords()) {
        Mood::Positive
    } else if mentions_any_word(&text, &negative_keywords()) {
        Mood::Negative
    } else {
        Mood::Neutral
    }
}

/// The mood of a message, found in its lowercased form.
pub fn detect_mood(texte: &str) -> (m: Mood)
    ensures
        m == mood_of(lowercase(texte@)),
{
    let lowered = to_lowercase(texte);
    mood_of_lowered(lowered.as_str())
}

/// The name of the mood of a message: "positive", "negative" or "neutre".
pub fn analyser_humeur(texte: &str) -> (r: String)
    ensures
        r@ == mood_label(mood_of(lowercase(texte@))),
{
    let m = detect_mood(texte);
    String::from_str(m.label())
}

/// Positive words outweigh negative ones: a message whose lowercased text
/// holds a positive word is positive whatever negative words it holds, one
/// that holds only negative words is negative, and one with neither is
/// neutral. The three moods never overlap.
pub proof fn positive_words_outweigh_negative(lowered: Seq<char>)
    ensures
        mentions_any(lowered, positive_words()) ==> mood_of(lowered) == Mood::Positive,
        !mentions_any(lowered, positive_words()) && mentions_any(lowered, negative_words())
            ==> mood_of(lowered) == Mood::Negative,
        !mentions_any(lowered, positive_words()) && !mentions_any(lowered, negative_words())
            ==> mood_of(lowered) == Mood::Neutral,
        mood_label(Mood::Positive) != mood_label(Mood::Negative),
        mood_label(Mood::Positive) != mood_label(Mood::Neutral),
        mood_label(Mood::Negative) != mood_label(Mood::Neutral),
{
    reveal_strlit("positive");
    reveal_strlit("negative");
    reveal_strlit("neutre");
    assert("positive"@[0] != "negative"@[0]);
    assert("positive"@.len() != "neutre"@.len());
    assert("negative"@.len() != "neutre"@.len());
}

/// The words that decide the mood: a lowercased message is positive
/// exactly when it contains one of "merci", "super", "heureux", "gentil",
/// "love", "good" or "bravo", anywhere and at any length; it is negative
/// exactly when it contains none of these but one of "triste", "souffre",
/// "mal", "solitaire", "fatigué" or "suis seul"; it is neutral otherwise.
pub proof fn listed_words_decide_the_mood(lowered: Seq<char>)
    ensures
        mood_of(lowered) == Mood::Positive <==> (has_substring(lowered, "merci"@)
            || has_substring(lowered, "super"@)
            || has_substring(lowered, "heureux"@)
            || has_substring(lowered, "gentil"@)
            || has_substring(lowered, "love"@)
            || has_substring(lowered, "good"@)
            || has_substring(lowered, "bravo"@)),
        mood_of(lowered) == Mood::Negative <==> !(has_substring(lowered, "merci"@)
            || has_substring(lowered, "super"@)
            || has_substring(lowered, "heureux"@)
            || has_substring(lowered, "gentil"@)
            || has_substring(lowered, "love"@)
            || has_substring(lowered, "good"@)
            || has_substring(lowered, "bravo"@)) && (has_substring(lowered, "triste"@)
            || has_substring(lowered, "souffre"@)
            || has_substring(lowered, "mal"@)
            || has_substring(lowered, "solitaire"@)
            || has_substring(lowered, "fatigué"@)
            || has_substring(lowered, "suis seul"@)),
        mood_of(lowered) == Mood::Neutral <==> !(has_substring(lowered, "merci"@)
            || has_substring(lowered, "super"@)
            || has_substring(lowered, "heureux"@)
            || has_substring(lowered, "gentil"@)
            || has_substring(lowered, "love"@)
            || has_substring(lowered, "good"@)
            || has_substring(lowered, "bravo"@)) && !(has_substring(lowered, "triste"@)
            || has_substring(lowered, "souffre"@)
            || has_substring(lowered, "mal"@)
            || has_substring(lowered, "solitaire"@)
            || has_substring(lowered, "fatigué"@)
            || has_substring(lowered, "suis seul"@)),
{
    assert(positive_words()[0] == "merci"@);
    assert(positive_words()[1] == "super"@);
    assert(positive_words()[2] == "heureux"@);
    assert(positive_words()[3] == "gentil"@);
    assert(positive_words()[4] == "love"@);
    assert(positive_words()[5] == "good"@);
    assert(positive_words()[6] == "bravo"@);
    assert(negative_words()[0] == "triste"@);
    assert(negative_words()[1] == "souffre"@);
    assert(negative_words()[2] == "mal"@);
    assert(negative_words()[3] == "solitaire"@);
    assert(negative_words()[4] == "fatigué"@);
    assert(negative_words()[5] == "suis seul"@);
    if mentions_any(lowered, positive_words()) {
        let k = choose|k: int|
            0 <= k < positive_words().len() && has_substring(lowered, #[trigger] positive_words()[k]);
        assert(0 <= k < 7);
    }
    if mentions_any(lowered, negative_words()) {
        let k = choose|k: int|
            0 <= k < negative_words().len() && has_substring(lowered, #[trigger] negative_words()[k]);
        assert(0 <= k < 6);
    }
}

} // verus!
