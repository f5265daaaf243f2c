//! Jokes to lighten the mood, and the reply that a message receives.

use vstd::prelude::*;
use rand::Rng;

use crate::faith::{citation_religieuse, quote_for};
use crate::mood::{detect_mood, mood_label, mood_of, Mood};
use crate::text::lowercase;

verus! {

/// The jokes, in the order in which they are numbered.
pub open spec fn jokes() -> Seq<Seq<char>> {
    seq![
        "Pourquoi les développeurs détestent la nature ? Parce qu'il y a trop de bugs 🐛"@,
        "Pourquoi les programmeurs confondent toujours Noël et Halloween ? Parce que Oct 31 = Dec 25 🎄"@,
        "Un testeur entre dans un bar. Il commande une bière. Il commande 0 bière. Il commande 999999999 bières. Il commande un canard. La serveuse dit : 'Mais vous êtes fou ?' Le testeur répond : 'Je vérifie les cas limites.'"@,
    ]
}

fn joke_list() -> (r: Vec<&'static str>)
    ensures
        r@.map_values(|w: &str| w@) == jokes(),
{
    let r = vec![
        "Pourquoi les développeurs détestent la nature ? Parce qu'il y a trop de bugs 🐛",
        "Pourquoi les programmeurs confondent toujours Noël et Halloween ? Parce que Oct 31 = Dec 25 🎄",
        "Un testeur entre dans un bar. Il commande une bière. Il commande 0 bière. Il commande 999999999 bières. Il commande un canard. La serveuse dit : 'Mais vous êtes fou ?' Le testeur répond : 'Je vérifie les cas limites.'",
    ];
    assert(r@.map_values(|w: &str| w@) =~= jokes());
    r
}

/// Draws a number below `n` with `rand::Rng::gen_range` on the thread's
/// generator (`rand::thread_rng`). The contract claims only what holds of
/// every draw: the number is below `n`. `gen_range` panics on an empty
/// range, which `requires` rules out.
#[verifier::external_body]
fn random_below(n: usize) -> (r: usize)
    requires
        n > 0,
    ensures
        r < n,
{
    rand::thread_rng().gen_range(0..n)
}

/// The joke with the given number.
pub fn joke_at(i: usize) -> (r: String)
    requires
        i < jokes().len(),
    ensures
        r@ == jokes()[i as int],
{
    let list = joke_list();
    assert(list@.len() == list@.map_values(|w: &str| w@).len());
    assert(list@.map_values(|w: &str| w@)[i as int] == list@[i as int]@);
    String::from_str(list[i])
}

/// A joke drawn at random: whichever is drawn, it is one of `jokes()`.
pub fn generer_blague() -> (r: String)
    ensures
        exists|i: int| 0 <= i < jokes().len() && r@ == #[trigger] jokes()[i],
{
    let list = joke_list();
    assert(list@.len() == list@.map_values(|w: &str| w@).len());
    let i = random_below(list.len());
    joke_at(i)
}

/// The reply: the mood line, the quote and the AI text, separated by blank
/// lines, followed by a joke when one is given.
pub open spec fn reply_text(
    mood: Mood,
    quote: Seq<char>,
    ai_text: Seq<char>,
    joke: Option<Seq<char>>,
) -> Seq<char> {
    let base = "😊 Humeur détectée: "@ + mood_label(mood) + "\n\n"@ + quote + "\n\n"@ + ai_text;
    match joke {
        Some(j) => base + "\n\n😂 Tiens, une petite blague pour te changer les idées : "@ + j,
        None => base,
    }
}

/// Assembles a reply from its parts.
pub fn compose_reply(mood: Mood, quote: &str, ai_text: &str, joke: Option<&str>) -> (r: String)
    ensures
        r@ == reply_text(
            mood,
            quote@,
            ai_text@,
            match joke {
                Some(j) => Some(j@),
                None => None,
            },
        ),
{
    let mut r = String::from_str("😊 Humeur détectée: ");
    r.append(mood.label());
    r.append("\n\n");
    r.append(quote);
    r.append("\n\n");
    r.append(ai_text);
    match joke {
        Some(j) => {
            r.append("\n\n😂 Tiens, une petite blague pour te changer les idées : ");
            r.append(j);
        },
        None => {},
    }
    r
}

/// The reply to a message, given the text that the AI model produced for it:
/// its mood, a quote for the religion, the AI text, and, when the mood is
/// negative, one of the jokes.
pub fn generer_reponse_spirituelle(texte: &str, religion: &str, ai_text: &str) -> (r: String)
    ensures
        ({
            let lowered = lowercase(texte@);
            let mood = mood_of(lowered);
            let quote = quote_for(lowered, religion@);
            &&& mood != Mood::Negative ==> r@ == reply_text(mood, quote, ai_text@, None)
            &&& mood == Mood::Negative ==> exists|i: int|
                0 <= i < jokes().len() && r@ == reply_text(
                    mood,
                    quote,
                    ai_text@,
                    Some(#[trigger] jokes()[i]),
                )
        }),
{
    let mood = detect_mood(texte);
    let quote = citation_religieuse(texte, religion);
    if mood == Mood::Negative {
        let joke = generer_blague();
        compose_reply(mood, quote.as_str(), ai_text, Some(joke.as_str()))
    } else {
        compose_reply(mood, quote.as_str(), ai_text, None)
    }
}

/// Every reply opens with the mood line: whatever the quote, the AI text
/// and the joke, the reply starts with "😊 Humeur détectée: " followed by
/// the name of the mood, which is what `analyser_humeur` reports.
pub proof fn reply_opens_with_mood(
    mood: Mood,
    quote: Seq<char>,
    ai_text: Seq<char>,
    joke: Option<Seq<char>>,
)
    ensures
        ({
            let head = "😊 Humeur détectée: "@ + mood_label(mood);
            reply_text(mood, quote, ai_text, joke).take(head.len() as int) == head
        }),
{
    let head = "😊 Humeur détectée: "@ + mood_label(mood);
    let base = head + "\n\n"@ + quote + "\n\n"@ + ai_text;
    assert(base.take(head.len() as int) =~= head);
    match joke {
        Some(j) => {
            let full = base + "\n\n😂 Tiens, une petite blague pour te changer les idées : "@ + j;
            assert(full.take(head.len() as int) =~= head);
        },
        None => {},
    }
}

} // verus!
