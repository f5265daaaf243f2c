//! Quotes from the scriptures, chosen by the theme of a message.

use vstd::prelude::*;

use crate::text::{chars_of, contains_chars, has_substring, lowercase, same_text, to_lowercase};

verus! {

/// Bible verses, each with the theme that selects it.
pub open spec fn bible_verses() -> Seq<(Seq<char>, Seq<char>)> {
    seq![
        ("amour"@, "1 Corinthiens 13:7 : L'amour supporte tout, croit tout, espère tout, endure tout."@),
        ("partage"@, "Actes 20:35 : Il y a plus de bonheur à donner qu'à recevoir."@),
        ("espoir"@, "Jérémie 29:11 : Je connais les projets que j'ai pour vous, des projets de paix."@),
    ]
}

/// Quran verses, each with the theme that selects it.
pub open spec fn quran_verses() -> Seq<(Seq<char>, Seq<char>)> {
    seq![
        ("compassion"@, "Sourate 21:107 : Nous ne t'avons envoyé que par miséricorde pour l'univers."@),
        ("generosite"@, "Sourate 2:261 : Ceux qui dépensent leurs biens dans le chemin d'Allah ressemblent à un grain qui produit sept épis."@),
    ]
}

/// The quote for the first verse, in list order, whose theme occurs in
/// `lowered`: the mark, the verse, a dash and the theme; `fallback` when
/// no theme occurs.
pub open spec fn first_theme_quote(
    lowered: Seq<char>,
    verses: Seq<(Seq<char>, Seq<char>)>,
    mark: Seq<char>,
    fallback: Seq<char>,
) -> Seq<char>
    decreases verses.len(),
{
    if verses.len() == 0 {
        fallback
    } else if has_substring(lowered, verses[0].0) {
        mark + verses[0].1 + " – "@ + verses[0].0
    } else {
        first_theme_quote(lowered, verses.drop_first(), mark, fallback)
    }
}

/// The quote given for a lowercased subject and a religion.
pub open spec fn quote_for(lowered: Seq<char>, religion: Seq<char>) -> Seq<char> {
    if religion == "chrétien"@ {
        first_theme_quote(
            lowered,
            bible_verses(),
            "📖 "@,
            "📖 Psaume 37:25 : Je n'ai jamais vu le juste abandonné."@,
        )
    } else if religion == "musulman"@ {
        first_theme_quote(
            lowered,
            quran_verses(),
            "🕊️ "@,
            "🕊️ Sourate 94:5 : Oui, avec la difficulté vient la facilité."@,
        )
    } else {
        "Chaque tradition enseigne la bonté et le partage."@
    }
}

/// The characters of each theme and verse of a list.
pub open spec fn verse_views(v: Seq<(&str, &str)>) -> Seq<(Seq<char>, Seq<char>)> {
    v.map_values(|p: (&str, &str)| (p.0@, p.1@))
}

fn bible_verse_list() -> (r: Vec<(&'static str, &'static str)>)
    ensures
        verse_views(r@) == bible_verses(),
{
    let r = vec![
        ("amour", "1 Corinthiens 13:7 : L'amour supporte tout, croit tout, espère tout, endure tout."),
        ("partage", "Actes 20:35 : Il y a plus de bonheur à donner qu'à recevoir."),
        ("espoir", "Jérémie 29:11 : Je connais les projets que j'ai pour vous, des projets de paix."),
    ];
    assert(verse_views(r@) =~= bible_verses());
    r
}

fn quran_verse_list() -> (r: Vec<(&'static str, &'static str)>)
    ensures
        verse_views(r@) == quran_verses(),
{
    let r = vec![
        ("compassion", "Sourate 21:107 : Nous ne t'avons envoyé que par miséricorde pour l'univers."),
        ("generosite", "Sourate 2:261 : Ceux qui dépensent leurs biens dans le chemin d'Allah ressemblent à un grain qui produit sept épis."),
    ];
    assert(verse_views(r@) =~= quran_verses());
    r
}

/// The quote for the first verse of `verses` whose theme occurs in `lowered`.
fn pick_verse(lowered: &Vec<char>, verses: &Vec<(&str, &str)>, mark: &str, fallback: &str) -> (r:
    String)
    ensures
        r@ == first_theme_quote(lowered@, verse_views(verses@), mark@, fallback@),
{
    let ghost all = verse_views(verses@);
    let n = verses.len();
    let mut k: usize = 0;
    assert(all.skip(0) =~= all);
    while k < n
        invariant
            n == verses@.len(),
            all == verse_views(verses@),
            k <= n,
            first_theme_quote(lowered@, all, mark@, fallback@) == first_theme_quote(
                lowered@,
                all.skip(k as int),
                mark@,
                fallback@,
            ),
        decreases n - k,
    {
        let (theme, verse) = verses[k];
        let t = chars_of(theme);
        assert(all.skip(k as int)[0] == (theme@, verse@));
        if contains_chars(lowered, &t) {
            let mut r = String::from_str(mark);
            r.append(verse);
            r.append(" – ");
            r.append(theme);
            return r;
        }
        assert(all.skip(k as int).drop_first() =~= all.skip(k + 1));
        k = k + 1;
    }
    assert(all.skip(n as int).len() == 0);
    String::from_str(fallback)
}

/// The quote for a subject that has already been lowercased.
pub fn quote_for_lowered(lowered: &str, religion: &str) -> (r: String)
    ensures
        r@ == quote_for(lowered@, religion@),
{
    if same_text(religion, "chrétien") {
        let text = chars_of(lowered);
        pick_verse(
            &text,
            &bible_verse_list(),
            "📖 ",
            "📖 Psaume 37:25 : Je n'ai jamais vu le juste abandonné.",
        )
    } else if same_text(religion, "musulman") {
        let text = chars_of(lowered);
        pick_verse(
            &text,
            &quran_verse_list(),
            "🕊️ ",
            "🕊️ Sourate 94:5 : Oui, avec la difficulté vient la facilité.",
        )
    } else {
        String::from_str("Chaque tradition enseigne la bonté et le partage.")
    }
}

/// A scripture quote suited to the subject of a message: for "chrétien" a
/// Bible verse, for "musulman" a Quran verse, each picked by the first
/// theme found in the lowercased subject; a general word otherwise.
pub fn citation_religieuse(sujet: &str, religion: &str) -> (r: String)
    ensures
        r@ == quote_for(lowercase(sujet@), religion@),
{
    let lowered = to_lowercase(sujet);
    quote_for_lowered(lowered.as_str(), religion)
}

/// A quote picked from a verse list starts with the mark whenever the
/// fallback does.
proof fn first_theme_quote_keeps_mark(
    lowered: Seq<char>,
    verses: Seq<(Seq<char>, Seq<char>)>,
    mark: Seq<char>,
    fallback: Seq<char>,
)
    requires
        fallback.take(mark.len() as int) == mark,
    ensures
        first_theme_quote(lowered, verses, mark, fallback).take(mark.len() as int) == mark,
    decreases verses.len(),
{
    if verses.len() == 0 {
    } else if has_substring(lowered, verses[0].0) {
        let q = mark + verses[0].1 + " – "@ + verses[0].0;
        assert(q.take(mark.len() as int) =~= mark);
    } else {
        first_theme_quote_keeps_mark(lowered, verses.drop_first(), mark, fallback);
    }
}

/// Every quote given for "chrétien" starts with the book mark "📖 ", and
/// every quote given for "musulman" with the dove mark "🕊️ ", whatever the
/// subject.
pub proof fn quotes_carry_their_mark(lowered: Seq<char>)
    ensures
        quote_for(lowered, "chrétien"@).take("📖 "@.len() as int) == "📖 "@,
        quote_for(lowered, "musulman"@).take("🕊️ "@.len() as int) == "🕊️ "@,
{
    reveal_strlit("chrétien");
    reveal_strlit("musulman");
    reveal_strlit("📖 ");
    reveal_strlit("🕊️ ");
    reveal_strlit("📖 Psaume 37:25 : Je n'ai jamais vu le juste abandonné.");
    reveal_strlit("🕊️ Sourate 94:5 : Oui, avec la difficulté vient la facilité.");
    let book = "📖 "@;
    let dove = "🕊️ "@;
    let bible_fallback = "📖 Psaume 37:25 : Je n'ai jamais vu le juste abandonné."@;
    let quran_fallback = "🕊️ Sourate 94:5 : Oui, avec la difficulté vient la facilité."@;
    assert(bible_fallback.take(book.len() as int) =~= book);
    assert(quran_fallback.take(dove.len() as int) =~= dove);
    assert("chrétien"@[0] != "musulman"@[0]);
    first_theme_quote_keeps_mark(lowered, bible_verses(), book, bible_fallback);
    first_theme_quote_keeps_mark(lowered, quran_verses(), dove, quran_fallback);
}

/// Which quote a subject gets, for a subject of any length: for
/// "chrétien", the verse of the first of "amour", "partage", "espoir" that
/// the lowercased subject contains, marked with "📖 " and followed by a
/// dash and the theme, and Psalm 37:25 only when it contains none of them;
/// for "musulman", likewise with "compassion" and "generosite" and Sura
/// 94:5; for any other religion, the general sentence on kindness.
pub proof fn quote_follows_listed_themes(lowered: Seq<char>, religion: Seq<char>)
    ensures
        has_substring(lowered, "amour"@)
            ==> quote_for(lowered, "chrétien"@) == "📖 "@ + "1 Corinthiens 13:7 : L'amour supporte tout, croit tout, espère tout, endure tout."@ + " – "@ + "amour"@,
        !has_substring(lowered, "amour"@) && has_substring(lowered, "partage"@)
            ==> quote_for(lowered, "chrétien"@) == "📖 "@ + "Actes 20:35 : Il y a plus de bonheur à donner qu'à recevoir."@ + " – "@ + "partage"@,
        !has_substring(lowered, "amour"@) && !has_substring(lowered, "partage"@) && has_substring(lowered, "espoir"@)
            ==> quote_for(lowered, "chrétien"@) == "📖 "@ + "Jérémie 29:11 : Je connais les projets que j'ai pour vous, des projets de paix."@ + " – "@ + "espoir"@,
        !has_substring(lowered, "amour"@) && !has_substring(lowered, "partage"@) && !has_substring(lowered, "espoir"@)
            ==> quote_for(lowered, "chrétien"@) == "📖 Psaume 37:25 : Je n'ai jamais vu le juste abandonné."@,
        has_substring(lowered, "compassion"@)
            ==> quote_for(lowered, "musulman"@) == "🕊️ "@ + "Sourate 21:107 : Nous ne t'avons envoyé que par miséricorde pour l'univers."@ + " – "@ + "compassion"@,
        !has_substring(lowered, "compassion"@) && has_substring(lowered, "generosite"@)
            ==> quote_for(lowered, "musulman"@) == "🕊️ "@ + "Sourate 2:261 : Ceux qui dépensent leurs biens dans le chemin d'Allah ressemblent à un grain qui produit sept épis."@ + " – "@ + "generosite"@,
        !has_substring(lowered, "compassion"@) && !has_substring(lowered, "generosite"@)
            ==> quote_for(lowered, "musulman"@) == "🕊️ Sourate 94:5 : Oui, avec la difficulté vient la facilité."@,
        religion != "chrétien"@ && religion != "musulman"@ ==> quote_for(lowered, religion)
            == "Chaque tradition enseigne la bonté et le partage."@,
{
    reveal_with_fuel(first_theme_quote, 4);
    assert(bible_verses().drop_first() =~= seq![("partage"@, "Actes 20:35 : Il y a plus de bonheur à donner qu'à recevoir."@), ("espoir"@, "Jérémie 29:11 : Je connais les projets que j'ai pour vous, des projets de paix."@)]);
    assert(bible_verses().drop_first().drop_first() =~= seq![("espoir"@, "Jérémie 29:11 : Je connais les projets que j'ai pour vous, des projets de paix."@)]);
    assert(bible_verses().drop_first().drop_first().drop_first() =~= Seq::<(Seq<char>, Seq<char>)>::empty());
    assert(quran_verses().drop_first() =~= seq![("generosite"@, "Sourate 2:261 : Ceux qui dépensent leurs biens dans le chemin d'Allah ressemblent à un grain qui produit sept épis."@)]);
    assert(quran_verses().drop_first().drop_first() =~= Seq::<(Seq<char>, Seq<char>)>::empty());
    reveal_strlit("chrétien");
    reveal_strlit("musulman");
    assert("chrétien"@[0] != "musulman"@[0]);
}

} // verus!
