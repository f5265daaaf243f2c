use bakome_ai_bot::{
    analyser_humeur, citation_religieuse, detect_mood, mood_of_lowered, quote_for_lowered, Mood,
};

#[test]
fn positive_word_gives_positive_mood() {
    assert_eq!(analyser_humeur("Merci beaucoup !"), "positive");
    assert_eq!(analyser_humeur("Bravo pour ton travail"), "positive");
}

#[test]
fn negative_word_gives_negative_mood() {
    assert_eq!(analyser_humeur("Je suis TRISTE aujourd'hui"), "negative");
    assert_eq!(analyser_humeur("je suis seul ce soir"), "negative");
}

#[test]
fn accented_uppercase_word_is_lowercased() {
    assert_eq!(analyser_humeur("Je suis FATIGUÉ"), "negative");
}

#[test]
fn neither_word_gives_neutral_mood() {
    assert_eq!(analyser_humeur("Bonjour, quelle heure est-il ?"), "neutre");
    assert_eq!(analyser_humeur(""), "neutre");
}

#[test]
fn positive_outweighs_negative() {
    assert_eq!(analyser_humeur("merci, même si je suis triste"), "positive");
    assert_eq!(detect_mood("triste mais super"), Mood::Positive);
}

#[test]
fn keywords_match_inside_words() {
    // "mal" occurs inside "normal"
    assert_eq!(analyser_humeur("tout est normal"), "negative");
}

#[test]
fn lowered_text_is_taken_as_is() {
    assert_eq!(mood_of_lowered("TRISTE"), Mood::Neutral);
    assert_eq!(mood_of_lowered("triste"), Mood::Negative);
}

#[test]
fn mood_labels() {
    assert_eq!(Mood::Positive.label(), "positive");
    assert_eq!(Mood::Negative.label(), "negative");
    assert_eq!(Mood::Neutral.label(), "neutre");
}

#[test]
fn christian_quote_by_theme() {
    assert_eq!(
        citation_religieuse("Parlons d'AMOUR", "chrétien"),
        "📖 1 Corinthiens 13:7 : L'amour supporte tout, croit tout, espère tout, endure tout. – amour"
    );
}

#[test]
fn first_theme_in_list_order_wins() {
    // "partage" comes before "espoir" in the list, whatever the order in the text
    assert_eq!(
        citation_religieuse("espoir et partage", "chrétien"),
        "📖 Actes 20:35 : Il y a plus de bonheur à donner qu'à recevoir. – partage"
    );
    assert_eq!(
        citation_religieuse("de l'espoir", "chrétien"),
        "📖 Jérémie 29:11 : Je connais les projets que j'ai pour vous, des projets de paix. – espoir"
    );
}

#[test]
fn christian_default_quote() {
    assert_eq!(
        citation_religieuse("rien de spécial", "chrétien"),
        "📖 Psaume 37:25 : Je n'ai jamais vu le juste abandonné."
    );
}

#[test]
fn muslim_quote_by_theme() {
    assert_eq!(
        citation_religieuse("Un peu de COMPASSION", "musulman"),
        "🕊️ Sourate 21:107 : Nous ne t'avons envoyé que par miséricorde pour l'univers. – compassion"
    );
    assert_eq!(
        citation_religieuse("generosite", "musulman"),
        "🕊️ Sourate 2:261 : Ceux qui dépensent leurs biens dans le chemin d'Allah ressemblent à un grain qui produit sept épis. – generosite"
    );
}

#[test]
fn muslim_default_quote() {
    // the theme is written without accents, so "générosité" does not match it
    assert_eq!(
        citation_religieuse("générosité", "musulman"),
        "🕊️ Sourate 94:5 : Oui, avec la difficulté vient la facilité."
    );
}

#[test]
fn other_religion_gets_general_word() {
    let general = "Chaque tradition enseigne la bonté et le partage.";
    assert_eq!(citation_religieuse("amour", "neutre"), general);
    assert_eq!(citation_religieuse("amour", "Chrétien"), general);
    assert_eq!(citation_religieuse("amour", ""), general);
}

#[test]
fn quotes_carry_their_mark_on_examples() {
    assert!(citation_religieuse("quoi que ce soit", "chrétien").starts_with("📖 "));
    assert!(citation_religieuse("amour", "chrétien").starts_with("📖 "));
    assert!(citation_religieuse("quoi que ce soit", "musulman").starts_with("🕊️ "));
    assert!(citation_religieuse("compassion", "musulman").starts_with("🕊️ "));
}

#[test]
fn quote_for_lowered_takes_text_as_is() {
    assert_eq!(
        quote_for_lowered("AMOUR", "chrétien"),
        "📖 Psaume 37:25 : Je n'ai jamais vu le juste abandonné."
    );
}
