use bakome_ai_bot::{
    ai_prompt, ai_reply, compose_reply, fallback_reply, generate_endpoint, generer_blague,
    generer_reponse_spirituelle, joke_at, message_excerpt, Mood,
};

const JOKES: [&str; 3] = [
    "Pourquoi les développeurs détestent la nature ? Parce qu'il y a trop de bugs 🐛",
    "Pourquoi les programmeurs confondent toujours Noël et Halloween ? Parce que Oct 31 = Dec 25 🎄",
    "Un testeur entre dans un bar. Il commande une bière. Il commande 0 bière. Il commande 999999999 bières. Il commande un canard. La serveuse dit : 'Mais vous êtes fou ?' Le testeur répond : 'Je vérifie les cas limites.'",
];

#[test]
fn jokes_by_number() {
    for (i, joke) in JOKES.iter().enumerate() {
        assert_eq!(joke_at(i), *joke);
    }
}

#[test]
fn random_joke_is_a_known_joke() {
    for _ in 0..50 {
        let j = generer_blague();
        assert!(JOKES.contains(&j.as_str()));
    }
}

#[test]
fn reply_without_joke() {
    assert_eq!(
        compose_reply(Mood::Positive, "Q", "IA", None),
        "😊 Humeur détectée: positive\n\nQ\n\nIA"
    );
}

#[test]
fn reply_with_joke() {
    assert_eq!(
        compose_reply(Mood::Negative, "Q", "IA", Some("J")),
        "😊 Humeur détectée: negative\n\nQ\n\nIA\n\n😂 Tiens, une petite blague pour te changer les idées : J"
    );
}

#[test]
fn spiritual_reply_for_positive_message() {
    assert_eq!(
        generer_reponse_spirituelle("Merci pour tout", "neutre", "Bonne journée"),
        "😊 Humeur détectée: positive\n\nChaque tradition enseigne la bonté et le partage.\n\nBonne journée"
    );
}

#[test]
fn spiritual_reply_for_neutral_message() {
    assert_eq!(
        generer_reponse_spirituelle("Parle-moi d'amour", "chrétien", "IA"),
        "😊 Humeur détectée: neutre\n\n📖 1 Corinthiens 13:7 : L'amour supporte tout, croit tout, espère tout, endure tout. – amour\n\nIA"
    );
}

#[test]
fn spiritual_reply_for_negative_message_adds_a_joke() {
    let head = "😊 Humeur détectée: negative\n\n📖 Psaume 37:25 : Je n'ai jamais vu le juste abandonné.\n\nIA\n\n😂 Tiens, une petite blague pour te changer les idées : ";
    for _ in 0..20 {
        let r = generer_reponse_spirituelle("Je suis triste", "chrétien", "IA");
        assert!(r.starts_with(head));
        let joke = &r[head.len()..];
        assert!(JOKES.contains(&joke));
    }
}

#[test]
fn reply_opens_with_mood_on_examples() {
    for text in ["merci", "triste", "rien"] {
        let mood = bakome_ai_bot::analyser_humeur(text);
        let r = generer_reponse_spirituelle(text, "musulman", "x");
        assert!(r.starts_with(&format!("😊 Humeur détectée: {}", mood)));
    }
}

#[test]
fn prompt_and_endpoint() {
    assert_eq!(
        ai_prompt("Bonjour", "humoriste"),
        "Style: humoriste. Réponds avec empathie, parfois avec humour, parfois avec sagesse: Bonjour"
    );
    assert_eq!(
        generate_endpoint("http://localhost:11434"),
        "http://localhost:11434/api/generate"
    );
}

#[test]
fn short_message_is_quoted_whole() {
    assert_eq!(message_excerpt("Salut"), "Salut");
    assert_eq!(message_excerpt(""), "");
    let fifty = "a".repeat(50);
    assert_eq!(message_excerpt(&fifty), fifty);
}

#[test]
fn long_message_is_cut_at_fifty_bytes() {
    let long = "abcdefghij".repeat(8);
    assert_eq!(message_excerpt(&long), &long[..50]);
    // two-byte characters: 25 of them make 50 bytes
    let accents = "é".repeat(40);
    assert_eq!(message_excerpt(&accents), "é".repeat(25));
}

#[test]
fn fallback_reply_quotes_message_and_style() {
    assert_eq!(
        fallback_reply("Aide-moi", "pasteur"),
        "(Simulation IA) Je comprends ton message 'Aide-moi' en style 'pasteur'. Je vais t'aider."
    );
    let long = "x".repeat(70);
    assert_eq!(
        fallback_reply(&long, "bienveillant"),
        format!(
            "(Simulation IA) Je comprends ton message '{}' en style 'bienveillant'. Je vais t'aider.",
            "x".repeat(50)
        )
    );
}

#[test]
fn ai_reply_prefers_generated_text() {
    assert_eq!(ai_reply(Some("Réponse du modèle".to_string()), "q", "s"), "Réponse du modèle");
    assert_eq!(
        ai_reply(None, "q", "s"),
        "(Simulation IA) Je comprends ton message 'q' en style 's'. Je vais t'aider."
    );
}
