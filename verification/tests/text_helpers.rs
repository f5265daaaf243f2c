use bakome_ai_bot::{chars_of, contains_chars, mentions_any_word, same_text, text_contains};

#[test]
fn substring_search() {
    assert!(text_contains("je suis seul", "suis seul"));
    assert!(text_contains("abc", ""));
    assert!(text_contains("", ""));
    assert!(!text_contains("", "a"));
    assert!(!text_contains("ab", "abc"));
    assert!(text_contains("aab", "ab"));
    assert!(text_contains("fatigué", "gué"));
    assert!(!text_contains("fatigue", "gué"));
}

#[test]
fn char_vectors() {
    assert_eq!(chars_of("aé😊"), vec!['a', 'é', '😊']);
    assert!(contains_chars(&vec!['x', 'y', 'z'], &vec!['y', 'z']));
    assert!(!contains_chars(&vec!['x', 'y'], &vec!['z']));
}

#[test]
fn text_equality() {
    assert!(same_text("chrétien", "chrétien"));
    assert!(!same_text("chrétien", "chretien"));
    assert!(!same_text("a", "ab"));
    assert!(same_text("", ""));
}

#[test]
fn any_word() {
    let text = chars_of("hello world");
    assert!(mentions_any_word(&text, &vec!["zzz", "world"]));
    assert!(!mentions_any_word(&text, &vec!["zzz"]));
    assert!(!mentions_any_word(&text, &vec![]));
}
