//! Verified core of the BAKOME AI-BOT assistant: mood detection, faith
//! quotes, jokes, the AI reply fallback, the grants catalogue, settings
//! and the planning of outgoing e-mail.

mod ai;
mod api;
mod config;
mod email;
mod faith;
mod grants;
mod mood;
mod reply;
mod text;

pub use ai::{
    ai_prompt, ai_reply, endpoint_text, excerpt, excerpt_cut_ok, excerpt_is_prefix, excerpt_len,
    fallback_reply, fallback_text, generate_endpoint, message_excerpt, prompt_text, EXCERPT_MAX_BYTES,
};
pub use api::{chat_request, service_stats, ChatRequest, ServiceStats};
pub use config::{setting_default, setting_name, settings_have_their_own_variables, Setting};
pub use email::{
    body_matches, dotted_alnum, dotted_parts_make_a_plain_address, is_ascii_alnum, is_ascii_letter, mailbox_parses, plain_address,
    plain_display_name, plain_mailbox, plan_email, send_failure_message, send_status, Email, EmailError,
    MailBody, OutgoingEmail, SendEmailRequest, SendStatus, WebhookConfig,
};
pub use faith::{
    bible_verses, citation_religieuse, first_theme_quote, quote_follows_listed_themes, quote_for,
    quote_for_lowered, quotes_carry_their_mark,
    quran_verses,
    verse_views,
};
pub use grants::{grant_catalog, grant_catalog_entries, scanner_subventions, Subvention, SubventionView};
pub use mood::{
    analyser_humeur, detect_mood, listed_words_decide_the_mood, mood_label, mood_of, mood_of_lowered,
    negative_words, positive_words,
    positive_words_outweigh_negative,
    Mood,
};
pub use reply::{
    compose_reply, generer_blague, generer_reponse_spirituelle, joke_at, jokes, reply_opens_with_mood,
    reply_text,
};
pub use text::{
    chars_of, contains_chars, has_substring, lowercase, mentions_any, mentions_any_word, same_text,
    text_contains,
};
