//! The request sent to the AI model and the reply used when it gives none.

use vstd::prelude::*;
use vstd::utf8::{
    decode_utf8, decode_utf8_encode_utf8, decode_utf8_split, encode_utf8, encode_utf8_decode_utf8,
    encode_utf8_valid_utf8, is_char_boundary, valid_utf8_split,
};

verus! {

/// The most bytes of the user's message that the fallback reply quotes.
pub const EXCERPT_MAX_BYTES: usize = 50;

/// How many bytes of the message the fallback reply quotes: all of them, up
/// to `EXCERPT_MAX_BYTES`.
pub open spec fn excerpt_len(prompt: Seq<char>) -> int {
    let n = encode_utf8(prompt).len();
    if n < EXCERPT_MAX_BYTES {
        n as int
    } else {
        EXCERPT_MAX_BYTES as int
    }
}

/// The message can be cut after `excerpt_len` bytes without splitting a
/// character.
pub open spec fn excerpt_cut_ok(prompt: Seq<char>) -> bool {
    is_char_boundary(encode_utf8(prompt), excerpt_len(prompt))
}

/// The characters of the first `excerpt_len` bytes of the message.
pub open spec fn excerpt(prompt: Seq<char>) -> Seq<char> {
    decode_utf8(encode_utf8(prompt).subrange(0, excerpt_len(prompt)))
}

/// The first bytes of a message, as many as the fallback reply quotes.
pub fn message_excerpt(prompt: &str) -> (r: &str)
    requires
        encode_utf8(prompt@).len() <= usize::MAX,
        excerpt_cut_ok(prompt@),
    ensures
        r@ == excerpt(prompt@),
{
    let n: usize = if prompt.len() < EXCERPT_MAX_BYTES {
        prompt.len()
    } else {
        EXCERPT_MAX_BYTES
    };
    let (head, _tail) = prompt.split_at(n);
    proof {
        encode_utf8_decode_utf8(head@);
    }
    head
}

/// The quoted excerpt is a prefix of the message, encoded in at most
/// `EXCERPT_MAX_BYTES` bytes, and it is the whole message when the message
/// is that short.
pub proof fn excerpt_is_prefix(prompt: Seq<char>)
    requires
        excerpt_cut_ok(prompt),
    ensures
        excerpt(prompt) == prompt.take(excerpt(prompt).len() as int),
        encode_utf8(excerpt(prompt)).len() == excerpt_len(prompt),
        excerpt_len(prompt) <= EXCERPT_MAX_BYTES,
        encode_utf8(prompt).len() <= EXCERPT_MAX_BYTES ==> excerpt(prompt) == prompt,
{
    let bytes = encode_utf8(prompt);
    let n = excerpt_len(prompt);
    encode_utf8_valid_utf8(prompt);
    encode_utf8_decode_utf8(prompt);
    decode_utf8_split(bytes, n);
    valid_utf8_split(bytes, n);
    decode_utf8_encode_utf8(bytes.subrange(0, n));
    let head = excerpt(prompt);
    let rest = decode_utf8(bytes.subrange(n, bytes.len() as int));
    assert(prompt == head + rest);
    assert(prompt.take(head.len() as int) =~= head);
    if bytes.len() <= EXCERPT_MAX_BYTES {
        assert(bytes.subrange(0, n) =~= bytes);
    }
}

/// The prompt sent to the model: the style, then the message.
pub open spec fn prompt_text(prompt: Seq<char>, style: Seq<char>) -> Seq<char> {
    "Style: "@ + style + ". Réponds avec empathie, parfois avec humour, parfois avec sagesse: "@
        + prompt
}

/// The full prompt that the model receives for a message and a style.
pub fn ai_prompt(prompt: &str, style: &str) -> (r: String)
    ensures
        r@ == prompt_text(prompt@, style@),
{
    let mut r = String::from_str("Style: ");
    r.append(style);
    r.append(". Réponds avec empathie, parfois avec humour, parfois avec sagesse: ");
    r.append(prompt);
    r
}

/// The address of the generation endpoint of a model server.
pub open spec fn endpoint_text(base_url: Seq<char>) -> Seq<char> {
    base_url + "/api/generate"@
}

/// The generation endpoint of the model server at `base_url`.
pub fn generate_endpoint(base_url: &str) -> (r: String)
    ensures
        r@ == endpoint_text(base_url@),
{
    let mut r = String::from_str(base_url);
    r.append("/api/generate");
    r
}

/// The reply given when the model gives none: it quotes the start of the
/// message and the style.
pub open spec fn fallback_text(prompt: Seq<char>, style: Seq<char>) -> Seq<char> {
    "(Simulation IA) Je comprends ton message '"@ + excerpt(prompt) + "' en style '"@ + style
        + "'. Je vais t'aider."@
}

/// The reply given when the model gives none.
pub fn fallback_reply(prompt: &str, style: &str) -> (r: String)
    requires
        encode_utf8(prompt@).len() <= usize::MAX,
        excerpt_cut_ok(prompt@),
    ensures
        r@ == fallback_text(prompt@, style@),
{
    let mut r = String::from_str("(Simulation IA) Je comprends ton message '");
    r.append(message_excerpt(prompt));
    r.append("' en style '");
    r.append(style);
    r.append("'. Je vais t'aider.");
    r
}

/// The AI part of a reply: the text that the model generated, or the
/// fallback reply when it generated none.
pub fn ai_reply(generated: Option<String>, prompt: &str, style: &str) -> (r: String)
    requires
        encode_utf8(prompt@).len() <= usize::MAX,
        generated is None ==> excerpt_cut_ok(prompt@),
    ensures
        r@ == match generated {
            Some(t) => t@,
            None => fallback_text(prompt@, style@),
        },
{
    match generated {
        Some(t) => t,
        None => fallback_reply(prompt, style),
    }
}

} // verus!
