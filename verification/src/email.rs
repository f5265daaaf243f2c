//! E-mail records and the planning of an outgoing message.

use vstd::prelude::*;
use lettre::address::AddressError;
use lettre::message::Mailbox;

verus! {

/// An e-mail as it is kept in the processing queue.
#[derive(Clone, Debug)]
pub struct Email {
    pub id: String,
    pub from: String,
    pub to: String,
    pub subject: String,
    pub body: String,
    pub html_body: Option<String>,
    pub received_at: i64,
    pub status: String,
    pub is_spam: bool,
    pub is_phishing: bool,
    pub ai_classification: Option<String>,
}

/// A request to send an e-mail, with an optional HTML version of the body.
#[derive(Clone, Debug)]
pub struct SendEmailRequest {
    pub to: String,
    pub subject: String,
    pub body: String,
    pub html: Option<String>,
}

/// A registered webhook: the events for which `url` is called.
#[derive(Clone, Debug)]
pub struct WebhookConfig {
    pub id: String,
    pub name: String,
    pub url: String,
    pub events: Vec<String>,
}

#[verifier::external_type_specification]
#[verifier::external_body]
pub struct ExAddressError(AddressError);

#[verifier::external_type_specification]
#[verifier::external_body]
pub struct ExMailbox(Mailbox);

/// Whether lettre reads these characters as a mailbox
/// (`Name <user@domain>` or `user@domain`).
pub uninterp spec fn mailbox_parses(s: Seq<char>) -> bool;

/// An ASCII letter.
pub open spec fn is_ascii_letter(c: char) -> bool {
    ('a' <= c && c <= 'z') || ('A' <= c && c <= 'Z')
}

/// An ASCII letter or digit.
pub open spec fn is_ascii_alnum(c: char) -> bool {
    is_ascii_letter(c) || ('0' <= c && c <= '9')
}

/// Non-empty runs of ASCII letters and digits joined by single dots, such
/// as "john.doe" or "example.com".
pub open spec fn dotted_alnum(s: Seq<char>) -> bool {
    &&& s.len() > 0
    &&& is_ascii_alnum(s[0])
    &&& is_ascii_alnum(s[s.len() - 1])
    &&& forall|i: int|
        0 <= i < s.len() ==> is_ascii_alnum(#[trigger] s[i]) || (s[i] == '.' && is_ascii_alnum(
            s[i - 1],
        ) && is_ascii_alnum(s[i + 1]))
}

/// A plain address `local@domain`: a dotted local part of at most 64
/// characters and a dotted domain of at most 63.
pub open spec fn plain_address(s: Seq<char>) -> bool {
    exists|k: int|
        0 < k < s.len() && #[trigger] s[k] == '@' && dotted_alnum(s.take(k)) && s.take(k).len()
            <= 64 && dotted_alnum(s.skip(k + 1)) && s.skip(k + 1).len() <= 63
}

/// A display name: words of ASCII letters joined by single spaces.
pub open spec fn plain_display_name(s: Seq<char>) -> bool {
    &&& s.len() > 0
    &&& is_ascii_letter(s[0])
    &&& is_ascii_letter(s[s.len() - 1])
    &&& forall|i: int|
        0 <= i < s.len() ==> is_ascii_letter(#[trigger] s[i]) || (s[i] == ' ' && is_ascii_letter(
            s[i - 1],
        ) && is_ascii_letter(s[i + 1]))
}

/// A plain address, or a display name followed by a plain address in
/// angle brackets: "John Smith <john.doe@example.com>".
pub open spec fn plain_mailbox(s: Seq<char>) -> bool {
    ||| plain_address(s)
    ||| exists|n: int|
        0 < n && n + 3 < s.len() && plain_display_name(s.take(n)) && #[trigger] s[n] == ' ' && s[n
            + 1] == '<' && s[s.len() - 1] == '>' && plain_address(s.subrange(n + 2, s.len() - 1))
}

/// Parses a mailbox with `<lettre::message::Mailbox as FromStr>::from_str`.
/// The contract claims that parsing succeeds exactly when `mailbox_parses`
/// holds of the characters: the parser is deterministic, a function of its
/// argument alone. It also claims two facts that lettre's parser and its
/// address checks show: every `plain_mailbox` parses (a dot-atom local part
/// of letters and digits, at most 64 long, passes the local-part check; a
/// dotted domain of letters and digits, at most 63 long, passes the domain
/// check; a display name of letter words is a phrase), and nothing without
/// an '@' parses (the address grammar needs one). Which mailbox comes out,
/// and which `AddressError` on failure, is left unsaid.
#[verifier::external_body]
fn parse_mailbox(s: &str) -> (r: Result<Mailbox, AddressError>)
    ensures
        r is Ok <==> mailbox_parses(s@),
        plain_mailbox(s@) ==> r is Ok,
        !s@.contains('@') ==> r is Err,
{
    s.parse::<Mailbox>()
}

/// The body of an outgoing message: plain text, or plain text with an
/// HTML alternative.
#[derive(Clone, Debug)]
pub enum MailBody {
    Plain { text: String },
    Alternative { text: String, html: String },
}

/// An outgoing message whose addresses have been checked.
#[derive(Clone, Debug)]
pub struct OutgoingEmail {
    pub from: String,
    pub to: String,
    pub subject: String,
    pub body: MailBody,
}

/// Why an outgoing message could not be planned.
#[derive(Debug)]
pub enum EmailError {
    /// The sender address is not a mailbox.
    InvalidSender(AddressError),
    /// The recipient address is not a mailbox.
    InvalidRecipient(AddressError),
}

/// The body described by a text and an optional HTML version.
pub open spec fn body_matches(b: MailBody, text: Seq<char>, html: Option<Seq<char>>) -> bool {
    match html {
        Some(h) => b matches MailBody::Alternative { text: t, html: x } && t@ == text && x@ == h,
        None => b matches MailBody::Plain { text: t } && t@ == text,
    }
}

/// The plan for sending `body` (and `html`, when given) from `from_email`
/// to `to`. The sender is checked first, then the recipient.
pub fn plan_email(from_email: &str, to: &str, subject: &str, body: &str, html: Option<&str>) -> (r:
    Result<OutgoingEmail, EmailError>)
    ensures
        !mailbox_parses(from_email@) ==> r matches Err(EmailError::InvalidSender(_)),
        mailbox_parses(from_email@) && !mailbox_parses(to@) ==> r matches Err(
            EmailError::InvalidRecipient(_),
        ),
        plain_mailbox(from_email@) && plain_mailbox(to@) ==> r is Ok,
        !from_email@.contains('@') ==> r matches Err(EmailError::InvalidSender(_)),
        plain_mailbox(from_email@) && !to@.contains('@') ==> r matches Err(
            EmailError::InvalidRecipient(_),
        ),
        mailbox_parses(from_email@) && mailbox_parses(to@) ==> (r matches Ok(p) && p.from@
            == from_email@ && p.to@ == to@ && p.subject@ == subject@ && body_matches(
            p.body,
            body@,
            match html {
                Some(h) => Some(h@),
                None => None,
            },
        )),
{
    match parse_mailbox(from_email) {
        Ok(_) => {},
        Err(e) => {
            return Err(EmailError::InvalidSender(e));
        },
    }
    match parse_mailbox(to) {
        Ok(_) => {},
        Err(e) => {
            return Err(EmailError::InvalidRecipient(e));
        },
    }
    let mail_body = match html {
        Some(h) => MailBody::Alternative { text: String::from_str(body), html: String::from_str(h) },
        None => MailBody::Plain { text: String::from_str(body) },
    };
    Ok(
        OutgoingEmail {
            from: String::from_str(from_email),
            to: String::from_str(to),
            subject: String::from_str(subject),
            body: mail_body,
        },
    )
}

/// The message of the error reported when the mail server refuses a message.
pub fn send_failure_message(detail: &str) -> (r: String)
    ensures
        r@ == "Send failed: "@ + detail@,
{
    let mut r = String::from_str("Send failed: ");
    r.append(detail);
    r
}

/// What the API answers to a request to send an e-mail.
#[derive(Clone, Debug)]
pub enum SendStatus {
    /// The message went out to `to`.
    Sent { to: String },
    /// Sending failed with `message`.
    Failed { message: String },
}

impl SendStatus {
    /// The status word of the answer: "sent" or "error".
    pub fn label(&self) -> (r: &'static str)
        ensures
            r@ == (match self {
                SendStatus::Sent { .. } => "sent"@,
                SendStatus::Failed { .. } => "error"@,
            }),
    {
        match self {
            SendStatus::Sent { .. } => "sent",
            SendStatus::Failed { .. } => "error",
        }
    }
}

/// The answer to a send request, given how sending it went.
pub fn send_status(req: &SendEmailRequest, outcome: Result<(), String>) -> (r: SendStatus)
    ensures
        match outcome {
            Ok(()) => r matches SendStatus::Sent { to } && to@ == req.to@,
            Err(m) => r matches SendStatus::Failed { message } && message@ == m@,
        },
{
    match outcome {
        Ok(()) => SendStatus::Sent { to: req.to.clone() },
        Err(m) => SendStatus::Failed { message: m },
    }
}

/// Any dotted local part of at most 64 characters and dotted domain of at
/// most 63, joined by '@', make a plain address (so, by the contract of
/// `plan_email`, one that is accepted): "john.doe" and "example.com" give
/// "john.doe@example.com".
pub proof fn dotted_parts_make_a_plain_address(local: Seq<char>, domain: Seq<char>)
    requires
        dotted_alnum(local),
        local.len() <= 64,
        dotted_alnum(domain),
        domain.len() <= 63,
    ensures
        plain_address(local + seq!['@'] + domain),
        plain_mailbox(local + seq!['@'] + domain),
{
    let s = local + seq!['@'] + domain;
    let k = local.len() as int;
    assert(s[k] == '@');
    assert(s.take(k) =~= local);
    assert(s.skip(k + 1) =~= domain);
}

} // verus!
