//! Settings read from the environment, with their defaults.

use vstd::prelude::*;

verus! {

/// A setting of the assistant.
#[derive(Clone, Copy, Debug, PartialEq, Eq, Structural)]
pub enum Setting {
    SmtpRelay,
    SmtpUser,
    SmtpPass,
    FromEmail,
    RedisUrl,
    OllamaUrl,
    OllamaModel,
}

/// The environment variable that holds a setting.
pub open spec fn setting_name(s: Setting) -> Seq<char> {
    match s {
        Setting::SmtpRelay => "SMTP_RELAY"@,
        Setting::SmtpUser => "SMTP_USER"@,
        Setting::SmtpPass => "SMTP_PASS"@,
        Setting::FromEmail => "FROM_EMAIL"@,
        Setting::RedisUrl => "REDIS_URL"@,
        Setting::OllamaUrl => "OLLAMA_URL"@,
        Setting::OllamaModel => "OLLAMA_MODEL"@,
    }
}

/// The value a setting takes when its variable is not set.
pub open spec fn setting_default(s: Setting) -> Seq<char> {
    match s {
        Setting::SmtpRelay => "smtp.gmail.com"@,
        Setting::SmtpUser => ""@,
        Setting::SmtpPass => ""@,
        Setting::FromEmail => "bot@localhost"@,
        Setting::RedisUrl => "redis://127.0.0.1/"@,
        Setting::OllamaUrl => "http://localhost:11434"@,
        Setting::OllamaModel => "llama3.2"@,
    }
}

impl Setting {
    /// The environment variable that holds this setting.
    pub fn env_name(&self) -> (r: &'static str)
        ensures
            r@ == setting_name(*self),
    {
        match self {
            Setting::SmtpRelay => "SMTP_RELAY",
            Setting::SmtpUser => "SMTP_USER",
            Setting::SmtpPass => "SMTP_PASS",
            Setting::FromEmail => "FROM_EMAIL",
            Setting::RedisUrl => "REDIS_URL",
            Setting::OllamaUrl => "OLLAMA_URL",
            Setting::OllamaModel => "OLLAMA_MODEL",
        }
    }

    /// The value this setting takes when its variable is not set.
    pub fn default_value(&self) -> (r: &'static str)
        ensures
            r@ == setting_default(*self),
    {
        match self {
            Setting::SmtpRelay => "smtp.gmail.com",
            Setting::SmtpUser => "",
            Setting::SmtpPass => "",
            Setting::FromEmail => "bot@localhost",
            Setting::RedisUrl => "redis://127.0.0.1/",
            Setting::OllamaUrl => "http://localhost:11434",
            Setting::OllamaModel => "llama3.2",
        }
    }

    /// The value of this setting: the variable's value when it is set,
    /// the default otherwise.
    pub fn resolve(&self, value: Option<String>) -> (r: String)
        ensures
            r@ == match value {
                Some(v) => v@,
                None => setting_default(*self),
            },
    {
        match value {
            Some(v) => v,
            None => String::from_str(self.default_value()),
        }
    }
}

/// Each setting is read from its own variable and has its own default:
/// the SMTP relay from SMTP_RELAY (smtp.gmail.com), the SMTP user from
/// SMTP_USER and the password from SMTP_PASS (both empty), the sender from
/// FROM_EMAIL (bot@localhost), Redis from REDIS_URL (redis://127.0.0.1/),
/// the model server from OLLAMA_URL (http://localhost:11434) and the model
/// from OLLAMA_MODEL (llama3.2).
pub proof fn settings_have_their_own_variables()
    ensures
        setting_name(Setting::SmtpRelay) == "SMTP_RELAY"@,
        setting_default(Setting::SmtpRelay) == "smtp.gmail.com"@,
        setting_name(Setting::SmtpUser) == "SMTP_USER"@,
        setting_default(Setting::SmtpUser) == ""@,
        setting_name(Setting::SmtpPass) == "SMTP_PASS"@,
        setting_default(Setting::SmtpPass) == ""@,
        setting_name(Setting::FromEmail) == "FROM_EMAIL"@,
        setting_default(Setting::FromEmail) == "bot@localhost"@,
        setting_name(Setting::RedisUrl) == "REDIS_URL"@,
        setting_default(Setting::RedisUrl) == "redis://127.0.0.1/"@,
        setting_name(Setting::OllamaUrl) == "OLLAMA_URL"@,
        setting_default(Setting::OllamaUrl) == "http://localhost:11434"@,
        setting_name(Setting::OllamaModel) == "OLLAMA_MODEL"@,
        setting_default(Setting::OllamaModel) == "llama3.2"@,
{
}

} // verus!
