use bakome_ai_bot::{
    chat_request, plan_email, scanner_subventions, send_failure_message, send_status,
    service_stats, EmailError, MailBody, SendEmailRequest, SendStatus, Setting,
};

#[test]
fn grant_catalogue() {
    let grants = scanner_subventions();
    assert_eq!(grants.len(), 6);
    let sources: Vec<&str> = grants.iter().map(|g| g.source.as_str()).collect();
    assert_eq!(
        sources,
        vec![
            "Gitcoin",
            "Drips Network",
            "IssueHunt",
            "NGI0 Commons Fund",
            "NSF PESOSE",
            "Stellar Drips Wave"
        ]
    );
    assert_eq!(grants[0].titre, "Open Source Software Round");
    assert_eq!(grants[0].url, "https://gitcoin.co/grants");
    assert_eq!(grants[0].montant, "Variable + matching");
    assert_eq!(grants[0].deadline, "2026-06-30");
    assert_eq!(grants[3].montant, "5k-50k €");
    assert_eq!(grants[4].montant, "Jusqu'à 300k $");
    assert_eq!(grants[5].deadline, "2026-07-01");
}

#[test]
fn grant_catalogue_is_stable() {
    let a = scanner_subventions();
    let b = scanner_subventions();
    for (x, y) in a.iter().zip(b.iter()) {
        assert_eq!(x.source, y.source);
        assert_eq!(x.url, y.url);
    }
}

#[test]
fn plain_email_plan() {
    let plan = plan_email("bot@localhost", "alice@example.com", "Hello", "Body", None).unwrap();
    assert_eq!(plan.from, "bot@localhost");
    assert_eq!(plan.to, "alice@example.com");
    assert_eq!(plan.subject, "Hello");
    match plan.body {
        MailBody::Plain { text } => assert_eq!(text, "Body"),
        MailBody::Alternative { .. } => panic!("expected a plain body"),
    }
}

#[test]
fn html_email_plan() {
    let plan = plan_email(
        "Bot <bot@example.org>",
        "alice@example.com",
        "Hi",
        "text",
        Some("<b>text</b>"),
    )
    .unwrap();
    match plan.body {
        MailBody::Alternative { text, html } => {
            assert_eq!(text, "text");
            assert_eq!(html, "<b>text</b>");
        }
        MailBody::Plain { .. } => panic!("expected an alternative body"),
    }
}

#[test]
fn invalid_sender_is_refused() {
    match plan_email("not an address", "alice@example.com", "s", "b", None) {
        Err(EmailError::InvalidSender(_)) => {}
        other => panic!("unexpected {:?}", other),
    }
}

#[test]
fn invalid_recipient_is_refused() {
    match plan_email("bot@localhost", "alice", "s", "b", None) {
        Err(EmailError::InvalidRecipient(_)) => {}
        other => panic!("unexpected {:?}", other),
    }
}

#[test]
fn sender_is_checked_first() {
    match plan_email("", "", "s", "b", None) {
        Err(EmailError::InvalidSender(_)) => {}
        other => panic!("unexpected {:?}", other),
    }
}

#[test]
fn send_failure_text() {
    assert_eq!(send_failure_message("timeout"), "Send failed: timeout");
}

#[test]
fn send_status_answers() {
    let req = SendEmailRequest {
        to: "alice@example.com".to_string(),
        subject: "s".to_string(),
        body: "b".to_string(),
        html: None,
    };
    let ok = send_status(&req, Ok(()));
    assert_eq!(ok.label(), "sent");
    match ok {
        SendStatus::Sent { to } => assert_eq!(to, "alice@example.com"),
        SendStatus::Failed { .. } => panic!("expected sent"),
    }
    let err = send_status(&req, Err("Invalid input".to_string()));
    assert_eq!(err.label(), "error");
    match err {
        SendStatus::Failed { message } => assert_eq!(message, "Invalid input"),
        SendStatus::Sent { .. } => panic!("expected failure"),
    }
}

#[test]
fn settings_and_defaults() {
    assert_eq!(Setting::SmtpRelay.env_name(), "SMTP_RELAY");
    assert_eq!(Setting::OllamaModel.env_name(), "OLLAMA_MODEL");
    assert_eq!(Setting::SmtpRelay.resolve(None), "smtp.gmail.com");
    assert_eq!(Setting::SmtpUser.resolve(None), "");
    assert_eq!(Setting::SmtpPass.resolve(None), "");
    assert_eq!(Setting::FromEmail.resolve(None), "bot@localhost");
    assert_eq!(Setting::RedisUrl.resolve(None), "redis://127.0.0.1/");
    assert_eq!(Setting::OllamaUrl.resolve(None), "http://localhost:11434");
    assert_eq!(Setting::OllamaModel.resolve(None), "llama3.2");
    assert_eq!(Setting::OllamaModel.resolve(Some("mistral".to_string())), "mistral");
    assert_eq!(Setting::SmtpUser.resolve(Some(String::new())), "");
}

#[test]
fn chat_request_defaults() {
    let r = chat_request(None, None, None);
    assert_eq!(r.message, "");
    assert_eq!(r.religion, "neutre");
    assert_eq!(r.style, "bienveillant");
    let r = chat_request(Some("salut"), Some("musulman"), Some("humoriste"));
    assert_eq!(r.message, "salut");
    assert_eq!(r.religion, "musulman");
    assert_eq!(r.style, "humoriste");
}

#[test]
fn stats_answer() {
    let s = service_stats(Some(4), 2);
    assert_eq!(s.queue_length, 4);
    assert_eq!(s.webhooks_count, 2);
    assert_eq!(s.status, "healthy");
    assert_eq!(service_stats(None, 0).queue_length, 0);
}
