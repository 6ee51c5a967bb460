use atacc_inscription::config::{default_starttls, SmtpConfig, SmtpSecurity};
use atacc_inscription::mail::{build_verification_message, verification_email, verification_link, EmailError};

fn smtp(from: &str, starttls: bool) -> SmtpConfig {
    SmtpConfig {
        host: "smtp.example.org".to_string(),
        port: 587,
        username: "atacc".to_string(),
        password: "SECRET-REDACTED".to_string(),
        from_address: from.to_string(),
        use_starttls: starttls,
    }
}

#[test]
fn link_drops_trailing_slashes() {
    assert_eq!(
        verification_link("https://atacc.org//", "abc"),
        "https://atacc.org/verify?token=abc"
    );
    assert_eq!(
        verification_link("http://127.0.0.1:3000", "t-1"),
        "http://127.0.0.1:3000/verify?token=t-1"
    );
    assert_eq!(verification_link("", "x"), "/verify?token=x");
}

#[test]
fn email_text() {
    let e = verification_email("https://atacc.org/", "Léa", "tok");
    assert_eq!(e.subject, "Confirme ton inscription à l'ATACC");
    assert_eq!(e.link, "https://atacc.org/verify?token=tok");
    assert_eq!(
        e.html,
        "<p>Salut Léa,</p><p>Merci de ton inscription à l'ATACC ! Pour confirmer ton adresse email, clique sur le lien ci-dessous :</p><p><a href=\"https://atacc.org/verify?token=tok\">Confirmer mon inscription</a></p><br><p>Si tu n'es pas à l'origine de cette inscription, tu peux ignorer ce message.</p><p>À bientôt,<br>L'équipe ATACC</p>"
    );
}

#[test]
fn message_from_valid_addresses() {
    let e = verification_email("https://atacc.org", "Léa", "tok");
    let m = build_verification_message(&smtp("ATACC <contact@atacc.org>", true), "lea@univ.fr", e);
    assert!(m.is_ok());
    let raw = String::from_utf8_lossy(&m.unwrap().into_message().formatted()).to_string();
    assert!(raw.contains("To: lea@univ.fr"));
    assert!(raw.contains("From: ATACC <contact@atacc.org>"));
    assert!(raw.contains("text/html"));
    assert!(raw.contains("Subject:"));
}

#[test]
fn invalid_sender_is_reported_first() {
    let e = verification_email("https://atacc.org", "Léa", "tok");
    let m = build_verification_message(&smtp("not an address", true), "also wrong", e);
    assert!(matches!(m, Err(EmailError::InvalidSender(_))));
}

#[test]
fn invalid_recipient() {
    let e = verification_email("https://atacc.org", "Léa", "tok");
    let m = build_verification_message(&smtp("contact@atacc.org", true), "lea.univ.fr", e);
    assert!(matches!(m, Err(EmailError::InvalidRecipient(_))));
}

#[test]
fn security_follows_configuration() {
    assert_eq!(smtp("a@b.c", true).security(), SmtpSecurity::Starttls);
    assert_eq!(smtp("a@b.c", false).security(), SmtpSecurity::Smtps);
    assert!(default_starttls());
}

#[test]
fn message_carries_link_and_greeting() {
    let e = verification_email("https://atacc.org//", "Jean", "abc-123");
    let m = build_verification_message(&smtp("contact@atacc.org", true), "jean@exemple.fr", e)
        .unwrap()
        .into_message();
    let raw = String::from_utf8_lossy(&m.formatted()).to_string();
    let unfolded = raw.replace("=\r\n", "").replace("=3D", "=");
    assert!(unfolded.contains("<p>Salut Jean,</p>"));
    assert!(unfolded.contains("<a href=\"https://atacc.org/verify?token=abc-123\">Confirmer mon inscription</a>"));
    assert_eq!(m.envelope().to().len(), 1);
    assert_eq!(m.envelope().to()[0].to_string(), "jean@exemple.fr");
}
