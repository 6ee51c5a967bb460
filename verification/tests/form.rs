use atacc_inscription::form::{status_after_reply, submit_form, FormFields, FormStatus, FormSubmission};
use atacc_inscription::registration::RegistrationOutcome;

fn fields(f: &str, l: &str, e: &str, p: &str, n: &str) -> FormFields {
    FormFields {
        first_names: f.to_string(),
        last_names: l.to_string(),
        email: e.to_string(),
        phone: p.to_string(),
        student_number: n.to_string(),
    }
}

#[test]
fn blank_required_field_is_refused() {
    let msg = "Merci de renseigner au moins ton prénom, ton nom et ton email.".to_string();
    assert_eq!(submit_form(fields("Léa", "Dupont", "  ", "", "")), Err(FormStatus::Error(msg.clone())));
    assert_eq!(submit_form(fields("", "Dupont", "a@b.fr", "", "")), Err(FormStatus::Error(msg.clone())));
    assert_eq!(submit_form(fields("Léa", "\t", "a@b.fr", "", "")), Err(FormStatus::Error(msg)));
}

#[test]
fn submission_sends_inputs_as_typed() {
    assert_eq!(
        submit_form(fields(" Léa ", "Dupont", " A@B.fr", " 0612 ", "  ")),
        Ok(FormSubmission {
            first_names: " Léa ".to_string(),
            last_names: "Dupont".to_string(),
            email: " A@B.fr".to_string(),
            phone: Some(" 0612 ".to_string()),
            student_number: None,
        })
    );
}

#[test]
fn statuses_after_reply() {
    let (s, clear) = status_after_reply(Ok(RegistrationOutcome::EmailSent));
    assert!(clear);
    assert_eq!(s, FormStatus::Success("Un email de confirmation vient de t'être envoyé. Vérifie ta boîte de réception (et tes spams) pour valider ton inscription.".to_string()));
    let (s, clear) = status_after_reply(Ok(RegistrationOutcome::AlreadyVerified));
    assert!(!clear);
    assert_eq!(s, FormStatus::Success("Cette adresse est déjà inscrite et confirmée : pas besoin de refaire quoi que ce soit !".to_string()));
    let (s, clear) = status_after_reply(Err("boom".to_string()));
    assert!(!clear);
    assert_eq!(s, FormStatus::Error("boom".to_string()));
}

#[test]
fn button_follows_status() {
    assert!(FormStatus::Submitting.is_submitting());
    assert!(!FormStatus::Idle.is_submitting());
    assert_eq!(FormStatus::Submitting.button_label(), "Envoi en cours…");
    assert_eq!(FormStatus::Error("x".to_string()).button_label(), "S'inscrire");
}
