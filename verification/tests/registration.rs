use atacc_inscription::registration::{
    prepare_registration, registration_outcome, registration_reply, Registration,
    RegistrationError, RegistrationOutcome,
};
use atacc_inscription::store::PendingRegistration;

fn s(v: &str) -> String {
    v.to_string()
}

#[test]
fn registration_is_cleaned_up() {
    let r = prepare_registration(
        s("  Léa "),
        s(" Dupont\t"),
        s("  Lea.Dupont@Univ.FR "),
        Some(s(" 06 12 34 56 78 ")),
        Some(s("   ")),
    );
    assert_eq!(
        r,
        Ok(Registration {
            first_names: s("Léa"),
            last_names: s("Dupont"),
            email: s("lea.dupont@univ.fr"),
            phone: Some(s("06 12 34 56 78")),
            student_number: None,
        })
    );
}

#[test]
fn address_is_lowercased_beyond_ascii() {
    let r = prepare_registration(s("A"), s("B"), s("ÉLODIE@EXEMPLE.FR"), None, None).unwrap();
    assert_eq!(r.email, "élodie@exemple.fr");
}

#[test]
fn blank_names_are_refused() {
    let r = prepare_registration(s("  "), s("Dupont"), s("a@b.fr"), None, None);
    assert_eq!(r, Err(RegistrationError::MissingName));
    let r = prepare_registration(s("Léa"), s(""), s("not an address"), None, None);
    assert_eq!(r, Err(RegistrationError::MissingName));
}

#[test]
fn implausible_addresses_are_refused() {
    assert_eq!(
        prepare_registration(s("Léa"), s("Dupont"), s("lea.dupont"), None, None),
        Err(RegistrationError::InvalidEmail)
    );
    assert_eq!(
        prepare_registration(s("Léa"), s("Dupont"), s("lea@univ"), None, None),
        Err(RegistrationError::InvalidEmail)
    );
}

#[test]
fn refusal_messages() {
    assert_eq!(RegistrationError::MissingName.message(), "Merci de renseigner ton prénom et ton nom.");
    assert_eq!(RegistrationError::InvalidEmail.message(), "Cette adresse email ne semble pas valide.");
    assert_eq!(
        RegistrationError::Database(s("disk full")).message(),
        "Erreur base de données : disk full"
    );
    assert_eq!(
        RegistrationError::EmailDelivery(s("relay refused")).message(),
        "Erreur d'envoi d'email : relay refused"
    );
}

#[test]
fn outcome_never_carries_the_token() {
    assert_eq!(
        registration_outcome(&PendingRegistration::New { token: s("t") }),
        RegistrationOutcome::EmailSent
    );
    assert_eq!(
        registration_outcome(&PendingRegistration::Resent { token: s("t") }),
        RegistrationOutcome::EmailSent
    );
    assert_eq!(
        registration_outcome(&PendingRegistration::AlreadyVerified),
        RegistrationOutcome::AlreadyVerified
    );
}

#[test]
fn reply_reports_delivery_failure() {
    let pending = PendingRegistration::New { token: s("t") };
    assert_eq!(registration_reply(&pending, Ok(())), Ok(RegistrationOutcome::EmailSent));
    assert_eq!(
        registration_reply(&pending, Err(s("timeout"))),
        Err(RegistrationError::EmailDelivery(s("timeout")))
    );
    assert_eq!(
        registration_reply(&PendingRegistration::AlreadyVerified, Err(s("unused"))),
        Ok(RegistrationOutcome::AlreadyVerified)
    );
}
