//! The decisions of the registration form in the browser: what a submission
//! sends, and what the form shows afterwards.

use vstd::prelude::*;
use vstd::string::*;

use crate::registration::{opt_seq, RegistrationOutcome};
use crate::text::{trim, trimmed};

verus! {

/// What the form shows under its button.
#[derive(Debug, PartialEq, Eq)]
#[derive(Clone)]
pub enum FormStatus {
    Idle,
    Submitting,
    Success(String),
    Error(String),
}

/// The five inputs of the form, as typed.
pub struct FormFields {
    pub first_names: String,
    pub last_names: String,
    pub email: String,
    pub phone: String,
    pub student_number: String,
}

/// What a submission sends to the server.
#[derive(Debug, PartialEq, Eq)]
pub struct FormSubmission {
    pub first_names: String,
    pub last_names: String,
    pub email: String,
    pub phone: Option<String>,
    pub student_number: Option<String>,
}

/// The message shown when a required field is blank.
pub open spec fn missing_fields_text() -> Seq<char> {
    "Merci de renseigner au moins ton prénom, ton nom et ton email."@
}

/// The message shown once the confirmation e-mail is on its way.
pub open spec fn email_sent_text() -> Seq<char> {
    "Un email de confirmation vient de t'être envoyé. Vérifie ta boîte de réception (et tes spams) pour valider ton inscription."@
}

/// The message shown when the address was already confirmed.
pub open spec fn already_verified_text() -> Seq<char> {
    "Cette adresse est déjà inscrite et confirmée : pas besoin de refaire quoi que ce soit !"@
}

/// An optional input as sent: as typed, and absent when blank.
pub open spec fn sent_optional(s: Seq<char>) -> Option<Seq<char>> {
    if trim(s).len() == 0 {
        None
    } else {
        Some(s)
    }
}

/// An optional input is sent exactly as typed, whatever its length, unless
/// it is blank, and then it is left out.
pub proof fn lemma_optional_input_sent_as_typed(s: Seq<char>)
    ensures
        trim(s).len() > 0 ==> sent_optional(s) == Some(s),
        trim(s).len() == 0 ==> sent_optional(s) is None,
{
}

/// Whether a text is blank once trimmed.
fn is_blank(s: &str) -> (b: bool)
    ensures
        b == (trim(s@).len() == 0),
{
    let t = trimmed(s);
    t.as_str().is_empty()
}

/// A submission of the form: refused with the message of
/// [`missing_fields_text`] when a name or the address is blank; otherwise the
/// inputs as typed, the optional ones left out when blank.
pub fn submit_form(fields: FormFields) -> (r: Result<FormSubmission, FormStatus>)
    ensures
        r is Err <==> (trim(fields.first_names@).len() == 0 || trim(fields.last_names@).len() == 0
            || trim(fields.email@).len() == 0),
        r matches Err(s) ==> (s matches FormStatus::Error(m) && m@ == missing_fields_text()),
        r matches Ok(sub) ==> {
            &&& sub.first_names == fields.first_names
            &&& sub.last_names == fields.last_names
            &&& sub.email == fields.email
            &&& opt_seq(sub.phone) == sent_optional(fields.phone@)
            &&& opt_seq(sub.student_number) == sent_optional(fields.student_number@)
            &&& (trim(fields.phone@).len() > 0 ==> sub.phone == Some(fields.phone))
            &&& (trim(fields.phone@).len() == 0 ==> sub.phone is None)
            &&& (trim(fields.student_number@).len() > 0 ==> sub.student_number == Some(
                fields.student_number,
            ))
            &&& (trim(fields.student_number@).len() == 0 ==> sub.student_number is None)
        },
{
    if is_blank(fields.first_names.as_str()) || is_blank(fields.last_names.as_str()) || is_blank(
        fields.email.as_str(),
    ) {
        return Err(
            FormStatus::Error(
                String::from_str("Merci de renseigner au moins ton prénom, ton nom et ton email."),
            ),
        );
    }
    let phone = if is_blank(fields.phone.as_str()) {
        None
    } else {
        Some(fields.phone)
    };
    let student_number = if is_blank(fields.student_number.as_str()) {
        None
    } else {
        Some(fields.student_number)
    };
    Ok(
        FormSubmission {
            first_names: fields.first_names,
            last_names: fields.last_names,
            email: fields.email,
            phone,
            student_number,
        },
    )
}

/// What the form shows once the server answered, and whether its inputs are
/// emptied: they are only after an e-mail was sent. A refusal shows the
/// server's message `error` as it came.
pub fn status_after_reply(reply: Result<RegistrationOutcome, String>) -> (r: (FormStatus, bool))
    ensures
        match reply {
            Ok(RegistrationOutcome::EmailSent) => r.0 matches FormStatus::Success(m)
                && m@ == email_sent_text() && r.1,
            Ok(RegistrationOutcome::AlreadyVerified) => r.0 matches FormStatus::Success(m)
                && m@ == already_verified_text() && !r.1,
            Err(e) => r.0 == FormStatus::Error(e) && !r.1,
        },
{
    match reply {
        Ok(RegistrationOutcome::EmailSent) => (
            FormStatus::Success(
                String::from_str(
                    "Un email de confirmation vient de t'être envoyé. Vérifie ta boîte de réception (et tes spams) pour valider ton inscription.",
                ),
            ),
            true,
        ),
        Ok(RegistrationOutcome::AlreadyVerified) => (
            FormStatus::Success(
                String::from_str(
                    "Cette adresse est déjà inscrite et confirmée : pas besoin de refaire quoi que ce soit !",
                ),
            ),
            false,
        ),
        Err(e) => (FormStatus::Error(e), false),
    }
}

impl FormStatus {
    /// Whether a submission is under way (the button is then disabled).
    pub fn is_submitting(&self) -> (b: bool)
        ensures
            b == (*self is Submitting),
    {
        match self {
            FormStatus::Submitting => true,
            _ => false,
        }
    }

    /// The label of the submit button.
    pub fn button_label(&self) -> (l: String)
        ensures
            l@ == if *self is Submitting {
                "Envoi en cours…"@
            } else {
                "S'inscrire"@
            },
    {
        if self.is_submitting() {
            String::from_str("Envoi en cours…")
        } else {
            String::from_str("S'inscrire")
        }
    }
}

} // verus!
