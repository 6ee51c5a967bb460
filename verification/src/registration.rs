//! The checks a registration goes through on the server before anything is
//! written, and the answer sent back to the browser.

use vstd::prelude::*;
use vstd::string::*;

use crate::store::PendingRegistration;
use crate::text::{has_char, trim, trimmed};

verus! {

/// Result of a registration attempt, sent back to the client.
/// It deliberately carries no verification token.
#[derive(Debug, Clone, Copy, PartialEq, Eq, Structural)]
pub enum RegistrationOutcome {
    EmailSent,
    AlreadyVerified,
}

/// A registration whose fields have been cleaned up and checked.
#[derive(Debug, PartialEq, Eq)]
pub struct Registration {
    pub first_names: String,
    pub last_names: String,
    pub email: String,
    pub phone: Option<String>,
    pub student_number: Option<String>,
}

/// Why a registration was refused.
#[derive(Debug, PartialEq, Eq)]
pub enum RegistrationError {
    /// The first or last names are blank.
    MissingName,
    /// The e-mail address lacks an `@` or a `.`.
    InvalidEmail,
    /// The users table could not be read or written; the text describes why.
    Database(String),
    /// The verification e-mail could not be built or sent; the text describes why.
    EmailDelivery(String),
}

/// The view of an optional text.
pub open spec fn opt_seq(o: Option<String>) -> Option<Seq<char>> {
    match o {
        Some(s) => Some(s@),
        None => None,
    }
}

/// An optional field as the server keeps it: trimmed, and absent when blank.
pub open spec fn optional_field(o: Option<Seq<char>>) -> Option<Seq<char>> {
    match o {
        Some(s) => if trim(s).len() == 0 { None } else { Some(trim(s)) },
        None => None,
    }
}

/// Whether both names are present once trimmed.
pub open spec fn names_present(first_names: Seq<char>, last_names: Seq<char>) -> bool {
    trim(first_names).len() > 0 && trim(last_names).len() > 0
}

/// The server's plausibility test on an (already normalised) address.
pub open spec fn email_plausible(email: Seq<char>) -> bool {
    email.contains('@') && email.contains('.')
}

/// What `str::to_lowercase` gives for `s` (Unicode lowercase mapping).
pub uninterp spec fn lowercase(s: Seq<char>) -> Seq<char>;

/// `str::to_lowercase`: the lowercase form of `s`, which depends on `s` alone.
#[verifier::external_body]
fn to_lowercase(s: &str) -> (r: String)
    ensures
        r@ == lowercase(s@),
{
    s.to_lowercase()
}

/// The e-mail address as the server stores it: trimmed, then lowercased.
pub open spec fn normalized_email(email: Seq<char>) -> Seq<char> {
    lowercase(trim(email))
}

/// An optional field, trimmed and dropped when blank.
pub fn clean_optional(o: Option<String>) -> (r: Option<String>)
    ensures
        opt_seq(r) == optional_field(opt_seq(o)),
{
    match o {
        Some(s) => {
            let t = trimmed(s.as_str());
            if t.as_str().is_empty() {
                None
            } else {
                Some(t)
            }
        },
        None => None,
    }
}

/// The checks of a registration whose address is already normalised
/// (trimmed and lowercased): names are trimmed and required, the address must
/// hold an `@` and a `.`, optional fields are trimmed and dropped when blank.
pub fn check_registration(
    first_names: &str,
    last_names: &str,
    email: String,
    phone: Option<String>,
    student_number: Option<String>,
) -> (r: Result<Registration, RegistrationError>)
    ensures
        match r {
            Ok(reg) => {
                &&& names_present(first_names@, last_names@)
                &&& email_plausible(email@)
                &&& reg.first_names@ == trim(first_names@)
                &&& reg.last_names@ == trim(last_names@)
                &&& reg.email@ == email@
                &&& opt_seq(reg.phone) == optional_field(opt_seq(phone))
                &&& opt_seq(reg.student_number) == optional_field(opt_seq(student_number))
            },
            Err(RegistrationError::MissingName) => !names_present(first_names@, last_names@),
            Err(RegistrationError::InvalidEmail) => names_present(first_names@, last_names@)
                && !email_plausible(email@),
            Err(_) => false,
        },
        trim(first_names@).len() > 0 && trim(last_names@).len() > 0 && email@.contains('@')
            && email@.contains('.') ==> r is Ok,
        r is Ok ==> email@.contains('@') && email@.contains('.'),
{
    let first = trimmed(first_names);
    let last = trimmed(last_names);
    let phone = clean_optional(phone);
    let student_number = clean_optional(student_number);
    if first.as_str().is_empty() || last.as_str().is_empty() {
        return Err(RegistrationError::MissingName);
    }
    if !has_char(email.as_str(), '@') || !has_char(email.as_str(), '.') {
        return Err(RegistrationError::InvalidEmail);
    }
    Ok(Registration { first_names: first, last_names: last, email, phone, student_number })
}

/// The server side of a registration before any write: trims every field,
/// lowercases the address, and refuses blank names or an implausible address.
pub fn prepare_registration(
    first_names: String,
    last_names: String,
    email: String,
    phone: Option<String>,
    student_number: Option<String>,
) -> (r: Result<Registration, RegistrationError>)
    ensures
        match r {
            Ok(reg) => {
                &&& names_present(first_names@, last_names@)
                &&& email_plausible(normalized_email(email@))
                &&& reg.first_names@ == trim(first_names@)
                &&& reg.last_names@ == trim(last_names@)
                &&& reg.email@ == normalized_email(email@)
                &&& opt_seq(reg.phone) == optional_field(opt_seq(phone))
                &&& opt_seq(reg.student_number) == optional_field(opt_seq(student_number))
            },
            Err(RegistrationError::MissingName) => !names_present(first_names@, last_names@),
            Err(RegistrationError::InvalidEmail) => names_present(first_names@, last_names@)
                && !email_plausible(normalized_email(email@)),
            Err(_) => false,
        },
        trim(first_names@).len() > 0 && trim(last_names@).len() > 0 && lowercase(
            trim(email@),
        ).contains('@') && lowercase(trim(email@)).contains('.') ==> r is Ok,
{
    let email = to_lowercase(trimmed(email.as_str()).as_str());
    check_registration(first_names.as_str(), last_names.as_str(), email, phone, student_number)
}

/// The checks, said plainly: both names are needed once trimmed, an address
/// is plausible exactly when it holds an `@` and a `.` (wherever they stand),
/// and an optional field is dropped when blank and kept trimmed otherwise.
pub proof fn lemma_registration_checks(
    first_names: Seq<char>,
    last_names: Seq<char>,
    email: Seq<char>,
    field: Seq<char>,
)
    ensures
        names_present(first_names, last_names) <==> (trim(first_names).len() > 0 && trim(
            last_names,
        ).len() > 0),
        email_plausible(email) <==> ((exists|i: int| 0 <= i < email.len() && email[i] == '@')
            && (exists|j: int| 0 <= j < email.len() && email[j] == '.')),
        trim(field).len() > 0 ==> optional_field(Some(field)) == Some(trim(field)),
        trim(field).len() == 0 ==> optional_field(Some(field)) is None,
        optional_field(None) is None,
{
}

/// The text of each refusal, as shown to the user.
pub open spec fn error_text(e: RegistrationError) -> Seq<char> {
    match e {
        RegistrationError::MissingName => "Merci de renseigner ton prénom et ton nom."@,
        RegistrationError::InvalidEmail => "Cette adresse email ne semble pas valide."@,
        RegistrationError::Database(d) => "Erreur base de données : "@ + d@,
        RegistrationError::EmailDelivery(d) => "Erreur d'envoi d'email : "@ + d@,
    }
}

/// A refusal caused by the database or by the e-mail keeps the cause's text
/// at its end, and the two input refusals read differently.
pub proof fn lemma_error_text_keeps_detail(d: String)
    ensures
        error_text(RegistrationError::Database(d)).subrange(
            error_text(RegistrationError::Database(d)).len() - d@.len(),
            error_text(RegistrationError::Database(d)).len() as int,
        ) == d@,
        error_text(RegistrationError::EmailDelivery(d)).subrange(
            error_text(RegistrationError::EmailDelivery(d)).len() - d@.len(),
            error_text(RegistrationError::EmailDelivery(d)).len() as int,
        ) == d@,
        error_text(RegistrationError::MissingName) != error_text(RegistrationError::InvalidEmail),
{
    reveal_strlit("Merci de renseigner ton prénom et ton nom.");
    reveal_strlit("Cette adresse email ne semble pas valide.");
    let a = error_text(RegistrationError::Database(d));
    assert(a.subrange(a.len() - d@.len(), a.len() as int) =~= d@);
    let b = error_text(RegistrationError::EmailDelivery(d));
    assert(b.subrange(b.len() - d@.len(), b.len() as int) =~= d@);
    assert(error_text(RegistrationError::MissingName)[0] != error_text(RegistrationError::InvalidEmail)[0]);
}

impl RegistrationError {
    /// The message shown to the user for this refusal.
    pub fn message(&self) -> (m: String)
        ensures
            m@ == error_text(*self),
    {
        match self {
            RegistrationError::MissingName => String::from_str(
                "Merci de renseigner ton prénom et ton nom.",
            ),
            RegistrationError::InvalidEmail => String::from_str(
                "Cette adresse email ne semble pas valide.",
            ),
            RegistrationError::Database(d) => {
                let mut m = String::from_str("Erreur base de données : ");
                m.append(d.as_str());
                m
            },
            RegistrationError::EmailDelivery(d) => {
                let mut m = String::from_str("Erreur d'envoi d'email : ");
                m.append(d.as_str());
                m
            },
        }
    }
}

/// The answer sent back once a registration was recorded (and, when a token
/// was issued, the e-mail sent).
pub fn registration_outcome(pending: &PendingRegistration) -> (o: RegistrationOutcome)
    ensures
        (o is EmailSent) <==> !(pending is AlreadyVerified),
{
    match pending {
        PendingRegistration::AlreadyVerified => RegistrationOutcome::AlreadyVerified,
        _ => RegistrationOutcome::EmailSent,
    }
}


/// The answer to a registration once its write is done and, when a token was
/// issued, the e-mail attempted: `delivery` is the outcome of sending it (its
/// error text when it failed) and is not looked at when no e-mail was due.
pub fn registration_reply(
    pending: &PendingRegistration,
    delivery: Result<(), String>,
) -> (r: Result<RegistrationOutcome, RegistrationError>)
    ensures
        match pending {
            PendingRegistration::AlreadyVerified => r matches Ok(RegistrationOutcome::AlreadyVerified),
            _ => match delivery {
                Ok(()) => r matches Ok(RegistrationOutcome::EmailSent),
                Err(e) => r == Err::<RegistrationOutcome, RegistrationError>(RegistrationError::EmailDelivery(e)),
            },
        },
{
    match pending {
        PendingRegistration::AlreadyVerified => Ok(RegistrationOutcome::AlreadyVerified),
        _ => match delivery {
            Ok(()) => Ok(RegistrationOutcome::EmailSent),
            Err(e) => Err(RegistrationError::EmailDelivery(e)),
        },
    }
}

} // verus!
