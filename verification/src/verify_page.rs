//! The page answering a verification link.

use vstd::prelude::*;
use vstd::string::*;

use crate::store::VerificationResult;

verus! {

/// The query of a verification link (`/verify?token=...`).
pub struct VerifyParams {
    pub token: Option<String>,
}

/// A complete HTML page titled `title` showing `message`.
pub open spec fn page_text(title: Seq<char>, message: Seq<char>) -> Seq<char> {
    "<!DOCTYPE html>\n<html lang=\"fr\">\n<head>\n<meta charset=\"utf-8\"/>\n<meta name=\"viewport\" content=\"width=device-width, initial-scale=1\"/>\n<title>"@
        + title
        + " — ATACC</title>\n<link rel=\"stylesheet\" href=\"/pkg/atacc-inscription.css\"/>\n</head>\n<body>\n<main class=\"verify-page\">\n<h1>"@
        + title + "</h1>\n<p>"@ + message
        + "</p>\n<p><a href=\"/\">Retour à l'accueil</a></p>\n</main>\n</body>\n</html>"@
}

/// The page names its title in the browser tab and as its heading, and
/// shows the message right under the heading: it holds
/// `<title>{title} — ATACC</title>` and `<h1>{title}</h1>\n<p>{message}</p>`,
/// and ends with `</html>`.
pub proof fn lemma_page_shows_title_and_message(title: Seq<char>, message: Seq<char>)
    ensures
        exists|i: int|
            #![trigger page_text(title, message).subrange(i, i + 7 + title.len() + 16)]
            0 <= i && i + 7 + title.len() + 16 <= page_text(title, message).len()
                && page_text(title, message).subrange(i, i + 7 + title.len() + 16)
                == "<title>"@ + title + " — ATACC</title>"@,
        exists|j: int|
            #![trigger page_text(title, message).subrange(j, j + 4 + title.len() + 9 + message.len() + 4)]
            0 <= j && j + 4 + title.len() + 9 + message.len() + 4 <= page_text(title, message).len()
                && page_text(title, message).subrange(j, j + 4 + title.len() + 9 + message.len() + 4)
                == "<h1>"@ + title + "</h1>\n<p>"@ + message + "</p>"@,
        page_text(title, message).subrange(
            page_text(title, message).len() - 7,
            page_text(title, message).len() as int,
        ) == "</html>"@,
{
    reveal_strlit("<!DOCTYPE html>\n<html lang=\"fr\">\n<head>\n<meta charset=\"utf-8\"/>\n<meta name=\"viewport\" content=\"width=device-width, initial-scale=1\"/>\n<title>");
    reveal_strlit(" — ATACC</title>\n<link rel=\"stylesheet\" href=\"/pkg/atacc-inscription.css\"/>\n</head>\n<body>\n<main class=\"verify-page\">\n<h1>");
    reveal_strlit("</h1>\n<p>");
    reveal_strlit("</p>\n<p><a href=\"/\">Retour à l'accueil</a></p>\n</main>\n</body>\n</html>");
    reveal_strlit("<title>");
    reveal_strlit(" — ATACC</title>");
    reveal_strlit("<h1>");
    reveal_strlit("</h1>\n<p>");
    reveal_strlit("</p>");
    reveal_strlit("</html>");
    let p = page_text(title, message);
    let l1 = "<!DOCTYPE html>\n<html lang=\"fr\">\n<head>\n<meta charset=\"utf-8\"/>\n<meta name=\"viewport\" content=\"width=device-width, initial-scale=1\"/>\n<title>"@.len();
    let l2 = " — ATACC</title>\n<link rel=\"stylesheet\" href=\"/pkg/atacc-inscription.css\"/>\n</head>\n<body>\n<main class=\"verify-page\">\n<h1>"@.len();
    let i = l1 - 7;
    assert(p.subrange(i, i + 7 + title.len() + 16) =~= "<title>"@ + title + " — ATACC</title>"@);
    let j = l1 + title.len() + l2 - 4;
    assert(p.subrange(j, j + 4 + title.len() + 9 + message.len() + 4) =~= "<h1>"@ + title
        + "</h1>\n<p>"@ + message + "</p>"@);
    assert(p.subrange(p.len() - 7, p.len() as int) =~= "</html>"@);
}

/// A complete HTML page titled `title` showing `message`.
pub fn page(title: &str, message: &str) -> (p: String)
    ensures
        p@ == page_text(title@, message@),
{
    let mut p = String::from_str(
        "<!DOCTYPE html>\n<html lang=\"fr\">\n<head>\n<meta charset=\"utf-8\"/>\n<meta name=\"viewport\" content=\"width=device-width, initial-scale=1\"/>\n<title>",
    );
    p.append(title);
    p.append(
        " — ATACC</title>\n<link rel=\"stylesheet\" href=\"/pkg/atacc-inscription.css\"/>\n</head>\n<body>\n<main class=\"verify-page\">\n<h1>",
    );
    p.append(title);
    p.append("</h1>\n<p>");
    p.append(message);
    p.append("</p>\n<p><a href=\"/\">Retour à l'accueil</a></p>\n</main>\n</body>\n</html>");
    p
}

/// What became of a verification link.
#[derive(Debug, PartialEq, Eq)]
pub enum VerifyLookup {
    /// The link carries no token.
    MissingToken,
    /// The token was looked up.
    Checked(VerificationResult),
    /// The users table could not be read or written.
    Failed,
}

/// The title of the page for each outcome.
pub open spec fn verify_title(l: VerifyLookup) -> Seq<char> {
    match l {
        VerifyLookup::MissingToken => "Lien invalide"@,
        VerifyLookup::Checked(VerificationResult::Verified { .. }) => "Adresse confirmée !"@,
        VerifyLookup::Checked(VerificationResult::AlreadyVerified { .. }) => "Déjà confirmée"@,
        VerifyLookup::Checked(VerificationResult::NotFound) => "Lien invalide ou expiré"@,
        VerifyLookup::Failed => "Erreur"@,
    }
}

/// The message of the page for each outcome.
pub open spec fn verify_message(l: VerifyLookup) -> Seq<char> {
    match l {
        VerifyLookup::MissingToken =>
            "Ce lien de confirmation est incomplet. Vérifie que tu as bien copié l'intégralité du lien reçu par email."@,
        VerifyLookup::Checked(VerificationResult::Verified { first_names }) => "Merci "@
            + first_names@
            + ", ton adresse email est confirmée. Ton inscription à l'ATACC est maintenant complète."@,
        VerifyLookup::Checked(VerificationResult::AlreadyVerified { first_names }) => "Salut "@
            + first_names@ + ", cette adresse était déjà confirmée. Il n'y a rien d'autre à faire."@,
        VerifyLookup::Checked(VerificationResult::NotFound) =>
            "Ce lien de confirmation n'est plus valide. Réinscris-toi depuis le site pour recevoir un nouveau lien."@,
        VerifyLookup::Failed => "Une erreur est survenue de notre côté. Réessaie un peu plus tard."@,
    }
}

/// The page follows only the kind of outcome: whatever the first names, a
/// confirmation is titled "Adresse confirmée !" and thanks them by name, an
/// earlier confirmation is titled "Déjà confirmée" and greets them by name,
/// and the two titles differ.
pub proof fn lemma_page_follows_outcome(f: String, g: String)
    ensures
        verify_title(VerifyLookup::Checked(VerificationResult::Verified { first_names: f }))
            == "Adresse confirmée !"@,
        verify_title(VerifyLookup::Checked(VerificationResult::AlreadyVerified { first_names: g }))
            == "Déjà confirmée"@,
        verify_title(VerifyLookup::Checked(VerificationResult::Verified { first_names: f }))
            != verify_title(
            VerifyLookup::Checked(VerificationResult::AlreadyVerified { first_names: g }),
        ),
        verify_title(VerifyLookup::Checked(VerificationResult::Verified { first_names: f }))
            == verify_title(VerifyLookup::Checked(VerificationResult::Verified { first_names: g })),
        verify_message(VerifyLookup::Checked(VerificationResult::Verified { first_names: f })).subrange(
            0,
            6 + f@.len() as int,
        ) == "Merci "@ + f@,
        verify_message(
            VerifyLookup::Checked(VerificationResult::AlreadyVerified { first_names: g }),
        ).subrange(0, 6 + g@.len() as int) == "Salut "@ + g@,
{
    reveal_strlit("Adresse confirmée !");
    reveal_strlit("Déjà confirmée");
    reveal_strlit("Merci ");
    reveal_strlit("Salut ");
    let m = verify_message(VerifyLookup::Checked(VerificationResult::Verified { first_names: f }));
    assert(m.subrange(0, 6 + f@.len() as int) =~= "Merci "@ + f@);
    let m2 = verify_message(
        VerifyLookup::Checked(VerificationResult::AlreadyVerified { first_names: g }),
    );
    assert(m2.subrange(0, 6 + g@.len() as int) =~= "Salut "@ + g@);
}

/// The page answering a verification link, for each outcome of the lookup.
pub fn verification_page(lookup: &VerifyLookup) -> (p: String)
    ensures
        p@ == page_text(verify_title(*lookup), verify_message(*lookup)),
{
    match lookup {
        VerifyLookup::MissingToken => page(
            "Lien invalide",
            "Ce lien de confirmation est incomplet. Vérifie que tu as bien copié l'intégralité du lien reçu par email.",
        ),
        VerifyLookup::Checked(VerificationResult::Verified { first_names }) => {
            let mut m = String::from_str("Merci ");
            m.append(first_names.as_str());
            m.append(
                ", ton adresse email est confirmée. Ton inscription à l'ATACC est maintenant complète.",
            );
            page("Adresse confirmée !", m.as_str())
        },
        VerifyLookup::Checked(VerificationResult::AlreadyVerified { first_names }) => {
            let mut m = String::from_str("Salut ");
            m.append(first_names.as_str());
            m.append(", cette adresse était déjà confirmée. Il n'y a rien d'autre à faire.");
            page("Déjà confirmée", m.as_str())
        },
        VerifyLookup::Checked(VerificationResult::NotFound) => page(
            "Lien invalide ou expiré",
            "Ce lien de confirmation n'est plus valide. Réinscris-toi depuis le site pour recevoir un nouveau lien.",
        ),
        VerifyLookup::Failed => page(
            "Erreur",
            "Une erreur est survenue de notre côté. Réessaie un peu plus tard.",
        ),
    }
}

} // verus!
