use atacc_inscription::store::VerificationResult;
use atacc_inscription::verify_page::{page, verification_page, VerifyLookup};

fn expected(title: &str, message: &str) -> String {
    format!(
        "<!DOCTYPE html>\n<html lang=\"fr\">\n<head>\n<meta charset=\"utf-8\"/>\n<meta name=\"viewport\" content=\"width=device-width, initial-scale=1\"/>\n<title>{title} — ATACC</title>\n<link rel=\"stylesheet\" href=\"/pkg/atacc-inscription.css\"/>\n</head>\n<body>\n<main class=\"verify-page\">\n<h1>{title}</h1>\n<p>{message}</p>\n<p><a href=\"/\">Retour à l'accueil</a></p>\n</main>\n</body>\n</html>"
    )
}

#[test]
fn page_layout() {
    assert_eq!(page("T", "M"), expected("T", "M"));
}

#[test]
fn missing_token_page() {
    assert_eq!(
        verification_page(&VerifyLookup::MissingToken),
        expected(
            "Lien invalide",
            "Ce lien de confirmation est incomplet. Vérifie que tu as bien copié l'intégralité du lien reçu par email."
        )
    );
}

#[test]
fn verified_page() {
    let l = VerifyLookup::Checked(VerificationResult::Verified { first_names: "Léa".to_string() });
    assert_eq!(
        verification_page(&l),
        expected(
            "Adresse confirmée !",
            "Merci Léa, ton adresse email est confirmée. Ton inscription à l'ATACC est maintenant complète."
        )
    );
}

#[test]
fn already_verified_page() {
    let l = VerifyLookup::Checked(VerificationResult::AlreadyVerified { first_names: "Tom".to_string() });
    assert_eq!(
        verification_page(&l),
        expected(
            "Déjà confirmée",
            "Salut Tom, cette adresse était déjà confirmée. Il n'y a rien d'autre à faire."
        )
    );
}

#[test]
fn not_found_and_failure_pages() {
    assert_eq!(
        verification_page(&VerifyLookup::Checked(VerificationResult::NotFound)),
        expected(
            "Lien invalide ou expiré",
            "Ce lien de confirmation n'est plus valide. Réinscris-toi depuis le site pour recevoir un nouveau lien."
        )
    );
    assert_eq!(
        verification_page(&VerifyLookup::Failed),
        expected("Erreur", "Une erreur est survenue de notre côté. Réessaie un peu plus tard.")
    );
}
