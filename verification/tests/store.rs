use atacc_inscription::store::{
    database_url, email_token, pending_registration, plan_registration, plan_verification, registration_step,
    verification_result, verification_step, ExistingUserRow, PendingRegistration, RegistrationStep,
    TokenRow, VerificationResult, VerificationStep,
};

fn s(v: &str) -> String {
    v.to_string()
}

fn is_uuid_v4(t: &str) -> bool {
    let c: Vec<char> = t.chars().collect();
    c.len() == 36
        && c.iter().enumerate().all(|(i, &ch)| {
            if [8, 13, 18, 23].contains(&i) {
                ch == '-'
            } else {
                ch.is_ascii_digit() || ('a'..='f').contains(&ch)
            }
        })
        && c[14] == '4'
        && "89ab".contains(c[19])
}

#[test]
fn unknown_address_creates_user() {
    let step = plan_registration(None, s("id-1"), s("tok-1"), s("2025-01-01T00:00:00+00:00"));
    assert_eq!(
        step,
        RegistrationStep::Create {
            user_id: s("id-1"),
            token: s("tok-1"),
            created_at: s("2025-01-01T00:00:00+00:00")
        }
    );
    assert_eq!(pending_registration(&step), PendingRegistration::New { token: s("tok-1") });
}

#[test]
fn unverified_address_gets_new_token() {
    let row = ExistingUserRow { id: s("id-7"), verified: 0 };
    let step = plan_registration(Some(row), s("unused"), s("tok-2"), s("now"));
    assert_eq!(step, RegistrationStep::Refresh { user_id: s("id-7"), token: s("tok-2") });
    assert_eq!(pending_registration(&step), PendingRegistration::Resent { token: s("tok-2") });
}

#[test]
fn verified_address_is_left_alone() {
    let row = ExistingUserRow { id: s("id-7"), verified: 1 };
    let step = plan_registration(Some(row), s("x"), s("y"), s("z"));
    assert_eq!(step, RegistrationStep::AlreadyVerified);
    assert_eq!(pending_registration(&step), PendingRegistration::AlreadyVerified);
}

#[test]
fn fresh_identifiers_are_random_uuids() {
    match registration_step(None) {
        RegistrationStep::Create { user_id, token, created_at } => {
            assert!(is_uuid_v4(&user_id), "{user_id}");
            assert!(is_uuid_v4(&token), "{token}");
            assert_ne!(user_id, token);
            assert!(created_at.len() >= 25 && created_at.ends_with("+00:00"), "{created_at}");
        }
        other => panic!("unexpected {other:?}"),
    }
    match registration_step(Some(ExistingUserRow { id: s("u"), verified: 0 })) {
        RegistrationStep::Refresh { user_id, token } => {
            assert_eq!(user_id, "u");
            assert!(is_uuid_v4(&token));
        }
        other => panic!("unexpected {other:?}"),
    }
    assert_eq!(
        registration_step(Some(ExistingUserRow { id: s("u"), verified: 3 })),
        RegistrationStep::AlreadyVerified
    );
}

#[test]
fn verification_decisions() {
    assert_eq!(plan_verification(None, s("t")), VerificationStep::NotFound);
    let row = TokenRow { id: s("u"), first_names: s("Léa"), verified: 1 };
    assert_eq!(
        plan_verification(Some(row), s("t")),
        VerificationStep::AlreadyVerified { first_names: s("Léa") }
    );
    let row = TokenRow { id: s("u"), first_names: s("Léa"), verified: 0 };
    let step = plan_verification(Some(row), s("t"));
    assert_eq!(
        step,
        VerificationStep::MarkVerified { user_id: s("u"), first_names: s("Léa"), verified_at: s("t") }
    );
    assert_eq!(verification_result(step), VerificationResult::Verified { first_names: s("Léa") });
}

#[test]
fn verification_step_stamps_time() {
    let row = TokenRow { id: s("u"), first_names: s("Léa"), verified: 0 };
    match verification_step(Some(row)) {
        VerificationStep::MarkVerified { user_id, first_names, verified_at } => {
            assert_eq!(user_id, "u");
            assert_eq!(first_names, "Léa");
            assert!(verified_at.ends_with("+00:00") && verified_at.contains('T'));
        }
        other => panic!("unexpected {other:?}"),
    }
    assert_eq!(verification_step(None), VerificationStep::NotFound);
}

#[test]
fn database_url_of_path() {
    assert_eq!(database_url("atacc.db"), "sqlite://atacc.db?mode=rwc");
}

/// A small stand-in for the users table: (id, email, first_names, token, verified).
struct Table(Vec<(String, String, String, String, i64)>);

impl Table {
    fn by_email(&self, email: &str) -> Option<ExistingUserRow> {
        self.0.iter().find(|r| r.1 == email).map(|r| ExistingUserRow { id: r.0.clone(), verified: r.4 })
    }
    fn by_token(&self, token: &str) -> Option<TokenRow> {
        self.0
            .iter()
            .find(|r| r.3 == token)
            .map(|r| TokenRow { id: r.0.clone(), first_names: r.2.clone(), verified: r.4 })
    }
    fn register(&mut self, email: &str, first: &str) -> PendingRegistration {
        let step = registration_step(self.by_email(email));
        let pending = pending_registration(&step);
        match step {
            RegistrationStep::Create { user_id, token, .. } => {
                self.0.push((user_id, s(email), s(first), token, 0))
            }
            RegistrationStep::Refresh { user_id, token } => {
                let r = self.0.iter_mut().find(|r| r.0 == user_id).unwrap();
                r.2 = s(first);
                r.3 = token;
            }
            RegistrationStep::AlreadyVerified => {}
        }
        pending
    }
    fn verify(&mut self, token: &str) -> VerificationResult {
        let step = verification_step(self.by_token(token));
        if let VerificationStep::MarkVerified { user_id, .. } = &step {
            self.0.iter_mut().find(|r| &r.0 == user_id).unwrap().4 = 1;
        }
        verification_result(step)
    }
}

fn token_of(p: &PendingRegistration) -> String {
    match p {
        PendingRegistration::New { token } | PendingRegistration::Resent { token } => token.clone(),
        PendingRegistration::AlreadyVerified => panic!("no token"),
    }
}

#[test]
fn registered_link_verifies_then_is_already_verified() {
    let mut t = Table(vec![]);
    let p = t.register("lea@univ.fr", "Léa");
    assert!(matches!(p, PendingRegistration::New { .. }));
    let token = token_of(&p);
    assert_eq!(t.verify(&token), VerificationResult::Verified { first_names: s("Léa") });
    assert_eq!(t.verify(&token), VerificationResult::AlreadyVerified { first_names: s("Léa") });
    assert_eq!(t.register("lea@univ.fr", "Autre"), PendingRegistration::AlreadyVerified);
    assert_eq!(t.0.len(), 1);
    assert_eq!(t.0[0].2, "Léa");
}

#[test]
fn registering_again_retires_the_old_link() {
    let mut t = Table(vec![]);
    let first = token_of(&t.register("tom@univ.fr", "Tom"));
    let second = t.register("tom@univ.fr", "Thomas");
    assert!(matches!(second, PendingRegistration::Resent { .. }));
    let second = token_of(&second);
    assert_eq!(t.0.len(), 1);
    assert_eq!(t.verify(&first), VerificationResult::NotFound);
    assert_eq!(t.verify(&second), VerificationResult::Verified { first_names: s("Thomas") });
}

#[test]
fn unknown_token_is_not_found() {
    let mut t = Table(vec![]);
    assert_eq!(t.verify("nope"), VerificationResult::NotFound);
}

#[test]
fn token_to_email() {
    assert_eq!(email_token(&PendingRegistration::New { token: s("a") }), Some(s("a")));
    assert_eq!(email_token(&PendingRegistration::Resent { token: s("b") }), Some(s("b")));
    assert_eq!(email_token(&PendingRegistration::AlreadyVerified), None);
}
