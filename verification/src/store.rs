//! The decisions taken around the `users` table, and a model of that table
//! over which the laws of registration and verification are stated.
//!
//! Reading and writing the table is left to the caller: it fetches the row a
//! decision needs, hands it to the functions here, and performs the write
//! they return.

use vstd::prelude::*;
use vstd::string::*;

use crate::registration::{opt_seq, Registration};

verus! {

/// The SQLite connection URL of the database file `path`, created when
/// missing (`sqlite://{path}?mode=rwc`).
pub fn database_url(path: &str) -> (url: String)
    ensures
        url@ == "sqlite://"@ + path@ + "?mode=rwc"@,
{
    let mut url = String::from_str("sqlite://");
    url.append(path);
    url.append("?mode=rwc");
    url
}

/// What became of a registration in the users table.
#[derive(Debug, PartialEq, Eq)]
pub enum PendingRegistration {
    /// Brand new registration; the e-mail is sent with this token.
    New { token: String },
    /// An unverified registration already existed for this address; its details
    /// were refreshed and a new token issued, so the e-mail is sent again.
    Resent { token: String },
    /// This address was already verified; nothing to do.
    AlreadyVerified,
}

/// What following a verification link did.
#[derive(Debug, PartialEq, Eq)]
pub enum VerificationResult {
    Verified { first_names: String },
    AlreadyVerified { first_names: String },
    NotFound,
}

/// The row read for an address that registers (`id`, `verified` of the user
/// with that e-mail).
#[derive(Debug, PartialEq, Eq)]
pub struct ExistingUserRow {
    pub id: String,
    pub verified: i64,
}

/// The row read for a verification token (`id`, `first_names`, `verified` of
/// the user holding that token).
#[derive(Debug, PartialEq, Eq)]
pub struct TokenRow {
    pub id: String,
    pub first_names: String,
    pub verified: i64,
}

/// The write that a registration calls for.
#[derive(Debug, PartialEq, Eq)]
pub enum RegistrationStep {
    /// The address is already verified: write nothing.
    AlreadyVerified,
    /// Refresh the details of the unverified user `user_id` and give it `token`.
    Refresh { user_id: String, token: String },
    /// Insert a new unverified user.
    Create { user_id: String, token: String, created_at: String },
}

/// The write that following a verification link calls for.
#[derive(Debug, PartialEq, Eq)]
pub enum VerificationStep {
    /// No user holds the token: write nothing.
    NotFound,
    /// The user is already verified: write nothing.
    AlreadyVerified { first_names: String },
    /// Mark the user `user_id` verified at `verified_at`.
    MarkVerified { user_id: String, first_names: String, verified_at: String },
}

/// A textual UUID of version 4 in hyphenated lowercase form, as
/// `uuid::Uuid::new_v4().to_string()` prints it.
pub open spec fn is_uuid_v4_text(s: Seq<char>) -> bool {
    &&& s.len() == 36
    &&& forall|i: int|
        0 <= i < 36 ==> #[trigger] uuid_char_ok(i, s[i])
    &&& s[14] == '4'
    &&& (s[19] == '8' || s[19] == '9' || s[19] == 'a' || s[19] == 'b')
}

/// The character at position `i` of a hyphenated UUID text.
pub open spec fn uuid_char_ok(i: int, c: char) -> bool {
    if i == 8 || i == 13 || i == 18 || i == 23 {
        c == '-'
    } else {
        ('0' <= c && c <= '9') || ('a' <= c && c <= 'f')
    }
}

/// `uuid::Uuid::new_v4()` printed with `to_string()`: a random version-4 UUID
/// in hyphenated lowercase form. Nothing is claimed about which one.
#[verifier::external_body]
fn new_uuid() -> (s: String)
    ensures
        is_uuid_v4_text(s@),
{
    uuid::Uuid::new_v4().to_string()
}

/// An RFC 3339 time in UTC as chrono prints it: at least
/// `YYYY-MM-DDTHH:MM:SS` followed by the offset `+00:00`.
pub open spec fn is_utc_rfc3339_text(s: Seq<char>) -> bool {
    &&& s.len() >= 25
    &&& s.subrange(s.len() - 6, s.len() as int) == "+00:00"@
}

/// `chrono::Utc::now().to_rfc3339()`: the current time in RFC 3339 form with
/// the offset `+00:00`. Which time it is depends on the clock and is not
/// claimed.
#[verifier::external_body]
fn now_rfc3339() -> (s: String)
    ensures
        is_utc_rfc3339_text(s@),
{
    chrono::Utc::now().to_rfc3339()
}

/// The write a registration calls for, given the row found for its address
/// and the identifier, token and time to use for a new user.
pub open spec fn planned_registration(
    existing: Option<ExistingUserRow>,
    fresh_id: String,
    fresh_token: String,
    now: String,
) -> RegistrationStep {
    match existing {
        Some(row) => if row.verified != 0 {
            RegistrationStep::AlreadyVerified
        } else {
            RegistrationStep::Refresh { user_id: row.id, token: fresh_token }
        },
        None => RegistrationStep::Create { user_id: fresh_id, token: fresh_token, created_at: now },
    }
}

/// Decides the write of a registration from the row found for its address:
/// nothing when it is verified, a refresh with `fresh_token` when it is not,
/// and a new user `fresh_id` created at `now` when there is none.
pub fn plan_registration(
    existing: Option<ExistingUserRow>,
    fresh_id: String,
    fresh_token: String,
    now: String,
) -> (step: RegistrationStep)
    ensures
        step == planned_registration(existing, fresh_id, fresh_token, now),
{
    match existing {
        Some(row) => if row.verified != 0 {
            RegistrationStep::AlreadyVerified
        } else {
            RegistrationStep::Refresh { user_id: row.id, token: fresh_token }
        },
        None => RegistrationStep::Create { user_id: fresh_id, token: fresh_token, created_at: now },
    }
}

/// Decides the write of a registration from the row found for its address,
/// drawing a fresh random token (and, for a new user, a fresh random
/// identifier and the current time) where one is needed.
pub fn registration_step(existing: Option<ExistingUserRow>) -> (step: RegistrationStep)
    ensures
        match existing {
            Some(row) => if row.verified != 0 {
                step is AlreadyVerified
            } else {
                step matches RegistrationStep::Refresh { user_id, token }
                    && user_id == row.id && is_uuid_v4_text(token@)
            },
            None => step matches RegistrationStep::Create { user_id, token, created_at }
                && is_uuid_v4_text(user_id@) && is_uuid_v4_text(token@)
                && is_utc_rfc3339_text(created_at@),
        },
{
    match existing {
        Some(row) => {
            if row.verified != 0 {
                plan_registration(Some(row), String::new(), String::new(), String::new())
            } else {
                let token = new_uuid();
                plan_registration(Some(row), String::new(), token, String::new())
            }
        },
        None => {
            let id = new_uuid();
            let token = new_uuid();
            let now = now_rfc3339();
            plan_registration(None, id, token, now)
        },
    }
}

/// What a registration step tells the caller.
pub open spec fn pending_of(step: RegistrationStep) -> PendingRegistration {
    match step {
        RegistrationStep::AlreadyVerified => PendingRegistration::AlreadyVerified,
        RegistrationStep::Refresh { token, .. } => PendingRegistration::Resent { token },
        RegistrationStep::Create { token, .. } => PendingRegistration::New { token },
    }
}

/// The token to e-mail, if any.
pub open spec fn pending_token(p: PendingRegistration) -> Option<String> {
    match p {
        PendingRegistration::New { token } => Some(token),
        PendingRegistration::Resent { token } => Some(token),
        PendingRegistration::AlreadyVerified => None,
    }
}

/// The token to e-mail after a registration: that of a new or refreshed
/// registration, none for an address already verified.
pub fn email_token(p: &PendingRegistration) -> (t: Option<String>)
    ensures
        t == pending_token(*p),
{
    match p {
        PendingRegistration::New { token } => Some(token.clone()),
        PendingRegistration::Resent { token } => Some(token.clone()),
        PendingRegistration::AlreadyVerified => None,
    }
}

/// The caller learns which write was done and with which token: a new user
/// is reported as `New` and a refreshed one as `Resent`, each with the token
/// just written, and nothing to do as `AlreadyVerified`, with no token.
pub proof fn lemma_pending_reports_step(step: RegistrationStep)
    ensures
        step matches RegistrationStep::Create { token, .. } ==> pending_of(step) == (
        PendingRegistration::New { token }),
        step matches RegistrationStep::Refresh { token, .. } ==> pending_of(step) == (
        PendingRegistration::Resent { token }),
        (step is AlreadyVerified) <==> (pending_token(pending_of(step)) is None),
{
}

/// What a registration step tells the caller: the token to e-mail for a new
/// or refreshed registration, or that the address is already verified.
pub fn pending_registration(step: &RegistrationStep) -> (p: PendingRegistration)
    ensures
        p == pending_of(*step),
{
    match step {
        RegistrationStep::AlreadyVerified => PendingRegistration::AlreadyVerified,
        RegistrationStep::Refresh { token, .. } => PendingRegistration::Resent { token: token.clone() },
        RegistrationStep::Create { token, .. } => PendingRegistration::New { token: token.clone() },
    }
}

/// The write that following a link calls for, given the row found for its
/// token and the current time.
pub open spec fn planned_verification(row: Option<TokenRow>, now: String) -> VerificationStep {
    match row {
        None => VerificationStep::NotFound,
        Some(r) => if r.verified != 0 {
            VerificationStep::AlreadyVerified { first_names: r.first_names }
        } else {
            VerificationStep::MarkVerified { user_id: r.id, first_names: r.first_names, verified_at: now }
        },
    }
}

/// Decides the write of a verification from the row found for the token and
/// the time `now`.
pub fn plan_verification(row: Option<TokenRow>, now: String) -> (step: VerificationStep)
    ensures
        step == planned_verification(row, now),
{
    match row {
        None => VerificationStep::NotFound,
        Some(r) => if r.verified != 0 {
            VerificationStep::AlreadyVerified { first_names: r.first_names }
        } else {
            VerificationStep::MarkVerified { user_id: r.id, first_names: r.first_names, verified_at: now }
        },
    }
}

/// Decides the write of a verification from the row found for the token,
/// stamping a verification with the current time.
pub fn verification_step(row: Option<TokenRow>) -> (step: VerificationStep)
    ensures
        match row {
            None => step is NotFound,
            Some(r) => if r.verified != 0 {
                step == (VerificationStep::AlreadyVerified { first_names: r.first_names })
            } else {
                step matches VerificationStep::MarkVerified { user_id, first_names, verified_at }
                    && user_id == r.id && first_names == r.first_names
                    && is_utc_rfc3339_text(verified_at@)
            },
        },
{
    match row {
        None => plan_verification(None, String::new()),
        Some(r) => {
            if r.verified != 0 {
                plan_verification(Some(r), String::new())
            } else {
                let now = now_rfc3339();
                plan_verification(Some(r), now)
            }
        },
    }
}

/// What a verification step tells the visitor.
pub open spec fn verification_of(step: VerificationStep) -> VerificationResult {
    match step {
        VerificationStep::NotFound => VerificationResult::NotFound,
        VerificationStep::AlreadyVerified { first_names } => VerificationResult::AlreadyVerified {
            first_names,
        },
        VerificationStep::MarkVerified { first_names, .. } => VerificationResult::Verified {
            first_names,
        },
    }
}

/// The visitor learns what the link did, under the first names found: a
/// user just marked verified is `Verified`, one verified before is
/// `AlreadyVerified`, and an unknown token is `NotFound`.
pub proof fn lemma_result_reports_step(step: VerificationStep)
    ensures
        step matches VerificationStep::MarkVerified { first_names, .. } ==> verification_of(step)
            == (VerificationResult::Verified { first_names }),
        step matches VerificationStep::AlreadyVerified { first_names } ==> verification_of(step)
            == (VerificationResult::AlreadyVerified { first_names }),
        (step is NotFound) <==> (verification_of(step) is NotFound),
{
}

/// What a verification step tells the visitor.
pub fn verification_result(step: VerificationStep) -> (r: VerificationResult)
    ensures
        r == verification_of(step),
{
    match step {
        VerificationStep::NotFound => VerificationResult::NotFound,
        VerificationStep::AlreadyVerified { first_names } => VerificationResult::AlreadyVerified {
            first_names,
        },
        VerificationStep::MarkVerified { first_names, .. } => VerificationResult::Verified {
            first_names,
        },
    }
}


/// One user of the `users` table, keyed elsewhere by its identifier.
pub struct UserRecord {
    pub first_names: Seq<char>,
    pub last_names: Seq<char>,
    pub email: Seq<char>,
    pub phone: Option<Seq<char>>,
    pub student_number: Option<Seq<char>>,
    pub token: Seq<char>,
    pub verified: bool,
    pub created_at: Seq<char>,
    pub verified_at: Option<Seq<char>>,
}

/// The `users` table: each user by its identifier.
pub type Users = Map<Seq<char>, UserRecord>;

/// No two users share an address.
pub open spec fn emails_unique(users: Users) -> bool {
    forall|a: Seq<char>, b: Seq<char>|
        #![trigger users[a].email, users[b].email]
        users.contains_key(a) && users.contains_key(b) && a != b ==> users[a].email != users[b].email
}

/// No two users share an address, and no two share a token.
pub open spec fn users_wf(users: Users) -> bool {
    &&& emails_unique(users)
    &&& forall|a: Seq<char>, b: Seq<char>|
        #![trigger users[a].token, users[b].token]
        users.contains_key(a) && users.contains_key(b) && a != b ==> users[a].token != users[b].token
}

/// No user holds `token`.
pub open spec fn token_unused(users: Users, token: Seq<char>) -> bool {
    forall|id: Seq<char>| #[trigger] users.contains_key(id) ==> users[id].token != token
}

/// `row` is what looking up the user with address `email` gives.
pub open spec fn fetched_by_email(users: Users, email: Seq<char>, row: Option<ExistingUserRow>) -> bool {
    match row {
        None => forall|id: Seq<char>| #[trigger] users.contains_key(id) ==> users[id].email != email,
        Some(r) => {
            &&& users.contains_key(r.id@)
            &&& users[r.id@].email == email
            &&& (r.verified != 0) == users[r.id@].verified
        },
    }
}

/// `row` is what looking up the user holding `token` gives.
pub open spec fn fetched_by_token(users: Users, token: Seq<char>, row: Option<TokenRow>) -> bool {
    match row {
        None => token_unused(users, token),
        Some(r) => {
            &&& users.contains_key(r.id@)
            &&& users[r.id@].token == token
            &&& users[r.id@].first_names == r.first_names@
            &&& (r.verified != 0) == users[r.id@].verified
        },
    }
}

/// The table once the write of a registration of `reg` is done.
pub open spec fn after_registration(users: Users, reg: Registration, step: RegistrationStep) -> Users {
    match step {
        RegistrationStep::AlreadyVerified => users,
        RegistrationStep::Refresh { user_id, token } => users.insert(
            user_id@,
            UserRecord {
                first_names: reg.first_names@,
                last_names: reg.last_names@,
                phone: opt_seq(reg.phone),
                student_number: opt_seq(reg.student_number),
                token: token@,
                ..users[user_id@]
            },
        ),
        RegistrationStep::Create { user_id, token, created_at } => users.insert(
            user_id@,
            UserRecord {
                first_names: reg.first_names@,
                last_names: reg.last_names@,
                email: reg.email@,
                phone: opt_seq(reg.phone),
                student_number: opt_seq(reg.student_number),
                token: token@,
                verified: false,
                created_at: created_at@,
                verified_at: None,
            },
        ),
    }
}

/// The table once the write of a verification is done.
pub open spec fn after_verification(users: Users, step: VerificationStep) -> Users {
    match step {
        VerificationStep::MarkVerified { user_id, verified_at, .. } => users.insert(
            user_id@,
            UserRecord { verified: true, verified_at: Some(verified_at@), ..users[user_id@] },
        ),
        _ => users,
    }
}

/// Whether a registration with this row found for its address issues a token.
pub open spec fn issues_token(existing: Option<ExistingUserRow>) -> bool {
    match existing {
        Some(row) => row.verified == 0,
        None => true,
    }
}

/// After a registration of an address, exactly one user holds that address
/// and addresses stay unique, provided that a new user's identifier is not in
/// use yet.
pub proof fn lemma_registration_leaves_one_row_per_address(
    users: Users,
    reg: Registration,
    existing: Option<ExistingUserRow>,
    fresh_id: String,
    fresh_token: String,
    now: String,
)
    requires
        emails_unique(users),
        fetched_by_email(users, reg.email@, existing),
        existing is None ==> !users.contains_key(fresh_id@),
    ensures
        emails_unique(
            after_registration(users, reg, planned_registration(existing, fresh_id, fresh_token, now)),
        ),
        ({
            let after = after_registration(
                users,
                reg,
                planned_registration(existing, fresh_id, fresh_token, now),
            );
            let holder = match existing {
                Some(r) => r.id@,
                None => fresh_id@,
            };
            &&& after.contains_key(holder)
            &&& after[holder].email == reg.email@
            &&& forall|id: Seq<char>|
                #[trigger] after.contains_key(id) && after[id].email == reg.email@ ==> id == holder
        }),
{
    let step = planned_registration(existing, fresh_id, fresh_token, now);
    let after = after_registration(users, reg, step);
    let holder = match existing {
        Some(r) => r.id@,
        None => fresh_id@,
    };
    assert forall|id: Seq<char>| #[trigger] after.contains_key(id) && after[id].email == reg.email@ implies id == holder by {
        if id != holder {
            assert(users.contains_key(id));
            assert(users[id] == after[id]);
            if existing is Some {
                assert(users[holder].email == reg.email@);
            }
        }
    }
    assert forall|a: Seq<char>, b: Seq<char>|
        after.contains_key(a) && after.contains_key(b) && a != b implies
        #[trigger] after[a].email != #[trigger] after[b].email by {
        if a != holder && b != holder {
            assert(users[a].email != users[b].email);
        } else if a == holder {
            assert(users.contains_key(b) && users[b] == after[b]);
            if existing is Some {
                assert(users[holder].email != users[b].email);
            }
        } else {
            assert(users.contains_key(a) && users[a] == after[a]);
            if existing is Some {
                assert(users[holder].email != users[a].email);
            }
        }
    }
}

/// A registration keeps addresses and tokens unique, provided that the token
/// it issues (and, for a new user, its identifier) is not in use yet.
pub proof fn lemma_registration_keeps_users_wf(
    users: Users,
    reg: Registration,
    existing: Option<ExistingUserRow>,
    fresh_id: String,
    fresh_token: String,
    now: String,
)
    requires
        users_wf(users),
        fetched_by_email(users, reg.email@, existing),
        issues_token(existing) ==> token_unused(users, fresh_token@),
        existing is None ==> !users.contains_key(fresh_id@),
    ensures
        users_wf(
            after_registration(users, reg, planned_registration(existing, fresh_id, fresh_token, now)),
        ),
{
    let step = planned_registration(existing, fresh_id, fresh_token, now);
    let after = after_registration(users, reg, step);
    match step {
        RegistrationStep::AlreadyVerified => {},
        RegistrationStep::Refresh { user_id, token } => {
            assert forall|a: Seq<char>, b: Seq<char>|
                after.contains_key(a) && after.contains_key(b) && a != b implies
                after[a].email != after[b].email && after[a].token != after[b].token by {
                assert(users.contains_key(a) && users.contains_key(b));
                if a != user_id@ && b != user_id@ {
                    assert(users[a].email != users[b].email);
                    assert(users[a].token != users[b].token);
                } else if a == user_id@ {
                    assert(users[a].email != users[b].email);
                } else {
                    assert(users[a].email != users[b].email);
                }
            }
        },
        RegistrationStep::Create { user_id, token, created_at } => {
            assert forall|a: Seq<char>, b: Seq<char>|
                after.contains_key(a) && after.contains_key(b) && a != b implies
                after[a].email != after[b].email && after[a].token != after[b].token by {
                if a != user_id@ && b != user_id@ {
                    assert(users[a].email != users[b].email);
                    assert(users[a].token != users[b].token);
                } else if a == user_id@ {
                    assert(users.contains_key(b));
                } else {
                    assert(users.contains_key(a));
                }
            }
        },
    }
}


/// Following a link keeps addresses and tokens unique.
pub proof fn lemma_verification_keeps_users_wf(
    users: Users,
    token: Seq<char>,
    row: Option<TokenRow>,
    now: String,
)
    requires
        users_wf(users),
        fetched_by_token(users, token, row),
    ensures
        users_wf(after_verification(users, planned_verification(row, now))),
{
    let after = after_verification(users, planned_verification(row, now));
    assert forall|a: Seq<char>, b: Seq<char>|
        after.contains_key(a) && after.contains_key(b) && a != b implies
        after[a].email != after[b].email && after[a].token != after[b].token by {
        assert(users.contains_key(a) && users.contains_key(b));
        assert(users[a].email != users[b].email);
        assert(users[a].token != users[b].token);
    }
}

/// The link e-mailed for a new or refreshed registration works: looking up
/// its token afterwards finds the user just registered, unverified, and
/// following it verifies that user under the first names just given.
pub proof fn lemma_registered_token_verifies(
    users: Users,
    reg: Registration,
    existing: Option<ExistingUserRow>,
    fresh_id: String,
    fresh_token: String,
    now: String,
    row: Option<TokenRow>,
    later: String,
)
    requires
        users_wf(users),
        fetched_by_email(users, reg.email@, existing),
        issues_token(existing),
        token_unused(users, fresh_token@),
        existing is None ==> !users.contains_key(fresh_id@),
        fetched_by_token(
            after_registration(users, reg, planned_registration(existing, fresh_id, fresh_token, now)),
            fresh_token@,
            row,
        ),
    ensures
        row matches Some(r) && r.verified == 0 && r.first_names@ == reg.first_names@,
        verification_of(planned_verification(row, later)) matches VerificationResult::Verified {
            first_names,
        } && first_names@ == reg.first_names@,
        pending_token(pending_of(planned_registration(existing, fresh_id, fresh_token, now)))
            == Some(fresh_token),
{
    let step = planned_registration(existing, fresh_id, fresh_token, now);
    let after = after_registration(users, reg, step);
    let uid = match step {
        RegistrationStep::Refresh { user_id, .. } => user_id@,
        RegistrationStep::Create { user_id, .. } => user_id@,
        RegistrationStep::AlreadyVerified => fresh_id@,
    };
    assert(after.contains_key(uid) && after[uid].token == fresh_token@);
    if row is None {
        assert(after[uid].token != fresh_token@);
    }
    let r = row->0;
    if r.id@ != uid {
        assert(users.contains_key(r.id@));
        assert(users[r.id@].token != fresh_token@);
    }
}

/// Following a link twice: the second time finds the same user, already
/// verified, under the same first names; a link that found nobody still finds
/// nobody.
pub proof fn lemma_verification_is_idempotent(
    users: Users,
    token: Seq<char>,
    row: Option<TokenRow>,
    now: String,
    row2: Option<TokenRow>,
    later: String,
)
    requires
        users_wf(users),
        fetched_by_token(users, token, row),
        fetched_by_token(after_verification(users, planned_verification(row, now)), token, row2),
    ensures
        row is None ==> verification_of(planned_verification(row2, later)) is NotFound,
        row matches Some(r) ==> verification_of(planned_verification(row2, later)) matches
            VerificationResult::AlreadyVerified { first_names } && first_names@ == r.first_names@,
{
    let after = after_verification(users, planned_verification(row, now));
    if row is Some {
        let r = row->0;
        assert(after.contains_key(r.id@) && after[r.id@].token == token);
        if row2 is None {
            assert(after[r.id@].token != token);
        } else {
            let r2 = row2->0;
            if r2.id@ != r.id@ {
                assert(users.contains_key(r2.id@));
                assert(users[r2.id@].token == token);
            }
        }
    }
}

/// Registering an address that is already verified writes nothing, answers
/// that the address is already verified, and sends no e-mail.
pub proof fn lemma_verified_address_is_left_alone(
    users: Users,
    reg: Registration,
    existing: Option<ExistingUserRow>,
    fresh_id: String,
    fresh_token: String,
    now: String,
)
    requires
        fetched_by_email(users, reg.email@, existing),
        existing matches Some(r) && users[r.id@].verified,
    ensures
        planned_registration(existing, fresh_id, fresh_token, now) is AlreadyVerified,
        after_registration(users, reg, planned_registration(existing, fresh_id, fresh_token, now))
            == users,
        pending_of(planned_registration(existing, fresh_id, fresh_token, now)) is AlreadyVerified,
{
}

/// Registering again an address that is not verified yet replaces its token:
/// the link sent before no longer finds anyone.
pub proof fn lemma_new_token_retires_old_link(
    users: Users,
    reg: Registration,
    existing: Option<ExistingUserRow>,
    fresh_id: String,
    fresh_token: String,
    now: String,
    old_row: Option<TokenRow>,
)
    requires
        users_wf(users),
        fetched_by_email(users, reg.email@, existing),
        existing matches Some(r) && r.verified == 0,
        token_unused(users, fresh_token@),
        fetched_by_token(
            after_registration(users, reg, planned_registration(existing, fresh_id, fresh_token, now)),
            users[existing->0.id@].token,
            old_row,
        ),
    ensures
        old_row is None,
        verification_of(planned_verification(old_row, now)) is NotFound,
{
    let uid = existing->0.id@;
    let old_token = users[uid].token;
    let after = after_registration(users, reg, planned_registration(existing, fresh_id, fresh_token, now));
    if old_row is Some {
        let r = old_row->0;
        if r.id@ == uid {
            assert(after[uid].token == fresh_token@);
            assert(users[uid].token != fresh_token@);
        } else {
            assert(users.contains_key(r.id@));
            assert(users[r.id@].token == old_token);
        }
    }
}

/// A registration touches only the user of its address: every other user is
/// left as it was, and no user is removed.
pub proof fn lemma_registration_touches_one_user(
    users: Users,
    reg: Registration,
    existing: Option<ExistingUserRow>,
    fresh_id: String,
    fresh_token: String,
    now: String,
    other: Seq<char>,
)
    requires
        fetched_by_email(users, reg.email@, existing),
        users.contains_key(other),
        users[other].email != reg.email@,
    ensures
        after_registration(users, reg, planned_registration(existing, fresh_id, fresh_token, now))
            .contains_key(other),
        existing is Some ==> after_registration(
            users,
            reg,
            planned_registration(existing, fresh_id, fresh_token, now),
        )[other] == users[other],
        existing is None && other != fresh_id@ ==> after_registration(
            users,
            reg,
            planned_registration(existing, fresh_id, fresh_token, now),
        )[other] == users[other],
{
}

/// Neither a registration nor a verification ever turns a verified user back
/// into an unverified one.
pub proof fn lemma_verified_stays_verified(
    users: Users,
    reg: Registration,
    existing: Option<ExistingUserRow>,
    fresh_id: String,
    fresh_token: String,
    now: String,
    token: Seq<char>,
    row: Option<TokenRow>,
    id: Seq<char>,
)
    requires
        fetched_by_email(users, reg.email@, existing),
        fetched_by_token(users, token, row),
        existing is None ==> !users.contains_key(fresh_id@),
        users.contains_key(id),
        users[id].verified,
    ensures
        after_registration(users, reg, planned_registration(existing, fresh_id, fresh_token, now))[id].verified,
        after_verification(users, planned_verification(row, now))[id].verified,
{
    if existing is Some {
        let r = existing->0;
        if r.id@ == id {
            assert(r.verified != 0);
        }
    }
}

} // verus!
