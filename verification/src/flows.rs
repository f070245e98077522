//! The two request flows: registration (uniqueness check, hash, persist) and
//! login (lookup, verify password, issue token).
use vstd::prelude::*;

use crate::errors::AuthError;
use crate::hashing::{bcrypt_verdict, check_password, hash_password, is_bcrypt_hash, HASH_COST};
use crate::models::{clone_opt_string, AuthUser, Credential, LoginRequest};
use crate::store::{contains_email, cred_for, CredentialStore};
use crate::token::{claims_of, issue_post, issue_token, TOKEN_LIFETIME_SECONDS};

verus! {

/// The record registration persists for request `req` once the password has
/// been hashed to `h`: every field of the request, with the hash in place of
/// the plaintext.
pub open spec fn stored_credential(req: Credential, h: Seq<char>) -> Credential {
    Credential { email: req.email, password: h, full_name: req.full_name, phone_number: req.phone_number }
}

/// What registering `req` against a store holding `s0` does, leaving `s1`:
/// a duplicate email is refused; otherwise one record is appended whose
/// password field is a bcrypt hash of the request's password, and the only
/// other possible outcome is a hashing fault that leaves the store alone.
pub open spec fn register_post(
    s0: Seq<Credential>,
    s1: Seq<Credential>,
    req: Credential,
    r: Result<(), AuthError>,
) -> bool {
    match r {
        Ok(_) => !contains_email(s0, req.email) && (exists|h: Seq<char>|
            #![trigger bcrypt_verdict(req.password, h)]
            bcrypt_verdict(req.password, h) == Some(true) && is_bcrypt_hash(h) && s1 == s0.push(
                stored_credential(req, h),
            )),
        Err(e) => s1 == s0 && match e {
            AuthError::AlreadyRegistered => contains_email(s0, req.email),
            AuthError::HashingFailed => !contains_email(s0, req.email),
            _ => false,
        },
    }
}

/// Persists a record for `req` whose password field is `password_hash`,
/// refusing a duplicate email. Takes the hash as an argument, so it is
/// verified for every value the hashing routine can hand back.
pub fn register_hashed(store: &mut CredentialStore, req: &AuthUser, password_hash: String) -> (r:
    Result<(), AuthError>)
    requires
        old(store).wf(),
    ensures
        final(store).wf(),
        match r {
            Ok(_) => !contains_email(old(store)@, req@.email) && final(store)@ == old(store)@.push(
                stored_credential(req@, password_hash@),
            ),
            Err(e) => e == AuthError::AlreadyRegistered && contains_email(old(store)@, req@.email)
                && final(store)@ == old(store)@,
        },
{
    let record = AuthUser {
        email: req.email.clone(),
        password: password_hash,
        full_name: clone_opt_string(&req.full_name),
        phone_number: clone_opt_string(&req.phone_number),
    };
    store.insert(record)
}

/// Hashes the request's password and builds the record registration
/// persists: every field of the request, with the hash — never the
/// plaintext — in the password field.
pub fn prepare_registration(req: &AuthUser) -> (r: Result<AuthUser, AuthError>)
    ensures
        match r {
            Ok(rec) => exists|h: Seq<char>|
                #![trigger bcrypt_verdict(req@.password, h)]
                bcrypt_verdict(req@.password, h) == Some(true) && is_bcrypt_hash(h) && rec@
                    == stored_credential(req@, h),
            Err(e) => e == AuthError::HashingFailed,
        },
{
    let hashed = match hash_password(req.password.as_str(), HASH_COST) {
        Ok(h) => h,
        Err(_) => {
            return Err(AuthError::HashingFailed);
        },
    };
    proof {
        assert(bcrypt_verdict(req@.password, hashed@) == Some(true));
    }
    Ok(
        AuthUser {
            email: req.email.clone(),
            password: hashed,
            full_name: clone_opt_string(&req.full_name),
            phone_number: clone_opt_string(&req.phone_number),
        },
    )
}

/// The registration flow: refuses an email that already has a record, hashes
/// the password, and persists the record with the hash — never the
/// plaintext.
pub fn register(store: &mut CredentialStore, req: &AuthUser) -> (r: Result<(), AuthError>)
    requires
        old(store).wf(),
    ensures
        final(store).wf(),
        register_post(old(store)@, final(store)@, req@, r),
{
    if store.find_by_email(&req.email).is_some() {
        return Err(AuthError::AlreadyRegistered);
    }
    let hashed = match hash_password(req.password.as_str(), HASH_COST) {
        Ok(h) => h,
        Err(_) => {
            return Err(AuthError::HashingFailed);
        },
    };
    register_hashed(store, req, hashed)
}

/// What deciding a login against an already looked-up record does: with no
/// record, or a password the stored hash does not accept, the outcome is
/// `InvalidCredentials` — the same in both cases; with a matching password a
/// token for `email`, expiring 24 hours past `now`, is always issued.
pub open spec fn login_found_post(
    found: Option<Credential>,
    email: Seq<char>,
    password: Seq<char>,
    now: usize,
    secret: Seq<char>,
    r: Result<Seq<char>, AuthError>,
) -> bool {
    let good = found matches Some(u) && bcrypt_verdict(password, u.password) == Some(true);
    match r {
        Ok(t) => good && issue_post(email, now, secret, Ok(t)),
        Err(e) => !good && e == AuthError::InvalidCredentials,
    }
}

/// What the login flow returns against a store holding `s`.
pub open spec fn login_post(
    s: Seq<Credential>,
    email: Seq<char>,
    password: Seq<char>,
    now: usize,
    secret: Seq<char>,
    r: Result<Seq<char>, AuthError>,
) -> bool {
    login_found_post(
        if contains_email(s, email) {
            Some(cred_for(s, email))
        } else {
            None
        },
        email,
        password,
        now,
        secret,
        r,
    )
}

/// Decides a login for `email` once the store has been consulted: verifies
/// the password against the record's hash and issues the token. A missing
/// record, a mismatch and a malformed stored hash all yield the same
/// `InvalidCredentials`.
pub fn login_with_record(
    found: Option<&AuthUser>,
    email: &str,
    password: &str,
    now: usize,
    secret: &str,
) -> (r: Result<String, AuthError>)
    requires
        now + TOKEN_LIFETIME_SECONDS <= usize::MAX,
    ensures
        login_found_post(
            (match found {
                Some(u) => Some(u@),
                None => None,
            }),
            email@,
            password@,
            now,
            secret@,
            (match r {
                Ok(t) => Ok(t@),
                Err(e) => Err(e),
            }),
        ),
{
    let user = match found {
        Some(u) => u,
        None => {
            return Err(AuthError::InvalidCredentials);
        },
    };
    let accepted = match check_password(password, user.password.as_str()) {
        Ok(b) => b,
        Err(_) => false,
    };
    if !accepted {
        return Err(AuthError::InvalidCredentials);
    }
    issue_token(email, now, secret)
}

/// The login flow: looks the email up and decides as `login_with_record`
/// says.
pub fn login(store: &CredentialStore, req: &LoginRequest, now: usize, secret: &str) -> (r: Result<
    String,
    AuthError,
>)
    requires
        store.wf(),
        now + TOKEN_LIFETIME_SECONDS <= usize::MAX,
    ensures
        login_post(
            store@,
            req.email@,
            req.password@,
            now,
            secret@,
            (match r {
                Ok(t) => Ok(t@),
                Err(e) => Err(e),
            }),
        ),
{
    let found = store.find_by_email(&req.email);
    login_with_record(found, req.email.as_str(), req.password.as_str(), now, secret)
}

/// Registering once and then registering again with the same email: the
/// second attempt can only fail with `AlreadyRegistered`, and it leaves the
/// store unchanged.
pub proof fn lemma_duplicate_registration(
    s0: Seq<Credential>,
    s1: Seq<Credential>,
    s2: Seq<Credential>,
    req1: Credential,
    req2: Credential,
    r2: Result<(), AuthError>,
)
    requires
        register_post(s0, s1, req1, Ok(())),
        register_post(s1, s2, req2, r2),
        req2.email == req1.email,
    ensures
        r2 == Err::<(), AuthError>(AuthError::AlreadyRegistered),
        s2 == s1,
{
    let h = choose|h: Seq<char>|
        #![trigger bcrypt_verdict(req1.password, h)]
        bcrypt_verdict(req1.password, h) == Some(true) && is_bcrypt_hash(h) && s1 == s0.push(
            stored_credential(req1, h),
        );
    assert(s1[s1.len() - 1].email == req1.email);
    assert(contains_email(s1, req2.email));
}

/// What a successful registration stores is the hash, never the plaintext:
/// the new record's password field is accepted by the password that was
/// registered, and — whenever the plaintext is not itself shaped like a
/// bcrypt hash — differs from it.
pub proof fn lemma_stored_password_not_plaintext(
    s0: Seq<Credential>,
    s1: Seq<Credential>,
    req: Credential,
)
    requires
        register_post(s0, s1, req, Ok(())),
        !is_bcrypt_hash(req.password),
    ensures
        contains_email(s1, req.email),
        cred_for(s1, req.email).password != req.password,
        bcrypt_verdict(req.password, cred_for(s1, req.email).password) == Some(true),
{
    let h = choose|h: Seq<char>|
        #![trigger bcrypt_verdict(req.password, h)]
        bcrypt_verdict(req.password, h) == Some(true) && is_bcrypt_hash(h) && s1 == s0.push(
            stored_credential(req, h),
        );
    assert(s1[s1.len() - 1].email == req.email);
    assert(contains_email(s1, req.email));
    let k = choose|i: int| 0 <= i < s1.len() && s1[i].email == req.email;
    if k < s0.len() {
        assert(s1[k] == s0[k]);
        assert(contains_email(s0, req.email));
    }
    assert(cred_for(s1, req.email) == stored_credential(req, h));
}

/// Login with the correct password for a registered email always yields a
/// non-empty token that decodes, under the same secret, to that email,
/// expiring 24 hours past `now`.
pub proof fn lemma_login_token_subject(
    s: Seq<Credential>,
    email: Seq<char>,
    password: Seq<char>,
    now: usize,
    secret: Seq<char>,
    r: Result<Seq<char>, AuthError>,
)
    requires
        login_post(s, email, password, now, secret, r),
        contains_email(s, email),
        bcrypt_verdict(password, cred_for(s, email).password) == Some(true),
    ensures
        r matches Ok(t) && t.len() > 0 && claims_of(t, secret) == Some(
            (email, now + TOKEN_LIFETIME_SECONDS as int),
        ),
{
}

/// Login with an email that was never registered and login with a wrong
/// password for a registered email fail with one and the same error.
pub proof fn lemma_login_failures_identical(
    s: Seq<Credential>,
    email1: Seq<char>,
    password1: Seq<char>,
    email2: Seq<char>,
    password2: Seq<char>,
    now: usize,
    secret: Seq<char>,
    r1: Result<Seq<char>, AuthError>,
    r2: Result<Seq<char>, AuthError>,
)
    requires
        login_post(s, email1, password1, now, secret, r1),
        login_post(s, email2, password2, now, secret, r2),
        !contains_email(s, email1),
        contains_email(s, email2),
        bcrypt_verdict(password2, cred_for(s, email2).password) != Some(true),
    ensures
        r1 == Err::<Seq<char>, AuthError>(AuthError::InvalidCredentials),
        r2 == r1,
{
}

} // verus!
