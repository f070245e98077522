use rust_auth::errors::AuthError;
use rust_auth::flows::{login, prepare_registration, register, register_hashed};
use rust_auth::models::{AuthUser, LoginRequest};
use rust_auth::store::CredentialStore;
use rust_auth::token::{issue_token, require_secret, verify_token, TOKEN_LIFETIME_SECONDS};

const NOW: usize = 1_700_000_000;
const SECRET: &str = "test-signing-secret";

fn request(email: &str, password: &str) -> AuthUser {
    AuthUser {
        email: email.to_string(),
        password: password.to_string(),
        full_name: Some("Test User".to_string()),
        phone_number: None,
    }
}

fn login_request(email: &str, password: &str) -> LoginRequest {
    LoginRequest { email: email.to_string(), password: password.to_string() }
}

#[test]
fn register_twice_same_email_conflicts() {
    let mut store = CredentialStore::new();
    assert!(register(&mut store, &request("a@b.com", "pw1")).is_ok());
    let second = register(&mut store, &request("a@b.com", "other"));
    assert_eq!(second, Err(AuthError::AlreadyRegistered));
    assert_eq!(store.len(), 1);
}

#[test]
fn register_distinct_emails_both_stored() {
    let mut store = CredentialStore::new();
    assert!(register(&mut store, &request("a@b.com", "pw1")).is_ok());
    assert!(register(&mut store, &request("c@d.com", "pw2")).is_ok());
    assert_eq!(store.len(), 2);
}

#[test]
fn stored_password_is_not_the_plaintext() {
    let mut store = CredentialStore::new();
    assert!(register(&mut store, &request("a@b.com", "hunter2")).is_ok());
    let record = store.find_by_email(&"a@b.com".to_string()).expect("record stored");
    assert_ne!(record.password, "hunter2");
    assert_eq!(record.password.len(), 60);
    assert!(record.password.starts_with("$2"));
    assert_eq!(record.email, "a@b.com");
    assert_eq!(record.full_name.as_deref(), Some("Test User"));
}

#[test]
fn prepare_registration_hashes_and_keeps_fields() {
    let rec = prepare_registration(&request("a@b.com", "hunter2")).expect("hashing works");
    assert_eq!(rec.email, "a@b.com");
    assert_ne!(rec.password, "hunter2");
    assert!(bcrypt::verify("hunter2", &rec.password).unwrap());
}

#[test]
fn register_hashed_stores_the_given_hash() {
    let mut store = CredentialStore::new();
    let hash = bcrypt::hash("pw", 4).unwrap();
    let req = request("a@b.com", "pw");
    assert!(register_hashed(&mut store, &req, hash.clone()).is_ok());
    let record = store.find_by_email(&"a@b.com".to_string()).expect("stored");
    assert_eq!(record.password, hash);
    let dup = register_hashed(&mut store, &req, hash);
    assert_eq!(dup, Err(AuthError::AlreadyRegistered));
}

#[test]
fn login_with_correct_password_yields_token_for_that_email() {
    let mut store = CredentialStore::new();
    register(&mut store, &request("a@b.com", "secret1")).unwrap();
    let token = login(&store, &login_request("a@b.com", "secret1"), NOW, SECRET)
        .expect("correct credentials log in");
    assert!(!token.is_empty());
    let claims = verify_token(&token, SECRET, NOW).expect("fresh token verifies");
    assert_eq!(claims.sub, "a@b.com");
    assert_eq!(claims.exp, NOW + TOKEN_LIFETIME_SECONDS);
}

#[test]
fn login_failures_are_indistinguishable() {
    let mut store = CredentialStore::new();
    register(&mut store, &request("a@b.com", "secret1")).unwrap();
    let wrong_password = login(&store, &login_request("a@b.com", "wrong"), NOW, SECRET);
    let unknown_email = login(&store, &login_request("x@y.com", "secret1"), NOW, SECRET);
    assert_eq!(wrong_password, Err(AuthError::InvalidCredentials));
    assert_eq!(unknown_email, wrong_password);
    let e1 = wrong_password.unwrap_err();
    let e2 = unknown_email.unwrap_err();
    assert_eq!(e1.http_status(), 401);
    assert_eq!(e1.http_status(), e2.http_status());
    assert_eq!(e1.message(), e2.message());
}

#[test]
fn issued_token_round_trips_immediately() {
    let token = issue_token("a@b.com", NOW, SECRET).expect("issuing works");
    let claims = verify_token(&token, SECRET, NOW).expect("verifies right away");
    assert_eq!(claims.sub, "a@b.com");
    assert_eq!(claims.exp, NOW + TOKEN_LIFETIME_SECONDS);
}

#[test]
fn expired_token_is_rejected_despite_valid_signature() {
    let token = issue_token("a@b.com", 1_000, SECRET).expect("issuing works");
    // Same secret, so the signature is valid; only the expiry has passed.
    let late = 1_000 + TOKEN_LIFETIME_SECONDS + 1;
    assert_eq!(verify_token(&token, SECRET, late), Err(AuthError::InvalidCredentials));
    // At the expiry instant itself the token is no longer valid either.
    assert_eq!(
        verify_token(&token, SECRET, 1_000 + TOKEN_LIFETIME_SECONDS),
        Err(AuthError::InvalidCredentials)
    );
}

#[test]
fn token_with_wrong_secret_or_garbage_is_rejected() {
    let token = issue_token("a@b.com", NOW, SECRET).expect("issuing works");
    assert_eq!(verify_token(&token, "another-secret", NOW), Err(AuthError::InvalidCredentials));
    assert_eq!(verify_token("not.a.token", SECRET, NOW), Err(AuthError::InvalidCredentials));
    assert_eq!(verify_token("", SECRET, NOW), Err(AuthError::InvalidCredentials));
}

#[test]
fn tampered_token_is_rejected() {
    let token = issue_token("a@b.com", NOW, SECRET).expect("issuing works");
    assert!(token.starts_with("ey"));
    // Every issued token opens with the base64 of the JSON header, so this
    // replacement is guaranteed to alter it.
    let tampered = format!("X{}", &token[1..]);
    assert_eq!(verify_token(&tampered, SECRET, NOW), Err(AuthError::InvalidCredentials));
}

#[test]
fn scenario_register_conflict_then_login() {
    let mut store = CredentialStore::new();
    // register {email:"u@x.com", password:"secret1"} -> success (HTTP 200)
    assert!(register(&mut store, &request("u@x.com", "secret1")).is_ok());
    // same email again -> 409
    let again = register(&mut store, &request("u@x.com", "secret1"));
    assert_eq!(again.unwrap_err().http_status(), 409);
    // wrong password -> 401
    let wrong = login(&store, &login_request("u@x.com", "wrong"), NOW, SECRET);
    assert_eq!(wrong.unwrap_err().http_status(), 401);
    // correct password -> 200 with a non-empty token
    let token = login(&store, &login_request("u@x.com", "secret1"), NOW, SECRET).unwrap();
    assert!(!token.is_empty());
}

#[test]
fn missing_secret_is_a_configuration_error() {
    assert_eq!(require_secret(None), Err(AuthError::ConfigurationMissing));
    assert_eq!(require_secret(Some("k".to_string())), Ok("k".to_string()));
}

#[test]
fn error_statuses_and_messages() {
    assert_eq!(AuthError::AlreadyRegistered.http_status(), 409);
    assert_eq!(AuthError::InvalidCredentials.http_status(), 401);
    assert_eq!(AuthError::HashingFailed.http_status(), 500);
    assert_eq!(AuthError::TokenIssuanceFailed.http_status(), 500);
    assert_eq!(AuthError::StorageFailed.http_status(), 500);
    assert_eq!(AuthError::ConfigurationMissing.http_status(), 500);
    assert_eq!(AuthError::AlreadyRegistered.message(), "User already exists!");
    assert_eq!(AuthError::InvalidCredentials.message(), "Invalid credentials");
}
