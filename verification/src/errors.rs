//! The closed set of errors the registration and login flows can produce,
//! with their mapping onto HTTP status codes and response bodies.
use vstd::prelude::*;

verus! {

/// Everything that can go wrong in the registration and authentication flows.
///
/// `InvalidCredentials` deliberately covers both "unknown email" and "wrong
/// password", so that a response never reveals whether an email is registered.
#[derive(Clone, Copy, Debug, PartialEq, Eq, Structural)]
pub enum AuthError {
    /// Registration was attempted for an email that already has a record.
    AlreadyRegistered,
    /// Login failed: the email is unknown, the password does not match the
    /// stored hash, or the stored hash is malformed.
    InvalidCredentials,
    /// The password hashing routine reported an internal fault.
    HashingFailed,
    /// The token signing routine reported an internal fault.
    TokenIssuanceFailed,
    /// The credential store reported an internal fault.
    StorageFailed,
    /// The signing secret was not supplied at startup.
    ConfigurationMissing,
}

/// The HTTP status each error maps to at the flow boundary.
pub open spec fn spec_http_status(e: AuthError) -> u16 {
    match e {
        AuthError::AlreadyRegistered => 409,
        AuthError::InvalidCredentials => 401,
        AuthError::HashingFailed => 500,
        AuthError::TokenIssuanceFailed => 500,
        AuthError::StorageFailed => 500,
        AuthError::ConfigurationMissing => 500,
    }
}

/// The generic, non-revealing message each error maps to.
pub open spec fn spec_message(e: AuthError) -> Seq<char> {
    match e {
        AuthError::AlreadyRegistered => "User already exists!"@,
        AuthError::InvalidCredentials => "Invalid credentials"@,
        AuthError::HashingFailed => "Failed to hash password"@,
        AuthError::TokenIssuanceFailed => "Failed to generate token"@,
        AuthError::StorageFailed => "Database error"@,
        AuthError::ConfigurationMissing => "JWT_SECRET must be set"@,
    }
}

impl AuthError {
    /// The HTTP status code this error is reported with.
    pub fn http_status(&self) -> (r: u16)
        ensures
            r == spec_http_status(*self),
    {
        match self {
            AuthError::AlreadyRegistered => 409,
            AuthError::InvalidCredentials => 401,
            AuthError::HashingFailed => 500,
            AuthError::TokenIssuanceFailed => 500,
            AuthError::StorageFailed => 500,
            AuthError::ConfigurationMissing => 500,
        }
    }

    /// The response body this error is reported with. The same variant always
    /// produces the same body, so the two causes folded into
    /// `InvalidCredentials` are indistinguishable to a client.
    pub fn message(&self) -> (r: &'static str)
        ensures
            r@ == spec_message(*self),
    {
        match self {
            AuthError::AlreadyRegistered => "User already exists!",
            AuthError::InvalidCredentials => "Invalid credentials",
            AuthError::HashingFailed => "Failed to hash password",
            AuthError::TokenIssuanceFailed => "Failed to generate token",
            AuthError::StorageFailed => "Database error",
            AuthError::ConfigurationMissing => "JWT_SECRET must be set",
        }
    }
}

} // verus!
