//! The data carried through the flows: credential records, request bodies,
//! and token claims, together with their mathematical views.
use vstd::prelude::*;

verus! {

/// Mathematical view of one credential record: what the store remembers
/// about one email.
pub ghost struct Credential {
    pub email: Seq<char>,
    pub password: Seq<char>,
    pub full_name: Option<Seq<char>>,
    pub phone_number: Option<Seq<char>>,
}

/// A registration request body, and equally the persisted credential record:
/// on the way in `password` is the plaintext, in the store it is the hash.
pub struct AuthUser {
    pub email: String,
    pub password: String,
    pub full_name: Option<String>,
    pub phone_number: Option<String>,
}

impl View for AuthUser {
    type V = Credential;

    open spec fn view(&self) -> Credential {
        Credential {
            email: self.email@,
            password: self.password@,
            full_name: self.full_name.deep_view(),
            phone_number: self.phone_number.deep_view(),
        }
    }
}

/// A login request body.
pub struct LoginRequest {
    pub email: String,
    pub password: String,
}

/// A stored user as the wider API sees it; `id` is the store's document
/// identifier rendered as a hexadecimal string.
pub struct User {
    pub id: Option<String>,
    pub email: String,
    pub password: String,
    pub full_name: Option<String>,
    pub phone_number: Option<String>,
}

/// The claims carried by a signed token: the authenticated email and an
/// absolute expiry timestamp in seconds.
#[derive(Debug, PartialEq, Eq)]
pub struct Claims {
    pub sub: String,
    pub exp: usize,
}

/// Copies an optional string; the copy has the same abstract value.
pub fn clone_opt_string(s: &Option<String>) -> (r: Option<String>)
    ensures
        r.deep_view() == s.deep_view(),
{
    match s {
        Some(v) => Some(v.clone()),
        None => None,
    }
}

} // verus!
