//! User-facing account queries and mutations: the decisions and conversions
//! behind the user list/lookup queries and the profile-update,
//! password-reset and account-deletion mutations. The surrounding document
//! lookups and updates are performed by the caller, which hands the fetched
//! records in and carries the decided changes out.
use vstd::prelude::*;

use crate::hashing::{bcrypt_verdict, check_password, hash_password, is_bcrypt_hash};
use crate::models::User;

verus! {

/// A user as the query surface exposes it: everything but the password hash.
pub struct GQLUser {
    pub id: String,
    pub email: String,
    pub full_name: Option<String>,
    pub phone_number: Option<String>,
}

/// The identifier string a record is exposed under: its stored id, or empty
/// when it has none.
pub open spec fn exposed_id(id: Option<Seq<char>>) -> Seq<char> {
    match id {
        Some(s) => s,
        None => Seq::empty(),
    }
}

/// Whether `g` is exactly the exposed form of `u`: same identifier, email
/// and descriptive fields — and, the struct having no such field, none of
/// the password hash.
pub open spec fn exposes_user(g: GQLUser, u: User) -> bool {
    &&& g.id@ == exposed_id(u.id.deep_view())
    &&& g.email@ == u.email@
    &&& g.full_name.deep_view() == u.full_name.deep_view()
    &&& g.phone_number.deep_view() == u.phone_number.deep_view()
}

impl GQLUser {
    /// Converts a stored record to its exposed form, dropping the password
    /// hash.
    pub fn from(user: User) -> (r: GQLUser)
        ensures
            exposes_user(r, user),
    {
        GQLUser {
            id: match user.id {
                Some(id) => id,
                None => String::new(),
            },
            email: user.email,
            full_name: user.full_name,
            phone_number: user.phone_number,
        }
    }
}

/// The user query surface.
pub struct Query;

impl Query {
    /// The list query: every fetched record, in order, in its exposed form.
    pub fn users(&self, found: Vec<User>) -> (r: Vec<GQLUser>)
        ensures
            r@.len() == found@.len(),
            forall|i: int| 0 <= i < found@.len() ==> exposes_user(r@[i], found@[i]),
    {
        let mut out: Vec<GQLUser> = Vec::new();
        let mut users = found;
        let total = users.len();
        let ghost all = users@;
        let mut i: usize = 0;
        while users.len() > 0
            invariant
                users@ == all.skip(i as int),
                i <= all.len(),
                all.len() == total,
                out@.len() == i,
                forall|j: int| 0 <= j < i ==> exposes_user(out@[j], all[j]),
            decreases all.len() - i,
        {
            let u = users.remove(0);
            proof {
                assert(u == all[i as int]);
                assert(users@ == all.skip(i as int + 1));
            }
            out.push(GQLUser::from(u));
            i = i + 1;
        }
        out
    }

    /// The single-user query: the fetched record, if any, in its exposed
    /// form.
    pub fn user(&self, found: Option<User>) -> (r: Option<GQLUser>)
        ensures
            match r {
                Some(g) => found matches Some(u) && exposes_user(g, u),
                None => found is None,
            },
    {
        match found {
            Some(u) => Some(GQLUser::from(u)),
            None => None,
        }
    }
}

/// The outcome a mutation reports back.
pub struct MutationResponse {
    pub success: bool,
    pub message: String,
}

/// Whether two optional strings hold the same text.
pub fn opt_string_eq(a: &Option<String>, b: &Option<String>) -> (r: bool)
    ensures
        r == (a.deep_view() == b.deep_view()),
{
    match (a, b) {
        (Some(x), Some(y)) => *x == *y,
        (None, None) => true,
        _ => false,
    }
}

/// Everything the account mutations can be refused for, short of the store
/// itself failing.
#[derive(Clone, Copy, Debug, PartialEq, Eq, Structural)]
pub enum AccountError {
    /// No record carries the submitted email.
    UserNotFound,
    /// The password hashing or verification routine reported an internal
    /// fault.
    HashingFailed,
}

/// The message each refusal is reported with.
pub open spec fn spec_account_message(e: AccountError) -> Seq<char> {
    match e {
        AccountError::UserNotFound => "User not found!"@,
        AccountError::HashingFailed => "Failed to hash password"@,
    }
}

impl AccountError {
    /// The message this refusal is reported with.
    pub fn message(&self) -> (r: &'static str)
        ensures
            r@ == spec_account_message(*self),
    {
        match self {
            AccountError::UserNotFound => "User not found!",
            AccountError::HashingFailed => "Failed to hash password",
        }
    }
}

/// The user mutation surface.
pub struct Mutation;

impl Mutation {
    /// The profile-update decision over the lookup result: with no record
    /// the update is refused; when the submitted name and phone number are
    /// exactly what the record already holds, reports "no changes" and asks
    /// for no store update; otherwise (`Ok(None)`) hands the caller on to
    /// the store update.
    pub fn update_user(&self, found: Option<&User>, full_name: &Option<String>, phone_number:
        &Option<String>) -> (r: Result<Option<MutationResponse>, AccountError>)
        ensures
            match r {
                Ok(opt) => found matches Some(u) && (match opt {
                    Some(resp) => u.full_name.deep_view() == full_name.deep_view()
                        && u.phone_number.deep_view() == phone_number.deep_view() && !resp.success
                        && resp.message@
                        == "No changes detected. Please update with new information."@,
                    None => u.full_name.deep_view() != full_name.deep_view()
                        || u.phone_number.deep_view() != phone_number.deep_view(),
                }),
                Err(e) => e == AccountError::UserNotFound && found is None,
            },
    {
        let user = match found {
            Some(u) => u,
            None => {
                return Err(AccountError::UserNotFound);
            },
        };
        if opt_string_eq(&user.full_name, full_name) && opt_string_eq(
            &user.phone_number,
            phone_number,
        ) {
            Ok(
                Some(
                    MutationResponse {
                        success: false,
                        message: "No changes detected. Please update with new information.".to_string(),
                    },
                ),
            )
        } else {
            Ok(None)
        }
    }

    /// Maps the store's report of a profile update onto the response: the
    /// update succeeded exactly when a document was modified.
    pub fn update_user_result(&self, modified_count: u64) -> (r: MutationResponse)
        ensures
            r.success == (modified_count > 0),
            modified_count > 0 ==> r.message@ == "User updated successfully"@,
            modified_count == 0 ==> r.message@ == "Failed to update user. Please try again."@,
    {
        if modified_count == 0 {
            MutationResponse {
                success: false,
                message: "Failed to update user. Please try again.".to_string(),
            }
        } else {
            MutationResponse { success: true, message: "User updated successfully".to_string() }
        }
    }

    /// The password-reset decision over the lookup result: with no record
    /// the reset is refused; otherwise the old password is verified against
    /// the record's hash and, on a match, the new password is hashed and the
    /// new hash handed back for the caller to persist. `Ok(None)` reports a
    /// wrong old password; a hashing fault is `HashingFailed`.
    pub fn reset_password(&self, found: Option<&User>, old_password: &str, new_password: &str) -> (r:
        Result<Option<String>, AccountError>)
        ensures
            match r {
                Ok(opt) => found matches Some(u) && (match opt {
                    Some(h) => bcrypt_verdict(old_password@, u.password@) == Some(true)
                        && is_bcrypt_hash(h@) && bcrypt_verdict(new_password@, h@) == Some(true),
                    None => bcrypt_verdict(old_password@, u.password@) == Some(false),
                }),
                Err(e) => match e {
                    AccountError::UserNotFound => found is None,
                    AccountError::HashingFailed => found matches Some(u) && (bcrypt_verdict(
                        old_password@,
                        u.password@,
                    ) is None || bcrypt_verdict(old_password@, u.password@) == Some(true)),
                },
            },
    {
        let user = match found {
            Some(u) => u,
            None => {
                return Err(AccountError::UserNotFound);
            },
        };
        let matched = match check_password(old_password, user.password.as_str()) {
            Ok(b) => b,
            Err(_) => {
                return Err(AccountError::HashingFailed);
            },
        };
        if !matched {
            return Ok(None);
        }
        match hash_password(new_password, crate::hashing::DEFAULT_COST) {
            Ok(h) => Ok(Some(h)),
            Err(_) => Err(AccountError::HashingFailed),
        }
    }

    /// The response a wrong old password is reported with.
    pub fn reset_password_rejected(&self) -> (r: MutationResponse)
        ensures
            !r.success,
            r.message@ == "Incorrect old password!"@,
    {
        MutationResponse { success: false, message: "Incorrect old password!".to_string() }
    }

    /// The response a persisted password reset is reported with.
    pub fn reset_password_done(&self) -> (r: MutationResponse)
        ensures
            r.success,
            r.message@ == "Password reset successfully!"@,
    {
        MutationResponse { success: true, message: "Password reset successfully!".to_string() }
    }

    /// Maps the store's report of an account deletion onto the response: the
    /// deletion succeeded exactly when a document was deleted.
    pub fn delete_account(&self, deleted_count: u64) -> (r: MutationResponse)
        ensures
            r.success == (deleted_count > 0),
            deleted_count > 0 ==> r.message@ == "Account deleted successfully!"@,
            deleted_count == 0 ==> r.message@ == "User not found!"@,
    {
        if deleted_count == 0 {
            MutationResponse { success: false, message: "User not found!".to_string() }
        } else {
            MutationResponse { success: true, message: "Account deleted successfully!".to_string() }
        }
    }
}

} // verus!
