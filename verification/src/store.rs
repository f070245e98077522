//! The credential store: a collection of credential records keyed by email,
//! with at most one record per email.
//!
//! This is the library's model of the backing `users` collection. The two
//! operations mirror the store contract the flows rely on: a lookup by email
//! and an insert that refuses a duplicate email.
use vstd::prelude::*;

use crate::errors::AuthError;
use crate::models::{AuthUser, Credential};

verus! {

/// Whether some record in `s` carries `email`.
pub open spec fn contains_email(s: Seq<Credential>, email: Seq<char>) -> bool {
    exists|i: int| 0 <= i < s.len() && s[i].email == email
}

/// The record carrying `email`; meaningful when `contains_email(s, email)`
/// holds and emails are unique.
pub open spec fn cred_for(s: Seq<Credential>, email: Seq<char>) -> Credential {
    s[choose|i: int| 0 <= i < s.len() && s[i].email == email]
}

/// At most one record per email.
pub open spec fn emails_unique(s: Seq<Credential>) -> bool {
    forall|i: int, j: int|
        0 <= i < j < s.len() ==> s[i].email != s[j].email
}

/// The in-memory credential store.
pub struct CredentialStore {
    records: Vec<AuthUser>,
}

impl View for CredentialStore {
    type V = Seq<Credential>;

    closed spec fn view(&self) -> Seq<Credential> {
        self.records@.map_values(|u: AuthUser| u@)
    }
}

impl CredentialStore {
    /// The store's invariant: emails are unique.
    pub open spec fn wf(&self) -> bool {
        emails_unique(self@)
    }

    /// An empty store.
    pub fn new() -> (r: CredentialStore)
        ensures
            r@ == Seq::<Credential>::empty(),
            r.wf(),
    {
        let r = CredentialStore { records: Vec::new() };
        proof {
            assert(r@ =~= Seq::<Credential>::empty());
        }
        r
    }

    /// How many records are stored.
    pub fn len(&self) -> (r: usize)
        ensures
            r == self@.len(),
    {
        self.records.len()
    }

    /// Looks the record for `email` up; returns it exactly when one is
    /// stored.
    pub fn find_by_email(&self, email: &String) -> (r: Option<&AuthUser>)
        requires
            self.wf(),
        ensures
            match r {
                Some(u) => contains_email(self@, email@) && u@ == cred_for(self@, email@),
                None => !contains_email(self@, email@),
            },
    {
        let n = self.records.len();
        let mut i: usize = 0;
        while i < n
            invariant
                n == self.records.len(),
                i <= n,
                self.wf(),
                forall|j: int| 0 <= j < i ==> self@[j].email != email@,
            decreases n - i,
        {
            if self.records[i].email == *email {
                proof {
                    assert(self@[i as int].email == email@);
                    let k = choose|k: int| 0 <= k < self@.len() && self@[k].email == email@;
                    assert(!(k < i) && !(i < k));
                }
                return Some(&self.records[i]);
            }
            i = i + 1;
        }
        None
    }

    /// Inserts a record. Fails, leaving the store unchanged, exactly when a
    /// record with the same email is already stored.
    pub fn insert(&mut self, user: AuthUser) -> (r: Result<(), AuthError>)
        requires
            old(self).wf(),
        ensures
            final(self).wf(),
            match r {
                Ok(_) => !contains_email(old(self)@, user@.email) && final(self)@ == old(self)@.push(
                    user@,
                ),
                Err(e) => e == AuthError::AlreadyRegistered && contains_email(
                    old(self)@,
                    user@.email,
                ) && final(self)@ == old(self)@,
            },
    {
        if self.find_by_email(&user.email).is_some() {
            return Err(AuthError::AlreadyRegistered);
        }
        self.records.push(user);
        proof {
            assert(self@ =~= old(self)@.push(user@));
            assert forall|i: int, j: int| 0 <= i < j < self@.len() implies self@[i].email
                != self@[j].email by {
                if j == self@.len() - 1 {
                    assert(contains_email(old(self)@, self@[i].email) ==> self@[j].email
                        != self@[i].email);
                }
            }
        }
        Ok(())
    }
}

} // verus!
