//! Authentication core for a small user/post backend: a credential store
//! keyed by email, a registration flow that hashes passwords before they are
//! persisted, a login flow that verifies a password against the stored hash
//! and issues a signed, time-limited token, and the decision logic behind
//! the surrounding user and post management surface.
pub mod accounts;
pub mod errors;
pub mod flows;
pub mod hashing;
pub mod models;
pub mod posts;
pub mod schema;
pub mod store;
pub mod token;
