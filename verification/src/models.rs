//! Data carried between the flow and the persistence collaborator.
//! Timestamps are plain Unix seconds, so the records hold nothing the
//! contracts cannot speak about.

use vstd::prelude::*;

verus! {

/// A stored credential row: the unique username, the associated email, and
/// the salted password hash — never the plaintext password.
#[derive(Debug, Clone)]
pub struct User {
    /// Row identifier assigned by the store.
    pub id: i32,
    /// Unique, immutable identifier of the account.
    pub username: String,
    /// Address associated at registration.
    pub email: String,
    /// Salted hash string; opaque to everything but the hasher.
    pub password_hash: String,
    /// Creation time, Unix seconds.
    pub created_at: i64,
}

/// One audit entry: which network action was taken and by whom. Storage and
/// ordering belong to the persistence collaborator.
#[derive(Debug, Clone)]
pub struct NetworkAction {
    /// Row identifier assigned by the store.
    pub id: i32,
    /// The action taken, `"enable"` or `"disable"`.
    pub action: String,
    /// The authenticated subject that performed it.
    pub performed_by: String,
    /// When it was recorded, Unix seconds.
    pub timestamp: i64,
}

} // verus!
