//! Authentication flow: registration (hash, then hand the record to the
//! persistence collaborator) and login (verify the fetched credential, then
//! issue a session token). The collaborator itself is outside this library;
//! the flow receives its reports as plain outcomes and decides everything
//! else, so the decisions are verified for every report it can make.

use crate::hasher::{hash_password, verifies, verify_password};
use crate::models::User;
use crate::token::{create_jwt, token_of, TOKEN_LIFETIME_SECS};
use vstd::prelude::*;

verus! {

/// A registration request: the caller's chosen identity and plaintext
/// password, which never leaves the flow.
pub struct RegisterUser {
    /// Unique identifier the account will be keyed by.
    pub username: String,
    /// Address to associate with the account.
    pub email: String,
    /// Plaintext password; hashed at once, never stored or echoed.
    pub password: String,
}

/// A login request.
pub struct LoginUser {
    /// The account to authenticate as.
    pub username: String,
    /// The password to check.
    pub password: String,
}

/// A credential prepared for insertion: the hash stands in for the password.
pub struct NewCredential {
    /// Unique identifier the account is keyed by.
    pub username: String,
    /// Address associated with the account.
    pub email: String,
    /// Salted hash of the registration password.
    pub password_hash: String,
}

/// What the persistence collaborator reported for an insert.
#[derive(Debug, Clone, PartialEq, Eq, Structural)]
pub enum StoreOutcome {
    /// The row went in.
    Stored,
    /// A uniqueness violation: the key is already taken.
    DuplicateKey,
    /// Any other storage failure.
    Failed,
}

/// What the persistence collaborator reported for a credential fetch.
#[derive(Debug, Clone)]
pub enum FetchOutcome {
    /// The credential stored under the requested username.
    Found(User),
    /// No such username.
    Missing,
    /// The store itself failed.
    Failed,
}

/// Authentication failures as the flow distinguishes them. Externally they
/// collapse to two generic shapes; see the status maps below.
#[derive(Debug, Clone, Copy, PartialEq, Eq, Structural)]
pub enum AuthError {
    /// Registration hit an already-taken username.
    DuplicateUser,
    /// Login failed: unknown user or wrong password, indistinguishably.
    InvalidCredentials,
    /// The persistence collaborator failed.
    PersistenceError,
}

/// Registration, up to the store: hash the password with a fresh salt and
/// build the record to insert. The result carries the hash, never the
/// plaintext, and the hash verifies exactly the password registered.
pub fn register_user(form: &RegisterUser) -> (c: NewCredential)
    requires
        form.password@.len() <= 0x3FFF_FFFF,
    ensures
        c.username@ == form.username@,
        c.email@ == form.email@,
        verifies(form.password@, c.password_hash@),
{
    NewCredential {
        username: form.username.clone(),
        email: form.email.clone(),
        password_hash: hash_password(form.password.as_str()),
    }
}

/// Registration, after the store: a uniqueness violation is a duplicate
/// user, any other failure a persistence error, and nothing else fails.
pub fn register_outcome(stored: &StoreOutcome) -> (r: Result<(), AuthError>)
    ensures
        stored is Stored <==> r is Ok,
        stored is DuplicateKey <==> r == Err::<(), AuthError>(AuthError::DuplicateUser),
        stored is Failed <==> r == Err::<(), AuthError>(AuthError::PersistenceError),
{
    match stored {
        StoreOutcome::Stored => Ok(()),
        StoreOutcome::DuplicateKey => Err(AuthError::DuplicateUser),
        StoreOutcome::Failed => Err(AuthError::PersistenceError),
    }
}

/// Login, after the fetch: check the password against the fetched
/// credential and, on a match, issue a session token for the requested
/// username, expiring one lifetime after `now`. An unknown username and a
/// wrong password fail identically, so callers cannot enumerate accounts;
/// only a store failure is reported as such.
pub fn login_user(form: &LoginUser, fetched: &FetchOutcome, secret: &str, now: u64) -> (r: Result<
    String,
    AuthError,
>)
    requires
        now + TOKEN_LIFETIME_SECS <= u64::MAX,
    ensures
        (match fetched {
            FetchOutcome::Found(u) => verifies(form.password@, u.password_hash@),
            _ => false,
        }) ==> (r matches Ok(t) && t@ == token_of(
            form.username@,
            (now + TOKEN_LIFETIME_SECS) as u64,
            secret@,
        )),
        (match fetched {
            FetchOutcome::Found(u) => !verifies(form.password@, u.password_hash@),
            _ => false,
        }) ==> r == Err::<String, AuthError>(AuthError::InvalidCredentials),
        fetched is Missing ==> r == Err::<String, AuthError>(AuthError::InvalidCredentials),
        fetched is Failed ==> r == Err::<String, AuthError>(AuthError::PersistenceError),
{
    match fetched {
        FetchOutcome::Found(user) => {
            if verify_password(form.password.as_str(), user.password_hash.as_str()) {
                Ok(create_jwt(form.username.as_str(), secret, now))
            } else {
                Err(AuthError::InvalidCredentials)
            }
        },
        FetchOutcome::Missing => Err(AuthError::InvalidCredentials),
        FetchOutcome::Failed => Err(AuthError::PersistenceError),
    }
}

/// Externally visible status of a registration: success, or the one generic
/// internal failure — no error kind and no hash material leak out.
pub fn register_status(r: &Result<(), AuthError>) -> (code: u16)
    ensures
        r is Ok <==> code == 200,
        r is Err <==> code == 500,
{
    match r {
        Ok(_) => 200,
        Err(_) => 500,
    }
}

/// Externally visible status of a login: the token goes out on success;
/// anything auth-related is the one generic unauthorized answer, and only a
/// store failure is the generic internal one.
pub fn login_status(r: &Result<String, AuthError>) -> (code: u16)
    ensures
        r is Ok ==> code == 200,
        *r matches Err(AuthError::InvalidCredentials) ==> code == 401,
        *r matches Err(AuthError::DuplicateUser) ==> code == 500,
        *r matches Err(AuthError::PersistenceError) ==> code == 500,
{
    match r {
        Ok(_) => 200,
        Err(AuthError::InvalidCredentials) => 401,
        Err(_) => 500,
    }
}

/// The audit name of a network toggle.
pub fn network_action_name(enable: bool) -> (name: String)
    ensures
        enable ==> name@ == "enable"@,
        !enable ==> name@ == "disable"@,
{
    if enable {
        "enable".to_owned()
    } else {
        "disable".to_owned()
    }
}

/// Externally visible status of a network toggle, after the audit insert:
/// the action counts only once its audit entry is stored.
pub fn network_action_status(logged: &StoreOutcome) -> (code: u16)
    ensures
        logged is Stored <==> code == 200,
        !(logged is Stored) <==> code == 500,
{
    match logged {
        StoreOutcome::Stored => 200,
        _ => 500,
    }
}

} // verus!
