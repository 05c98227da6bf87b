use authgate::flow::{
    login_status, login_user, network_action_name, network_action_status, register_outcome,
    register_status, register_user, AuthError, FetchOutcome, LoginUser, NewCredential,
    RegisterUser, StoreOutcome,
};
use authgate::gate::{authorize, gate_status, GateDecision};
use authgate::models::User;
use authgate::token::TOKEN_LIFETIME_SECS;

const T0: u64 = 1_700_000_000;
const KEY: &str = "flow-signing-key";

fn insert_credential(store: &mut Vec<User>, c: NewCredential) -> StoreOutcome {
    if store.iter().any(|u| u.username == c.username) {
        StoreOutcome::DuplicateKey
    } else {
        let id = store.len() as i32 + 1;
        store.push(User {
            id,
            username: c.username,
            email: c.email,
            password_hash: c.password_hash,
            created_at: T0 as i64,
        });
        StoreOutcome::Stored
    }
}

fn fetch_credential(store: &[User], username: &str) -> FetchOutcome {
    match store.iter().find(|u| u.username == username) {
        Some(u) => FetchOutcome::Found(u.clone()),
        None => FetchOutcome::Missing,
    }
}

fn register_alice(store: &mut Vec<User>) -> StoreOutcome {
    let form = RegisterUser {
        username: "alice".to_string(),
        email: "a@x.com".to_string(),
        password: "pw123".to_string(),
    };
    let credential = register_user(&form);
    assert_eq!(credential.username, "alice");
    assert_eq!(credential.email, "a@x.com");
    assert_ne!(credential.password_hash, "pw123");
    insert_credential(store, credential)
}

#[test]
fn duplicate_registration_is_duplicate_user() {
    let mut store = Vec::new();
    let first = register_alice(&mut store);
    assert_eq!(register_outcome(&first), Ok(()));
    assert_eq!(register_status(&register_outcome(&first)), 200);

    let second = register_alice(&mut store);
    assert_eq!(register_outcome(&second), Err(AuthError::DuplicateUser));
    assert_eq!(register_status(&register_outcome(&second)), 500);
}

#[test]
fn login_with_wrong_password_is_generic_unauthorized() {
    let mut store = Vec::new();
    register_alice(&mut store);
    let form = LoginUser { username: "alice".to_string(), password: "wrongpw".to_string() };
    let fetched = fetch_credential(&store, "alice");
    let result = login_user(&form, &fetched, KEY, T0);
    assert_eq!(result, Err(AuthError::InvalidCredentials));
    assert_eq!(login_status(&result), 401);
}

#[test]
fn unknown_user_fails_like_wrong_password() {
    let store = Vec::new();
    let form = LoginUser { username: "mallory".to_string(), password: "pw123".to_string() };
    let result = login_user(&form, &fetch_credential(&store, "mallory"), KEY, T0);
    assert_eq!(result, Err(AuthError::InvalidCredentials));
    assert_eq!(login_status(&result), 401);
}

#[test]
fn login_then_protected_route_until_expiry() {
    let mut store = Vec::new();
    register_alice(&mut store);
    let form = LoginUser { username: "alice".to_string(), password: "pw123".to_string() };
    let result = login_user(&form, &fetch_credential(&store, "alice"), KEY, T0);
    assert_eq!(login_status(&result), 200);
    let token = result.unwrap();
    assert!(!token.is_empty());

    let header = format!("Bearer {}", token);
    let within = authorize(Some(&header), KEY, T0 + 3600);
    assert_eq!(within, GateDecision::Admit("alice".to_string()));
    assert_eq!(gate_status(&within), 200);

    let after = authorize(Some(&header), KEY, T0 + TOKEN_LIFETIME_SECS + 1);
    assert_eq!(after, GateDecision::Reject);
    assert_eq!(gate_status(&after), 401);
}

#[test]
fn store_failures_are_internal_errors() {
    let form = LoginUser { username: "alice".to_string(), password: "pw123".to_string() };
    let result = login_user(&form, &FetchOutcome::Failed, KEY, T0);
    assert_eq!(result, Err(AuthError::PersistenceError));
    assert_eq!(login_status(&result), 500);

    let stored = register_outcome(&StoreOutcome::Failed);
    assert_eq!(stored, Err(AuthError::PersistenceError));
    assert_eq!(register_status(&stored), 500);
}

#[test]
fn network_actions_are_named_and_gated_on_their_audit_entry() {
    assert_eq!(network_action_name(true), "enable");
    assert_eq!(network_action_name(false), "disable");
    assert_eq!(network_action_status(&StoreOutcome::Stored), 200);
    assert_eq!(network_action_status(&StoreOutcome::Failed), 500);
    assert_eq!(network_action_status(&StoreOutcome::DuplicateKey), 500);
}
