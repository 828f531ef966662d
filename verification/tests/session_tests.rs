use session_gate::session::{
    is_session_valid, login, login_with_session, logout, SignupOutcome,
};
use session_gate::user_token::ONE_WEEK;
use session_gate::user::{CredentialStore, ReceivedUser, User};
use session_gate::user_token::UserToken;

fn key() -> Vec<u8> {
    b"unit-test-signing-key".to_vec()
}

fn received(username: &str, password: &str) -> ReceivedUser {
    ReceivedUser { username: username.to_string(), password: password.to_string() }
}

fn signed_up(store: &mut CredentialStore, username: &str, password: &str) -> User {
    match User::signup(&received(username, password), store).unwrap() {
        SignupOutcome::Created(u) => u,
        SignupOutcome::AlreadyRegistered => panic!("expected a fresh account"),
    }
}

#[test]
fn signup_reports_created_then_already_registered() {
    let mut store = CredentialStore::new();
    let first = User::signup(&received("alice", "secret123"), &mut store).unwrap();
    assert!(matches!(first, SignupOutcome::Created(_)));
    let second = User::signup(&received("alice", "other"), &mut store).unwrap();
    assert!(matches!(second, SignupOutcome::AlreadyRegistered));
}

#[test]
fn signup_stores_a_hash_not_the_password() {
    let mut store = CredentialStore::new();
    let u = signed_up(&mut store, "alice", "secret123");
    assert_ne!(u.password, "secret123");
    assert!(u.login_session.is_empty());
    assert!(bcrypt::verify("secret123", &u.password).unwrap());
}

#[test]
fn login_mints_a_token_bound_to_the_session() {
    let mut store = CredentialStore::new();
    let u = signed_up(&mut store, "alice", "secret123");
    let tr = login_with_session(&received("alice", "secret123"), &mut store, &key(), "sess-a", 500)
        .unwrap();
    assert_eq!(tr.token_type, "Bearer");
    let claims = UserToken::decode_token(tr.token.as_str(), &key()).unwrap();
    assert_eq!(claims.username, "alice");
    assert_eq!(claims.uid, u.id);
    assert_eq!(claims.login_session, "sess-a");
    assert_eq!(claims.iat, 500);
    assert!(is_session_valid(&store, &claims));
}

#[test]
fn login_rejects_wrong_password_and_unknown_user_identically() {
    let mut store = CredentialStore::new();
    signed_up(&mut store, "real_user", "right_password");
    let e1 = login_with_session(
        &received("nonexistent_user", "anything"),
        &mut store,
        &key(),
        "s",
        0,
    )
    .unwrap_err();
    let e2 = login_with_session(
        &received("real_user", "wrong_password"),
        &mut store,
        &key(),
        "s",
        0,
    )
    .unwrap_err();
    assert_eq!(e1.error_status_code, e2.error_status_code);
    assert_eq!(e1.error_message, e2.error_message);
    assert_eq!(e1.error_status_code, 401);
}

#[test]
fn login_rejects_empty_password_as_validation_error() {
    let mut store = CredentialStore::new();
    signed_up(&mut store, "alice", "secret123");
    let e = login_with_session(&received("alice", ""), &mut store, &key(), "s", 0).unwrap_err();
    assert_eq!(e.error_status_code, 400);
    assert_eq!(e.error_message, "Password is empty");
}

#[test]
fn second_login_supersedes_the_first() {
    let mut store = CredentialStore::new();
    signed_up(&mut store, "alice", "secret123");
    let tr_a =
        login_with_session(&received("alice", "secret123"), &mut store, &key(), "sess-a", 100)
            .unwrap();
    let claims_a = UserToken::decode_token(tr_a.token.as_str(), &key()).unwrap();
    assert!(is_session_valid(&store, &claims_a));
    let tr_b =
        login_with_session(&received("alice", "secret123"), &mut store, &key(), "sess-b", 200)
            .unwrap();
    let claims_b = UserToken::decode_token(tr_b.token.as_str(), &key()).unwrap();
    assert!(!is_session_valid(&store, &claims_a));
    assert!(is_session_valid(&store, &claims_b));
}

#[test]
fn login_against_the_real_clock() {
    let mut store = CredentialStore::new();
    signed_up(&mut store, "alice", "secret123");
    let tr = login(&received("alice", "secret123"), &mut store, &key()).unwrap();
    let claims = UserToken::decode_token(tr.token.as_str(), &key()).unwrap();
    assert_eq!(claims.exp, claims.iat + ONE_WEEK);
    assert!(!claims.login_session.is_empty());
    assert!(is_session_valid(&store, &claims));
    assert!(claims.is_still_valid(claims.iat + 1));
}

#[test]
fn logout_is_idempotent() {
    let mut store = CredentialStore::new();
    let u = signed_up(&mut store, "alice", "secret123");
    login_with_session(&received("alice", "secret123"), &mut store, &key(), "sess-a", 100)
        .unwrap();
    let first = logout(u.id, &mut store);
    let second = logout(u.id, &mut store);
    assert!(first.is_ok());
    assert!(second.is_ok());
    let row = store.find_account_by_id(u.id).unwrap();
    assert!(row.login_session.is_empty());
}

#[test]
fn logout_invalidates_the_token() {
    let mut store = CredentialStore::new();
    let u = signed_up(&mut store, "alice", "secret123");
    let tr = login_with_session(&received("alice", "secret123"), &mut store, &key(), "sess-a", 100)
        .unwrap();
    let claims = UserToken::decode_token(tr.token.as_str(), &key()).unwrap();
    assert!(is_session_valid(&store, &claims));
    logout(u.id, &mut store).unwrap();
    assert!(!is_session_valid(&store, &claims));
}

#[test]
fn logout_of_unknown_account_is_an_error() {
    let mut store = CredentialStore::new();
    let e = logout(99, &mut store).unwrap_err();
    assert_eq!(e.error_status_code, 404);
}

#[test]
fn deleting_the_account_invalidates_the_token() {
    let mut store = CredentialStore::new();
    let u = signed_up(&mut store, "alice", "secret123");
    let tr = login_with_session(&received("alice", "secret123"), &mut store, &key(), "sess-a", 100)
        .unwrap();
    let claims = UserToken::decode_token(tr.token.as_str(), &key()).unwrap();
    let gone = User::delete(u.id, &mut store).unwrap();
    assert_eq!(gone.username, "alice");
    assert!(!is_session_valid(&store, &claims));
    assert!(User::delete(u.id, &mut store).is_err());
}

#[test]
fn update_changes_the_credentials() {
    let mut store = CredentialStore::new();
    let u = signed_up(&mut store, "alice", "secret123");
    let updated = User::update(u.id, &received("alicia", "newpass"), &mut store).unwrap();
    assert_eq!(updated.username, "alicia");
    assert!(login_with_session(&received("alice", "secret123"), &mut store, &key(), "s", 0)
        .is_err());
    assert!(login_with_session(&received("alicia", "newpass"), &mut store, &key(), "s", 0)
        .is_ok());
}

#[test]
fn update_refuses_a_taken_username() {
    let mut store = CredentialStore::new();
    let u = signed_up(&mut store, "alice", "secret123");
    signed_up(&mut store, "bob", "hunter2");
    let e = User::update(u.id, &received("bob", "x"), &mut store).unwrap_err();
    assert_eq!(e.error_status_code, 409);
}

#[test]
fn find_matching_user_picks_the_matching_hash() {
    let hash = bcrypt::hash("sesame", 4).unwrap();
    let other = bcrypt::hash("different", 4).unwrap();
    let users = vec![
        User {
            id: 1,
            username: "a".to_string(),
            password: other,
            login_session: String::new(),
        },
        User {
            id: 2,
            username: "b".to_string(),
            password: hash,
            login_session: String::new(),
        },
    ];
    let found = User::find_matching_user("sesame", users).unwrap();
    assert_eq!(found.id, 2);
    let e = User::find_matching_user("wrong", vec![]).unwrap_err();
    assert_eq!(e.error_status_code, 400);
    assert_eq!(e.error_message, "Password doesn't match");
}

#[test]
fn store_lookups_and_existence() {
    let mut store = CredentialStore::new();
    assert!(!User::user_already_exists("alice", &store));
    let u = signed_up(&mut store, "alice", "secret123");
    assert!(User::user_already_exists("alice", &store));
    assert!(!User::user_already_exists("Alice", &store));
    let by_name = store.find_account_by_username("alice").unwrap();
    assert_eq!(by_name.id, u.id);
    let by_id = User::find_user_by_id(&u.id, &store).unwrap();
    assert_eq!(by_id.username, "alice");
    assert_eq!(UserToken::get_user_id(
        &UserToken {
            iat: 0,
            exp: 0,
            username: "alice".to_string(),
            uid: u.id,
            login_session: String::new(),
        },
        &store,
    )
    .unwrap(), u.id);
}
