use session_gate::user_token::{TokenResponse, UserToken, ONE_WEEK};

fn key() -> Vec<u8> {
    b"unit-test-signing-key".to_vec()
}

#[test]
fn roundtrip_preserves_claims() {
    let claims = UserToken {
        iat: 1_700_000_000,
        exp: 1_700_604_800,
        username: "alice".to_string(),
        uid: 7,
        login_session: "session-abc".to_string(),
    };
    let back = UserToken::encode_decode_roundtrip(&claims, &key()).unwrap();
    assert_eq!(back.iat, claims.iat);
    assert_eq!(back.exp, claims.exp);
    assert_eq!(back.username, claims.username);
    assert_eq!(back.uid, claims.uid);
    assert_eq!(back.login_session, claims.login_session);
}

#[test]
fn roundtrip_of_expired_claims_still_succeeds() {
    let claims = UserToken {
        iat: 100,
        exp: 200,
        username: "old".to_string(),
        uid: 1,
        login_session: "s".to_string(),
    };
    let back = UserToken::encode_decode_roundtrip(&claims, &key()).unwrap();
    assert_eq!(back.exp, 200);
}

#[test]
fn generate_token_string_embeds_the_claims() {
    let user = session_gate::user::User {
        id: 42,
        username: "bob".to_string(),
        password: "irrelevant".to_string(),
        login_session: "sess-1".to_string(),
    };
    let token = UserToken::generate_token_string(&user, &key(), "sess-1", 1_000_000);
    let claims = UserToken::decode_token(token.as_str(), &key()).unwrap();
    assert_eq!(claims.iat, 1_000_000);
    assert_eq!(claims.exp, 1_000_000 + ONE_WEEK);
    assert_eq!(claims.username, "bob");
    assert_eq!(claims.uid, 42);
    assert_eq!(claims.login_session, "sess-1");
}

#[test]
fn decode_rejects_garbage() {
    assert!(UserToken::decode_token("not-a-token", &key()).is_err());
    assert!(UserToken::decode_token("", &key()).is_err());
}

#[test]
fn decode_rejects_wrong_key() {
    let user = session_gate::user::User {
        id: 1,
        username: "bob".to_string(),
        password: String::new(),
        login_session: "s".to_string(),
    };
    let token = UserToken::generate_token_string(&user, &key(), "s", 1_000);
    let other_key = b"a-different-key".to_vec();
    assert!(UserToken::decode_token(token.as_str(), &other_key).is_err());
}

#[test]
fn decode_from_string_maps_to_unauthorized() {
    let e = UserToken::decode_from_string("garbage", &key()).unwrap_err();
    assert_eq!(e.error_status_code, 401);
}

#[test]
fn is_still_valid_uses_strict_expiry() {
    let claims = UserToken {
        iat: 0,
        exp: 100,
        username: "x".to_string(),
        uid: 0,
        login_session: String::new(),
    };
    assert!(claims.is_still_valid(99));
    assert!(!claims.is_still_valid(100));
    assert!(!claims.is_still_valid(101));
}

#[test]
fn token_response_carries_bearer_type() {
    let tr = TokenResponse::new("abc".to_string());
    assert_eq!(tr.token, "abc");
    assert_eq!(tr.token_type, "Bearer");
}
