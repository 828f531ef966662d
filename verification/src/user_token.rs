//! The token codec: a claim set carried in a signed, time-bounded bearer
//! string (a JWT signed with HS256). The signing key is injected by the
//! caller and constant for the process; nothing here manages it.
//!
//! What a token decodes to is named by the uninterpreted `claims_of`; the
//! encode and decode wrappers are the only sources of facts about it, and
//! together they pin down the round trip: decoding a freshly encoded claim
//! set yields the claims unchanged.

use vstd::prelude::*;

use crate::errors::CustomError;
use crate::user::User;

verus! {

/// Seconds a freshly minted token lives: seven days.
pub const ONE_WEEK: i64 = 60 * 60 * 24 * 7;

/// The claim set carried inside a token: issued-at and expiry (epoch
/// seconds), the subject's username and id, and the session identifier the
/// token was bound to at login.
#[derive(Debug)]
pub struct UserToken {
    pub iat: i64,
    pub exp: i64,
    pub username: String,
    pub uid: i32,
    pub login_session: String,
}

/// Ghost image of a claim set.
pub ghost struct UserTokenV {
    pub iat: int,
    pub exp: int,
    pub username: Seq<char>,
    pub uid: int,
    pub login_session: Seq<char>,
}

impl View for UserToken {
    type V = UserTokenV;

    open spec fn view(&self) -> UserTokenV {
        UserTokenV {
            iat: self.iat as int,
            exp: self.exp as int,
            username: self.username@,
            uid: self.uid as int,
            login_session: self.login_session@,
        }
    }
}

/// What decoding `token` with `key` reads out of it: `Some(claims)` when the
/// token is a well-formed JWT whose HS256 signature matches `key` and whose
/// payload carries all five claims, `None` otherwise. Uninterpreted: the JWT
/// grammar and HMAC are not restated here; the encode and decode wrappers
/// below are the only sources of facts about it.
pub uninterp spec fn claims_of(key: Seq<u8>, token: Seq<char>) -> Option<UserTokenV>;

impl UserToken {
    /// Relies on jsonwebtoken::encode with a default (HS256) header: the
    /// produced token decodes — with the same key, under `decode_token`'s
    /// configuration — back to exactly these claims. Signing cannot fail for
    /// this combination: an HMAC key of any length is accepted, HMAC signing
    /// is infallible, and a string-keyed JSON object always serializes.
    #[verifier::external_body]
    pub(crate) fn encode_with_key(claims: &UserToken, key: &Vec<u8>) -> (t: String)
        ensures
            claims_of(key@, t@) == Some(claims@),
    {
        let mut m = serde_json::Map::new();
        m.insert("iat".to_string(), serde_json::Value::from(claims.iat));
        m.insert("exp".to_string(), serde_json::Value::from(claims.exp));
        m.insert("uid".to_string(), serde_json::Value::from(claims.uid));
        m.insert("username".to_string(), serde_json::Value::from(claims.username.as_str()));
        m.insert("login_session".to_string(), serde_json::Value::from(claims.login_session.as_str()));
        let k = jsonwebtoken::EncodingKey::from_secret(key);
        jsonwebtoken::encode(&jsonwebtoken::Header::default(), &serde_json::Value::Object(m), &k)
            .expect("HS256 signing of a string-keyed object is infallible")
    }

    /// Relies on jsonwebtoken::decode with HS256 and structural validation
    /// only (expiry is the request gate's responsibility, so `validate_exp`
    /// is off and no claim is required by the decoder itself): the claims
    /// come back exactly as encoded, or an error describes why the token was
    /// refused (malformed structure, signature mismatch, missing claim).
    #[verifier::external_body]
    pub fn decode_token(token: &str, key: &Vec<u8>) -> (r: Result<UserToken, String>)
        ensures
            r matches Ok(c) ==> claims_of(key@, token@) == Some(c@),
            r is Err ==> claims_of(key@, token@) is None,
    {
        let mut v = jsonwebtoken::Validation::default();
        v.validate_exp = false;
        v.required_spec_claims.clear();
        let k = jsonwebtoken::DecodingKey::from_secret(key);
        let c = jsonwebtoken::decode::<serde_json::Value>(token, &k, &v)
            .map_err(|e| format!("{}", e))?
            .claims;
        match (c["iat"].as_i64(), c["exp"].as_i64(), c["uid"].as_i64(), c["username"].as_str(), c["login_session"].as_str()) {
            (Some(iat), Some(exp), Some(uid), Some(u), Some(s)) => Ok(UserToken {
                iat, exp, uid: uid as i32, username: u.to_string(), login_session: s.to_string(),
            }),
            _ => Err("token payload is missing a claim".to_string()),
        }
    }

    /// Mint the token string for `user`, binding `login_session` and stamping
    /// issued-at `now` with a one-week expiry.
    pub fn generate_token_string(user: &User, key: &Vec<u8>, login_session: &str, now: i64) -> (t: String)
        requires
            now <= i64::MAX - ONE_WEEK,
        ensures
            claims_of(key@, t@) == Some(
                UserTokenV {
                    iat: now as int,
                    exp: now + ONE_WEEK,
                    username: user.username@,
                    uid: user.id as int,
                    login_session: login_session@,
                },
            ),
    {
        let claims = UserToken {
            iat: now,
            exp: now + ONE_WEEK,
            username: user.username.clone(),
            uid: user.id,
            login_session: login_session.to_owned(),
        };
        Self::encode_with_key(&claims, key)
    }

    /// Mint the full response for `user`: the token string plus its scheme.
    pub fn generate_token_response(user: &User, key: &Vec<u8>, login_session: &str, now: i64) -> (r:
        TokenResponse)
        requires
            now <= i64::MAX - ONE_WEEK,
        ensures
            r.token_type@ == "Bearer"@,
            claims_of(key@, r.token@) == Some(
                UserTokenV {
                    iat: now as int,
                    exp: now + ONE_WEEK,
                    username: user.username@,
                    uid: user.id as int,
                    login_session: login_session@,
                },
            ),
    {
        TokenResponse::new(Self::generate_token_string(user, key, login_session, now))
    }

    /// Decode a bearer string, mapping a refusal to the unauthorized class.
    pub fn decode_from_string(token: &str, key: &Vec<u8>) -> (r: Result<UserToken, CustomError>)
        ensures
            r matches Ok(c) ==> claims_of(key@, token@) == Some(c@),
            r matches Err(e) ==> claims_of(key@, token@) is None && e@.error_status_code == 401,
    {
        match Self::decode_token(token, key) {
            Ok(c) => Ok(c),
            Err(m) => Err(CustomError::new(401, m)),
        }
    }

    /// Whether the claims are not yet expired at `now` (expired iff
    /// `now >= exp`).
    pub fn is_still_valid(&self, now: i64) -> (r: bool)
        ensures
            r == (now < self.exp),
    {
        now < self.exp
    }

    /// Law: the codec round-trips — decoding a freshly encoded claim set
    /// with the same key succeeds and yields the claims unchanged.
    pub fn encode_decode_roundtrip(claims: &UserToken, key: &Vec<u8>) -> (r: Result<
        UserToken,
        String,
    >)
        ensures
            r matches Ok(c) && c@ == claims@,
    {
        let t = Self::encode_with_key(claims, key);
        Self::decode_token(t.as_str(), key)
    }
}

/// What a successful login hands back to the client.
#[derive(Debug)]
pub struct TokenResponse {
    pub token: String,
    pub token_type: String,
}

impl TokenResponse {
    pub fn new(token_string: String) -> (r: Self)
        ensures
            r.token == token_string,
            r.token_type@ == "Bearer"@,
    {
        Self { token: token_string, token_type: String::from_str("Bearer") }
    }
}

} // verus!
