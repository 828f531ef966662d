//! The session manager: signup, login, logout, and the validity check that
//! holds a token's session identifier against the account's current one.
//!
//! Tokens are self-contained, but every admitted request still consults the
//! credential store: that lookup is what lets a logout, a later login, or an
//! account deletion invalidate an unexpired token on the spot.

use vstd::prelude::*;

use crate::errors::{CustomError, CustomErrorV};
use crate::hashing::{bcrypt_matches, hash_password, verify_password};
use crate::text::str_eq;
use crate::user::{
    has_id, has_username, idx_of_id, idx_of_username, lemma_set_session_preserves_wf,
    lemma_unique_id, spec_set_session, store_wf, CredentialStore, ReceivedUser, User, UserV,
};
use crate::user_token::{claims_of, TokenResponse, UserToken, UserTokenV, ONE_WEEK};

verus! {

/// The one failure value for a bad login: the same for "no such user" and
/// "wrong password", so responses cannot be used to enumerate usernames.
pub open spec fn auth_error_v() -> CustomErrorV {
    CustomErrorV { error_status_code: 401, error_message: "Invalid username or password"@ }
}

/// The failure for an empty submitted password: rejected before any lookup
/// or verification is attempted.
pub open spec fn empty_password_error_v() -> CustomErrorV {
    CustomErrorV { error_status_code: 400, error_message: "Password is empty"@ }
}

/// The error a failed login reports, as a function of the submitted
/// password alone — deliberately independent of the store.
pub open spec fn spec_login_error(password: Seq<char>) -> CustomErrorV {
    if password.len() == 0 {
        empty_password_error_v()
    } else {
        auth_error_v()
    }
}

fn auth_error() -> (r: CustomError)
    ensures
        r@ == auth_error_v(),
{
    CustomError::new(401, String::from_str("Invalid username or password"))
}

/// Whether the login gates pass: a nonempty submitted password, a known
/// username, a nonempty stored hash, and a hash match.
pub open spec fn login_gates_pass(s: Seq<UserV>, name: Seq<char>, password: Seq<char>) -> bool {
    &&& password.len() > 0
    &&& has_username(s, name)
    &&& s[idx_of_username(s, name)].password.len() > 0
    &&& bcrypt_matches(password, s[idx_of_username(s, name)].password)
}

/// Whether `c` names an account whose current session identifier equals the
/// claims' — the revocation half of token validity.
pub open spec fn spec_session_valid(s: Seq<UserV>, c: UserTokenV) -> bool {
    has_id(s, c.uid) && s[idx_of_id(s, c.uid)].login_session == c.login_session
}

/// True iff the account named by the claims' subject currently holds
/// exactly the claims' session identifier.
pub fn is_session_valid(store: &CredentialStore, claims: &UserToken) -> (r: bool)
    requires
        store.wf(),
    ensures
        r == spec_session_valid(store@, claims@),
{
    match store.find_account_by_id(claims.uid) {
        Some(u) => str_eq(u.login_session.as_str(), claims.login_session.as_str()),
        None => false,
    }
}

/// How a signup ended: a fresh account, or a notice that the username was
/// already taken — a normal outcome, not an error.
#[derive(Debug)]
pub enum SignupOutcome {
    Created(User),
    AlreadyRegistered,
}

impl User {
    /// Whether the username is taken (exact, case-sensitive match).
    pub fn user_already_exists(un: &str, store: &CredentialStore) -> (r: bool)
        ensures
            r == has_username(store@, un@),
    {
        store.account_exists(un)
    }

    /// The account with this id, or a not-found error.
    pub fn find_user_by_id(uid: &i32, store: &CredentialStore) -> (r: Result<User, CustomError>)
        requires
            store.wf(),
        ensures
            r is Ok <==> has_id(store@, *uid as int),
            r matches Ok(u) ==> u@ == store@[idx_of_id(store@, *uid as int)],
            r matches Err(e) ==> e@.error_status_code == 404,
    {
        match store.find_account_by_id(*uid) {
            Some(u) => Ok(u),
            None => Err(CustomError::new(404, String::from_str("User not found"))),
        }
    }

    /// Register a new account: hash the password, store the row with no
    /// active session. A taken username is reported as `AlreadyRegistered`,
    /// not as an error.
    pub fn signup(received_user: &ReceivedUser, store: &mut CredentialStore) -> (r: Result<
        SignupOutcome,
        CustomError,
    >)
        requires
            old(store).wf(),
        ensures
            final(store).wf(),
            has_username(old(store)@, received_user.username@) <==> r matches Ok(
                SignupOutcome::AlreadyRegistered,
            ),
            r matches Ok(SignupOutcome::AlreadyRegistered) ==> final(store)@ == old(store)@,
            r matches Ok(SignupOutcome::Created(u)) ==> !has_username(
                old(store)@,
                received_user.username@,
            ) && final(store)@ == old(store)@.push(u@) && u@.username == received_user.username@
                && bcrypt_matches(received_user.password@, u@.password) && u@.login_session
                == Seq::<char>::empty(),
            r is Err ==> final(store)@ == old(store)@,
            r matches Err(e) ==> e@.error_status_code == 500,
    {
        if store.account_exists(received_user.username.as_str()) {
            return Ok(SignupOutcome::AlreadyRegistered);
        }
        let hashed = match hash_password(received_user.password.as_str()) {
            Ok(h) => h,
            Err(_) => {
                return Err(CustomError::new(500, String::from_str("Password hashing failed")));
            },
        };
        match store.insert_account(received_user.username.as_str(), hashed.as_str()) {
            Ok(u) => Ok(SignupOutcome::Created(u)),
            Err(e) => Err(e),
        }
    }

    /// The login gates, in order and each terminal: empty password —
    /// validation error; unknown username, empty stored hash, or hash
    /// mismatch — one and the same authentication error. On success, the
    /// matched account.
    pub fn login(received_login: &ReceivedUser, store: &CredentialStore) -> (r: Result<
        User,
        CustomError,
    >)
        requires
            store.wf(),
        ensures
            r is Ok <==> login_gates_pass(store@, received_login.username@, received_login.password@),
            r matches Ok(u) ==> u@ == store@[idx_of_username(store@, received_login.username@)],
            r matches Err(e) ==> e@ == spec_login_error(received_login.password@),
    {
        if received_login.password.unicode_len() == 0 {
            return Err(CustomError::new(400, String::from_str("Password is empty")));
        }
        let account = match store.find_account_by_username(received_login.username.as_str()) {
            Some(a) => a,
            None => {
                return Err(auth_error());
            },
        };
        if account.password.unicode_len() == 0 {
            return Err(auth_error());
        }
        if !verify_password(received_login.password.as_str(), account.password.as_str()) {
            return Err(auth_error());
        }
        Ok(account)
    }

    /// The first of `users_to_check_against` whose stored hash accepts
    /// `passwd`, or the password-mismatch error.
    pub fn find_matching_user(passwd: &str, users_to_check_against: Vec<User>) -> (r: Result<
        User,
        CustomError,
    >)
        ensures
            r matches Ok(u) ==> bcrypt_matches(passwd@, u@.password) && exists|i: int|
                0 <= i < users_to_check_against@.len() && (#[trigger] users_to_check_against@[i])@
                    == u@ && (forall|j: int|
                    0 <= j < i ==> !bcrypt_matches(
                        passwd@,
                        (#[trigger] users_to_check_against@[j])@.password,
                    )),
            r is Err ==> forall|i: int|
                0 <= i < users_to_check_against@.len() ==> !bcrypt_matches(
                    passwd@,
                    (#[trigger] users_to_check_against@[i])@.password,
                ),
            r matches Err(e) ==> e@.error_status_code == 400,
    {
        let n = users_to_check_against.len();
        for i in 0..n
            invariant
                n == users_to_check_against@.len(),
                forall|j: int|
                    0 <= j < i ==> !bcrypt_matches(
                        passwd@,
                        (#[trigger] users_to_check_against@[j])@.password,
                    ),
        {
            if verify_password(passwd, users_to_check_against[i].password.as_str()) {
                return Ok(users_to_check_against[i].clone());
            }
        }
        Err(CustomError::new(400, String::from_str("Password doesn't match")))
    }

    /// Replace an account's username and password (rehashed). Refused when
    /// the account is unknown (404) or the new username belongs to another
    /// account (409); the session identifier is kept.
    pub fn update(uid: i32, new_data: &ReceivedUser, store: &mut CredentialStore) -> (r: Result<
        User,
        CustomError,
    >)
        requires
            old(store).wf(),
        ensures
            final(store).wf(),
            r is Err ==> final(store)@ == old(store)@,
            r matches Err(e) ==> (e@.error_status_code == 404 <==> !has_id(
                old(store)@,
                uid as int,
            )),
            r matches Ok(u) ==> has_id(old(store)@, uid as int) && u@.id == uid as int
                && u@.username == new_data.username@ && bcrypt_matches(
                new_data.password@,
                u@.password,
            ) && u@.login_session == old(store)@[idx_of_id(
                old(store)@,
                uid as int,
            )].login_session && final(store)@ == old(store)@.update(
                idx_of_id(old(store)@, uid as int),
                u@,
            ),
    {
        let account = match store.find_account_by_id(uid) {
            Some(a) => a,
            None => {
                return Err(CustomError::new(404, String::from_str("User not found")));
            },
        };
        match store.find_account_by_username(new_data.username.as_str()) {
            Some(other) => {
                if other.id != uid {
                    return Err(
                        CustomError::new(409, String::from_str("Username is already taken")),
                    );
                }
            },
            None => {},
        }
        proof {
            assert forall|i: int|
                0 <= i < store@.len() && (#[trigger] store@[i]).username
                    == new_data.username@ implies store@[i].id == uid as int by {
                assert(has_username(store@, new_data.username@));
                let k = idx_of_username(store@, new_data.username@);
                crate::user::lemma_unique_username(store@, i, k);
            };
        }
        let hashed = match hash_password(new_data.password.as_str()) {
            Ok(h) => h,
            Err(_) => {
                return Err(CustomError::new(500, String::from_str("Password hashing failed")));
            },
        };
        let updated = store.update_account(uid, new_data.username.as_str(), hashed.as_str());
        assert(updated);
        Ok(
            User {
                id: uid,
                username: new_data.username.clone(),
                password: hashed,
                login_session: account.login_session,
            },
        )
    }

    /// Remove the account and return its last row; its id is never handed
    /// out again, and any live token for it fails the validity check from
    /// now on.
    pub fn delete(uid: i32, store: &mut CredentialStore) -> (r: Result<User, CustomError>)
        requires
            old(store).wf(),
        ensures
            final(store).wf(),
            r is Ok <==> has_id(old(store)@, uid as int),
            r matches Ok(u) ==> u@ == old(store)@[idx_of_id(old(store)@, uid as int)]
                && final(store)@ == old(store)@.remove(idx_of_id(old(store)@, uid as int)),
            r is Err ==> final(store)@ == old(store)@,
            r matches Err(e) ==> e@.error_status_code == 404,
    {
        match store.remove_account(uid) {
            Some(u) => Ok(u),
            None => Err(CustomError::new(404, String::from_str("User not found"))),
        }
    }
}

impl UserToken {
    /// The id of the account the claims name, checked to still exist.
    pub fn get_user_id(token_data: &UserToken, store: &CredentialStore) -> (r: Result<
        i32,
        CustomError,
    >)
        requires
            store.wf(),
        ensures
            r is Ok <==> has_id(store@, token_data.uid as int),
            r matches Ok(uid) ==> uid == token_data.uid,
            r matches Err(e) ==> e@.error_status_code == 404,
    {
        match User::find_user_by_id(&token_data.uid, store) {
            Ok(u) => Ok(u.id),
            Err(e) => Err(e),
        }
    }
}

/// Login with the fresh session identifier and clock reading supplied:
/// verified for every value of both. Runs the gates, persists the
/// identifier (superseding any prior session), and mints a token bound to
/// exactly that identifier.
pub fn login_with_session(
    received_login: &ReceivedUser,
    store: &mut CredentialStore,
    key: &Vec<u8>,
    session_id: &str,
    now: i64,
) -> (r: Result<TokenResponse, CustomError>)
    requires
        old(store).wf(),
        now <= i64::MAX - ONE_WEEK,
    ensures
        final(store).wf(),
        r is Ok <==> login_gates_pass(
            old(store)@,
            received_login.username@,
            received_login.password@,
        ),
        r matches Err(e) ==> final(store)@ == old(store)@ && e@ == spec_login_error(
            received_login.password@,
        ),
        r matches Ok(tr) ==> ({
            let u = old(store)@[idx_of_username(old(store)@, received_login.username@)];
            final(store)@ == spec_set_session(old(store)@, u.id, session_id@) && tr.token_type@
                == "Bearer"@ && claims_of(key@, tr.token@) == Some(
                UserTokenV {
                    iat: now as int,
                    exp: now + ONE_WEEK,
                    username: u.username,
                    uid: u.id,
                    login_session: session_id@,
                },
            )
        }),
{
    let account = match User::login(received_login, store) {
        Ok(a) => a,
        Err(e) => {
            return Err(e);
        },
    };
    proof {
        assert(old(store)@[idx_of_username(old(store)@, received_login.username@)].id == account.id
            as int);
        assert(has_id(old(store)@, account.id as int));
    }
    let updated = store.set_session_identifier(account.id, session_id);
    assert(updated);
    let tr = UserToken::generate_token_response(&account, key, session_id, now);
    Ok(tr)
}

/// Login against the real clock and a freshly generated session identifier.
/// What those two wrappers return is unconstrained, so the contract states
/// what holds for every outcome; `login_with_session` carries the exact
/// per-value contract.
pub fn login(received_login: &ReceivedUser, store: &mut CredentialStore, key: &Vec<u8>) -> (r:
    Result<TokenResponse, CustomError>)
    requires
        old(store).wf(),
    ensures
        final(store).wf(),
        r is Ok ==> login_gates_pass(old(store)@, received_login.username@, received_login.password@),
        r is Err ==> final(store)@ == old(store)@,
        r matches Err(e) ==> e@ == spec_login_error(received_login.password@)
            || e@.error_status_code == 500,
        r matches Ok(tr) ==> tr.token_type@ == "Bearer"@ && ({
            let u = old(store)@[idx_of_username(old(store)@, received_login.username@)];
            match claims_of(key@, tr.token@) {
                Some(c) => c.username == u.username && c.uid == u.id && c.login_session.len() > 0
                    && c.exp == c.iat + ONE_WEEK && final(store)@ == spec_set_session(
                    old(store)@,
                    u.id,
                    c.login_session,
                ),
                None => false,
            }
        }),
{
    let now = crate::clock::current_epoch_seconds();
    if now > i64::MAX - ONE_WEEK {
        return Err(CustomError::new(500, String::from_str("Clock out of range")));
    }
    let sid = crate::clock::generate_session_id();
    login_with_session(received_login, store, key, sid.as_str(), now)
}

/// Clear the account's session identifier. Idempotent: logging out an
/// already-logged-out account succeeds the same way; only an unknown
/// account is an error.
pub fn logout(account_id: i32, store: &mut CredentialStore) -> (r: Result<(), CustomError>)
    requires
        old(store).wf(),
    ensures
        final(store).wf(),
        final(store)@ == spec_set_session(old(store)@, account_id as int, Seq::<char>::empty()),
        r is Ok <==> has_id(old(store)@, account_id as int),
        r matches Err(e) ==> e@.error_status_code == 404,
{
    proof {
        reveal_strlit("");
        assert(""@ =~= Seq::<char>::empty());
    }
    let cleared = store.set_session_identifier(account_id, "");
    if cleared {
        Ok(())
    } else {
        Err(CustomError::new(404, String::from_str("User not found")))
    }
}

/// Law: logout is idempotent — clearing a session twice leaves the same
/// store as clearing it once, the outcome (account found or not) is the
/// same both times, and afterwards the account holds no session identifier.
pub proof fn lemma_logout_idempotent(s: Seq<UserV>, id: int)
    requires
        store_wf(s),
    ensures
        spec_set_session(spec_set_session(s, id, Seq::<char>::empty()), id, Seq::<char>::empty())
            == spec_set_session(s, id, Seq::<char>::empty()),
        has_id(spec_set_session(s, id, Seq::<char>::empty()), id) == has_id(s, id),
        has_id(s, id) ==> spec_set_session(s, id, Seq::<char>::empty())[idx_of_id(
            spec_set_session(s, id, Seq::<char>::empty()),
            id,
        )].login_session == Seq::<char>::empty(),
{
    let s1 = spec_set_session(s, id, Seq::<char>::empty());
    lemma_set_session_preserves_wf(s, id, Seq::<char>::empty());
    if has_id(s, id) {
        let k = idx_of_id(s, id);
        assert(0 <= k < s.len() && s[k].id == id);
        assert(s1[k].id == id);
        assert(has_id(s1, id));
        let k1 = idx_of_id(s1, id);
        assert(0 <= k1 < s1.len() && s1[k1].id == id);
        lemma_unique_id(s1, k1, k);
        assert(s1[k1].login_session == Seq::<char>::empty());
        assert(UserV { login_session: Seq::<char>::empty(), ..s1[k1] } == s1[k1]);
        assert(spec_set_session(s1, id, Seq::<char>::empty()) =~= s1);
    } else {
        assert(s1 == s);
        assert(!has_id(s1, id));
    }
}

/// Law: a later login supersedes an earlier one — once the account's
/// session identifier has been replaced by a different one, claims bound to
/// the earlier identifier fail the validity check, expired or not.
pub proof fn lemma_session_supersession(
    s: Seq<UserV>,
    uid: int,
    sid_a: Seq<char>,
    sid_b: Seq<char>,
    claims_a: UserTokenV,
)
    requires
        store_wf(s),
        sid_a != sid_b,
        claims_a.uid == uid,
        claims_a.login_session == sid_a,
    ensures
        !spec_session_valid(spec_set_session(spec_set_session(s, uid, sid_a), uid, sid_b), claims_a),
{
    let s1 = spec_set_session(s, uid, sid_a);
    let s2 = spec_set_session(s1, uid, sid_b);
    lemma_set_session_preserves_wf(s, uid, sid_a);
    lemma_set_session_preserves_wf(s1, uid, sid_b);
    if spec_session_valid(s2, claims_a) {
        let k2 = idx_of_id(s2, uid);
        assert(0 <= k2 < s2.len() && s2[k2].id == uid);
        assert(s2[k2].login_session == sid_a);
        assert(s1[k2].id == uid);
        assert(has_id(s1, uid));
        let k1 = idx_of_id(s1, uid);
        assert(0 <= k1 < s1.len() && s1[k1].id == uid);
        assert(s2[k1].id == uid);
        lemma_unique_id(s2, k2, k1);
        assert(s2[k1].login_session == sid_b);
        assert(false);
    }
}

/// Law: no username enumeration — a login for an unknown username and one
/// with a wrong password for a known username both fail the gates and
/// report one and the same error value.
pub proof fn lemma_no_enumeration(
    s: Seq<UserV>,
    unknown_name: Seq<char>,
    pw1: Seq<char>,
    known_name: Seq<char>,
    pw2: Seq<char>,
)
    requires
        pw1.len() > 0,
        pw2.len() > 0,
        !has_username(s, unknown_name),
        has_username(s, known_name),
        !bcrypt_matches(pw2, s[idx_of_username(s, known_name)].password),
    ensures
        !login_gates_pass(s, unknown_name, pw1),
        !login_gates_pass(s, known_name, pw2),
        spec_login_error(pw1) == spec_login_error(pw2),
        spec_login_error(pw1) == auth_error_v(),
{
}

} // verus!
