use session_gate::authentication::{
    Authentication, GateOutcome, HttpMethod, RejectReason, RequestInfo,
};
use session_gate::session::{login_with_session, logout, SignupOutcome};
use session_gate::uid_extractor::get_uid_from_request;
use session_gate::user::{CredentialStore, ReceivedUser, User};
use session_gate::user_token::{UserToken, ONE_WEEK};

fn key() -> Vec<u8> {
    b"unit-test-signing-key".to_vec()
}

fn request(method: HttpMethod, path: &str, authorization: Option<&str>) -> RequestInfo {
    RequestInfo {
        method,
        path: path.to_string(),
        authorization: authorization.map(|h| h.to_string()),
    }
}

/// A store with one logged-in account; returns the store, the uid and the
/// bearer token minted at `now`.
fn logged_in(now: i64) -> (CredentialStore, i32, String) {
    let mut store = CredentialStore::new();
    let creds = ReceivedUser { username: "alice".to_string(), password: "secret123".to_string() };
    let uid = match User::signup(&creds, &mut store).unwrap() {
        SignupOutcome::Created(u) => u.id,
        SignupOutcome::AlreadyRegistered => panic!("expected a fresh account"),
    };
    let tr = login_with_session(&creds, &mut store, &key(), "sess-a", now).unwrap();
    (store, uid, tr.token)
}

#[test]
fn options_requests_bypass() {
    let (store, _, _) = logged_in(0);
    let gate = Authentication::with_default_paths();
    let r = gate.classify(&store, &request(HttpMethod::Options, "/persons", None), &key(), 0);
    assert!(matches!(r, GateOutcome::Bypass));
}

#[test]
fn allow_listed_path_bypasses_without_header() {
    let store = CredentialStore::new();
    let gate = Authentication::with_default_paths();
    let r = gate.classify(&store, &request(HttpMethod::Post, "/auth/login", None), &key(), 0);
    assert!(matches!(r, GateOutcome::Bypass));
}

#[test]
fn allow_listed_path_bypasses_even_with_malformed_header() {
    let store = CredentialStore::new();
    let gate = Authentication::with_default_paths();
    let r = gate.classify(
        &store,
        &request(HttpMethod::Post, "/auth/signup", Some("ThisIsNotBearer !!")),
        &key(),
        0,
    );
    assert!(matches!(r, GateOutcome::Bypass));
    let r2 = gate.classify(&store, &request(HttpMethod::Get, "/ping", Some("Basic xyz")), &key(), 0);
    assert!(matches!(r2, GateOutcome::Bypass));
}

#[test]
fn missing_header_is_rejected() {
    let (store, _, _) = logged_in(0);
    let gate = Authentication::with_default_paths();
    let r = gate.classify(&store, &request(HttpMethod::Get, "/persons", None), &key(), 0);
    assert!(matches!(r, GateOutcome::Reject(RejectReason::MissingHeader)));
}

#[test]
fn wrong_scheme_is_rejected() {
    let (store, _, _) = logged_in(0);
    let gate = Authentication::with_default_paths();
    let r = gate.classify(
        &store,
        &request(HttpMethod::Get, "/persons", Some("Basic dXNlcjpwYXNz")),
        &key(),
        0,
    );
    assert!(matches!(r, GateOutcome::Reject(RejectReason::WrongScheme)));
}

#[test]
fn undecodable_token_is_rejected_with_diagnostics() {
    let (store, _, _) = logged_in(0);
    let gate = Authentication::with_default_paths();
    let r = gate.classify(
        &store,
        &request(HttpMethod::Get, "/persons", Some("Bearer garbage")),
        &key(),
        0,
    );
    match r {
        GateOutcome::Reject(RejectReason::Malformed(msg)) => {
            assert!(msg.starts_with("Could not decode the token: "));
        },
        _ => panic!("expected a malformed-token rejection"),
    }
}

#[test]
fn valid_token_is_admitted_with_identity() {
    let (store, uid, token) = logged_in(1_000);
    let gate = Authentication::with_default_paths();
    let header = format!("Bearer {}", token);
    let r = gate.classify(
        &store,
        &request(HttpMethod::Get, "/persons", Some(header.as_str())),
        &key(),
        2_000,
    );
    match r {
        GateOutcome::Admit { uid: got_uid, username } => {
            assert_eq!(got_uid, uid);
            assert_eq!(username, "alice");
        },
        _ => panic!("expected admission"),
    }
}

#[test]
fn lowercase_bearer_scheme_is_accepted() {
    let (store, uid, token) = logged_in(1_000);
    let gate = Authentication::with_default_paths();
    let header = format!("bearer   {}", token);
    let r = gate.classify(
        &store,
        &request(HttpMethod::Get, "/persons", Some(header.as_str())),
        &key(),
        2_000,
    );
    assert!(matches!(r, GateOutcome::Admit { uid: got, .. } if got == uid));
}

#[test]
fn expired_token_is_rejected_even_with_matching_session() {
    let (store, _, token) = logged_in(1_000);
    let gate = Authentication::with_default_paths();
    let header = format!("Bearer {}", token);
    let claims = UserToken::decode_token(token.as_str(), &key()).unwrap();
    let after_expiry = claims.exp;
    assert_eq!(after_expiry, 1_000 + ONE_WEEK);
    let r = gate.classify(
        &store,
        &request(HttpMethod::Get, "/persons", Some(header.as_str())),
        &key(),
        after_expiry,
    );
    assert!(matches!(r, GateOutcome::Reject(RejectReason::Expired)));
}

#[test]
fn revoked_session_is_rejected_as_no_longer_valid() {
    let (mut store, uid, token) = logged_in(1_000);
    logout(uid, &mut store).unwrap();
    let gate = Authentication::with_default_paths();
    let header = format!("Bearer {}", token);
    let r = gate.classify(
        &store,
        &request(HttpMethod::Get, "/persons", Some(header.as_str())),
        &key(),
        2_000,
    );
    assert!(matches!(r, GateOutcome::Reject(RejectReason::SessionInvalid)));
}

#[test]
fn expiry_wins_over_revocation_in_the_reported_reason() {
    let (mut store, uid, token) = logged_in(1_000);
    logout(uid, &mut store).unwrap();
    let gate = Authentication::with_default_paths();
    let header = format!("Bearer {}", token);
    let r = gate.classify(
        &store,
        &request(HttpMethod::Get, "/persons", Some(header.as_str())),
        &key(),
        1_000 + ONE_WEEK + 1,
    );
    assert!(matches!(r, GateOutcome::Reject(RejectReason::Expired)));
}

#[test]
fn rejection_reasons_are_distinguishable() {
    assert_eq!(
        RejectReason::MissingHeader.message(),
        "We did not find an authentication header."
    );
    assert_eq!(
        RejectReason::WrongScheme.message(),
        "The authorization header doesn't start with 'bearer'"
    );
    assert_eq!(RejectReason::Expired.message(), "The token has expired");
    assert_eq!(RejectReason::SessionInvalid.message(), "The token is no longer valid");
    assert_eq!(RejectReason::Malformed("oops".to_string()).message(), "oops");
    assert_eq!(RejectReason::Expired.status_code(), 401);
    assert_eq!(RejectReason::MissingHeader.status_code(), 401);
}

#[test]
fn default_paths_match_the_configuration_surface() {
    let gate = Authentication::with_default_paths();
    assert_eq!(gate.bypass_paths.len(), 4);
    assert_eq!(gate.bypass_paths[0], "/auth/signup");
    assert_eq!(gate.bypass_paths[1], "/auth/login");
    assert_eq!(gate.bypass_paths[2], "/ping");
    assert_eq!(gate.bypass_paths[3], "/documentation");
}

#[test]
fn prefix_matching_governs_the_allow_list() {
    let store = CredentialStore::new();
    let gate = Authentication::new(vec!["/auth".to_string()]);
    let r = gate.classify(&store, &request(HttpMethod::Post, "/auth/anything", None), &key(), 0);
    assert!(matches!(r, GateOutcome::Bypass));
    let r2 = gate.classify(&store, &request(HttpMethod::Post, "/persons", None), &key(), 0);
    assert!(matches!(r2, GateOutcome::Reject(RejectReason::MissingHeader)));
}

#[test]
fn full_scenario_signup_login_admit_logout_reject() {
    let key = key();
    let mut store = CredentialStore::new();
    let gate = Authentication::with_default_paths();
    let creds = ReceivedUser { username: "alice".to_string(), password: "secret123".to_string() };

    let first = User::signup(&creds, &mut store).unwrap();
    let uid = match first {
        SignupOutcome::Created(u) => u.id,
        SignupOutcome::AlreadyRegistered => panic!("expected creation"),
    };
    let again = ReceivedUser { username: "alice".to_string(), password: "other".to_string() };
    assert!(matches!(User::signup(&again, &mut store).unwrap(), SignupOutcome::AlreadyRegistered));

    let tr = login_with_session(&creds, &mut store, &key, "sess-a", 1_000).unwrap();
    let header = format!("Bearer {}", tr.token);
    let admitted = gate.classify(
        &store,
        &request(HttpMethod::Get, "/persons", Some(header.as_str())),
        &key,
        2_000,
    );
    match admitted {
        GateOutcome::Admit { uid: got, username } => {
            assert_eq!(got, uid);
            assert_eq!(username, "alice");
        },
        _ => panic!("expected admission"),
    }

    logout(uid, &mut store).unwrap();
    let rejected = gate.classify(
        &store,
        &request(HttpMethod::Get, "/persons", Some(header.as_str())),
        &key,
        2_000,
    );
    assert!(matches!(rejected, GateOutcome::Reject(RejectReason::SessionInvalid)));
}

#[test]
fn uid_extractor_reads_the_subject_back() {
    let (_, uid, token) = logged_in(1_000);
    let req = request(
        HttpMethod::Get,
        "/persons",
        Some(format!("Bearer {}", token).as_str()),
    );
    assert_eq!(get_uid_from_request(&req, &key()).unwrap(), uid);
    let no_header = request(HttpMethod::Get, "/persons", None);
    assert_eq!(get_uid_from_request(&no_header, &key()).unwrap_err().error_status_code, 400);
    let bad_scheme = request(HttpMethod::Get, "/persons", Some("Basic x"));
    assert_eq!(get_uid_from_request(&bad_scheme, &key()).unwrap_err().error_status_code, 400);
    let bad_token = request(HttpMethod::Get, "/persons", Some("Bearer junk"));
    assert_eq!(get_uid_from_request(&bad_token, &key()).unwrap_err().error_status_code, 401);
}
