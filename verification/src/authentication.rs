//! The request gate: a classification pipeline every inbound request runs
//! through before any handler sees it. Terminal at the first matching rule:
//! preflight bypass, allow-list bypass, header presence, bearer scheme,
//! token decode, expiry, then the store-backed session validity check.
//! Every rejection carries a machine-readable reason; there is no implicit
//! fallthrough.

use vstd::prelude::*;

use crate::session::{is_session_valid, spec_session_valid};
use crate::text::{str_starts_with, trim_spaces, trim_spec};
use crate::user::CredentialStore;
use crate::user_token::{claims_of, UserToken};

verus! {

/// The request methods the request gate distinguishes; only the preflight method
/// (`Options`) is treated specially.
#[derive(Clone, Copy, PartialEq, Eq, Structural)]
pub enum HttpMethod {
    Options,
    Get,
    Post,
    Put,
    Delete,
}

/// What the request gate reads of an inbound request: method, path, and the raw
/// authorization header if one was sent.
pub struct RequestInfo {
    pub method: HttpMethod,
    pub path: String,
    pub authorization: Option<String>,
}

/// Ghost image of a request.
pub ghost struct RequestInfoV {
    pub method: HttpMethod,
    pub path: Seq<char>,
    pub authorization: Option<Seq<char>>,
}

impl View for RequestInfo {
    type V = RequestInfoV;

    open spec fn view(&self) -> RequestInfoV {
        RequestInfoV {
            method: self.method,
            path: self.path@,
            authorization: match self.authorization {
                Some(h) => Some(h@),
                None => None,
            },
        }
    }
}

/// Why a request was turned away. The reasons are deliberately distinct:
/// "expired" tells the client to log in again, "no longer valid" that the
/// session was superseded or revoked.
pub enum RejectReason {
    MissingHeader,
    WrongScheme,
    Malformed(String),
    Expired,
    SessionInvalid,
}

impl RejectReason {
    /// The user-facing reason text: distinct per variant, so a client can
    /// tell "log in again" (expired) from "someone invalidated you" (no
    /// longer valid), and a missing header from a malformed token.
    pub fn message(&self) -> (r: String)
        ensures
            match self {
                RejectReason::MissingHeader => r@
                    == "We did not find an authentication header."@,
                RejectReason::WrongScheme => r@
                    == "The authorization header doesn't start with 'bearer'"@,
                RejectReason::Malformed(m) => r@ == m@,
                RejectReason::Expired => r@ == "The token has expired"@,
                RejectReason::SessionInvalid => r@ == "The token is no longer valid"@,
            },
    {
        match self {
            RejectReason::MissingHeader => String::from_str(
                "We did not find an authentication header.",
            ),
            RejectReason::WrongScheme => String::from_str(
                "The authorization header doesn't start with 'bearer'",
            ),
            RejectReason::Malformed(m) => m.clone(),
            RejectReason::Expired => String::from_str("The token has expired"),
            RejectReason::SessionInvalid => String::from_str("The token is no longer valid"),
        }
    }

    /// Every rejection shares the unauthorized status class.
    pub fn status_code(&self) -> (r: u16)
        ensures
            r == 401,
    {
        401
    }
}

/// The request gate's verdict on one request.
pub enum GateOutcome {
    Bypass,
    Admit { uid: i32, username: String },
    Reject(RejectReason),
}

/// The verdict with the diagnostic text of a malformed token dropped: what
/// the classification contract pins down exactly.
pub ghost enum GateDecision {
    Bypass,
    MissingHeader,
    WrongScheme,
    Malformed,
    Expired,
    SessionInvalid,
    Admit { uid: int, username: Seq<char> },
}

/// The decision an outcome embodies.
pub open spec fn decision_of(o: GateOutcome) -> GateDecision {
    match o {
        GateOutcome::Bypass => GateDecision::Bypass,
        GateOutcome::Admit { uid, username } => GateDecision::Admit {
            uid: uid as int,
            username: username@,
        },
        GateOutcome::Reject(r) => match r {
            RejectReason::MissingHeader => GateDecision::MissingHeader,
            RejectReason::WrongScheme => GateDecision::WrongScheme,
            RejectReason::Malformed(_) => GateDecision::Malformed,
            RejectReason::Expired => GateDecision::Expired,
            RejectReason::SessionInvalid => GateDecision::SessionInvalid,
        },
    }
}

/// Whether some configured bypass prefix matches the path.
pub open spec fn path_is_bypassed(paths: Seq<Seq<char>>, path: Seq<char>) -> bool {
    exists|i: int| 0 <= i < paths.len() && (#[trigger] paths[i]).is_prefix_of(path)
}

/// Whether the header opens with an accepted bearer scheme prefix.
pub open spec fn scheme_ok(h: Seq<char>) -> bool {
    "Bearer"@.is_prefix_of(h) || "bearer"@.is_prefix_of(h)
}

/// The token carried after the six scheme characters, whitespace-trimmed.
pub open spec fn raw_token_of(h: Seq<char>) -> Seq<char> {
    trim_spec(h.skip(6))
}

/// The whole pipeline as one function of the request, the configuration,
/// the store, the key and the clock.
pub open spec fn spec_classify(
    paths: Seq<Seq<char>>,
    s: Seq<crate::user::UserV>,
    req: RequestInfoV,
    key: Seq<u8>,
    now: int,
) -> GateDecision {
    if req.method == HttpMethod::Options {
        GateDecision::Bypass
    } else if path_is_bypassed(paths, req.path) {
        GateDecision::Bypass
    } else if req.authorization is None {
        GateDecision::MissingHeader
    } else {
        let h = req.authorization->0;
        if !scheme_ok(h) {
            GateDecision::WrongScheme
        } else {
            match claims_of(key, raw_token_of(h)) {
                Option::None => GateDecision::Malformed,
                Option::Some(c) => if now >= c.exp {
                    GateDecision::Expired
                } else if !spec_session_valid(s, c) {
                    GateDecision::SessionInvalid
                } else {
                    GateDecision::Admit { uid: c.uid, username: c.username }
                },
            }
        }
    }
}

/// The request gate's configuration: the unauthenticated path prefixes. Constructed
/// once at startup and shared read-only by every request.
pub struct Authentication {
    pub bypass_paths: Vec<String>,
}

impl View for Authentication {
    type V = Seq<Seq<char>>;

    open spec fn view(&self) -> Seq<Seq<char>> {
        self.bypass_paths.deep_view()
    }
}

impl Authentication {
    pub fn new(bypass_paths: Vec<String>) -> (r: Authentication)
        ensures
            r@ == bypass_paths.deep_view(),
    {
        Authentication { bypass_paths }
    }

    /// The default allow-list: signup, login, the health check, and the
    /// public documentation.
    pub fn with_default_paths() -> (r: Authentication)
        ensures
            r@.len() == 4,
            r@[0] == "/auth/signup"@,
            r@[1] == "/auth/login"@,
            r@[2] == "/ping"@,
            r@[3] == "/documentation"@,
    {
        let mut paths: Vec<String> = Vec::new();
        paths.push(String::from_str("/auth/signup"));
        paths.push(String::from_str("/auth/login"));
        paths.push(String::from_str("/ping"));
        paths.push(String::from_str("/documentation"));
        Authentication { bypass_paths: paths }
    }

    /// Run the pipeline on one request. The result is exactly
    /// `spec_classify`; only the diagnostic text attached to a malformed
    /// token is left open (it echoes the decoder's message).
    pub fn classify(
        &self,
        store: &CredentialStore,
        request: &RequestInfo,
        key: &Vec<u8>,
        now: i64,
    ) -> (r: GateOutcome)
        requires
            store.wf(),
        ensures
            decision_of(r) == spec_classify(self@, store@, request@, key@, now as int),
    {
        if request.method == HttpMethod::Options {
            return GateOutcome::Bypass;
        }
        let n = self.bypass_paths.len();
        for i in 0..n
            invariant
                n == self.bypass_paths@.len(),
                forall|j: int| 0 <= j < i ==> !(#[trigger] self@[j]).is_prefix_of(request.path@),
        {
            if str_starts_with(request.path.as_str(), self.bypass_paths[i].as_str()) {
                assert(self@[i as int].is_prefix_of(request.path@));
                return GateOutcome::Bypass;
            }
        }
        let header = match &request.authorization {
            Some(h) => h,
            None => {
                return GateOutcome::Reject(RejectReason::MissingHeader);
            },
        };
        if !(str_starts_with(header.as_str(), "Bearer") || str_starts_with(
            header.as_str(),
            "bearer",
        )) {
            return GateOutcome::Reject(RejectReason::WrongScheme);
        }
        let header_len = header.as_str().unicode_len();
        proof {
            reveal_strlit("Bearer");
            reveal_strlit("bearer");
        }
        assert(header@.len() >= 6);
        let rest = header.as_str().substring_char(6, header_len);
        let raw_token = trim_spaces(rest);
        proof {
            assert(rest@ =~= header@.skip(6));
        }
        let claims = match UserToken::decode_token(raw_token.as_str(), key) {
            Ok(c) => c,
            Err(m) => {
                let msg = String::from_str("Could not decode the token: ").concat(m.as_str());
                return GateOutcome::Reject(RejectReason::Malformed(msg));
            },
        };
        if !claims.is_still_valid(now) {
            return GateOutcome::Reject(RejectReason::Expired);
        }
        if !is_session_valid(store, &claims) {
            return GateOutcome::Reject(RejectReason::SessionInvalid);
        }
        GateOutcome::Admit { uid: claims.uid, username: claims.username }
    }
}

/// Law: an expired token is rejected as expired even when its session
/// identifier still matches the account's — for every store alike.
pub proof fn lemma_expired_token_rejected(
    paths: Seq<Seq<char>>,
    s: Seq<crate::user::UserV>,
    req: RequestInfoV,
    key: Seq<u8>,
    now: int,
    c: crate::user_token::UserTokenV,
)
    requires
        req.method != HttpMethod::Options,
        !path_is_bypassed(paths, req.path),
        req.authorization matches Some(h) && scheme_ok(h) && claims_of(key, raw_token_of(h))
            == Some(c),
        now >= c.exp,
    ensures
        spec_classify(paths, s, req, key, now) == GateDecision::Expired,
{
}

/// Law: a request whose path is on the allow-list is admitted before any
/// header inspection — with no authorization header, or with an arbitrarily
/// malformed one, alike.
pub proof fn lemma_bypass_ignores_header(
    paths: Seq<Seq<char>>,
    s: Seq<crate::user::UserV>,
    req: RequestInfoV,
    key: Seq<u8>,
    now: int,
)
    requires
        path_is_bypassed(paths, req.path),
    ensures
        spec_classify(paths, s, req, key, now) == GateDecision::Bypass,
{
}

} // verus!
