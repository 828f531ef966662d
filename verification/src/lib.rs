//! Core of a token-authenticated account service: password hashing, signed
//! bearer tokens, server-held session state, and the request gate that
//! classifies every inbound request before it reaches a handler.

pub mod authentication;
pub mod clock;
pub mod errors;
pub mod hashing;
pub mod login_history;
pub mod person;
pub mod response;
pub mod session;
pub mod text;
pub mod uid_extractor;
pub mod user;
pub mod user_token;

use vstd::prelude::*;

verus! {

} // verus!
