//! Reads the authenticated account id back out of a request's bearer
//! token, for handlers that run after the request gate admitted the request.

use vstd::prelude::*;

use crate::authentication::{raw_token_of, scheme_ok, RequestInfo};
use crate::errors::CustomError;
use crate::text::{str_starts_with, trim_spaces};
use crate::user_token::{claims_of, UserToken};

verus! {

/// The account id inside the request's bearer token. The request gate has already
/// admitted such requests, so each failure here is reported as a client
/// error rather than mapped to a rejection.
pub fn get_uid_from_request(request: &RequestInfo, key: &Vec<u8>) -> (r: Result<i32, CustomError>)
    ensures
        r matches Ok(uid) ==> request@.authorization matches Some(h) && scheme_ok(h) && (
        claims_of(key@, raw_token_of(h)) matches Some(c) && c.uid == uid as int),
        r is Err ==> request@.authorization is None || (request@.authorization matches Some(h) && (
        !scheme_ok(h) || claims_of(key@, raw_token_of(h)) is None)),
{
    let header = match &request.authorization {
        Some(h) => h,
        None => {
            return Err(CustomError::new(400, String::from_str("Something went very wrong")));
        },
    };
    if !(str_starts_with(header.as_str(), "bearer") || str_starts_with(
        header.as_str(),
        "Bearer",
    )) {
        return Err(
            CustomError::new(
                400,
                String::from_str("The authentication header doesn't start with 'bearer'"),
            ),
        );
    }
    let header_len = header.as_str().unicode_len();
    proof {
        reveal_strlit("Bearer");
        reveal_strlit("bearer");
    }
    let rest = header.as_str().substring_char(6, header_len);
    let raw_token = trim_spaces(rest);
    proof {
        assert(rest@ =~= header@.skip(6));
    }
    match UserToken::decode_from_string(raw_token.as_str(), key) {
        Ok(token) => Ok(token.uid),
        Err(e) => Err(e),
    }
}

} // verus!
