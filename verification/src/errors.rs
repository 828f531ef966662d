//! Error values surfaced to clients: an HTTP-like status class plus a
//! machine-readable message.

use vstd::prelude::*;

verus! {

/// An error carried back to the client: a status code in the 4xx/5xx class
/// and a user-facing message. Authentication failures at login deliberately
/// share one generic value so that a caller cannot tell a missing account
/// from a wrong password.
#[derive(Debug)]
pub struct CustomError {
    pub error_status_code: u16,
    pub error_message: String,
}

/// Ghost image of a `CustomError`: the status code and the message characters.
pub ghost struct CustomErrorV {
    pub error_status_code: int,
    pub error_message: Seq<char>,
}

impl View for CustomError {
    type V = CustomErrorV;

    open spec fn view(&self) -> CustomErrorV {
        CustomErrorV {
            error_status_code: self.error_status_code as int,
            error_message: self.error_message@,
        }
    }
}

impl CustomError {
    pub fn new(error_status_code: u16, error_message: String) -> (r: Self)
        ensures
            r.error_status_code == error_status_code,
            r.error_message == error_message,
    {
        Self { error_status_code, error_message }
    }
}

} // verus!
