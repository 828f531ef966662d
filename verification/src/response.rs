//! The uniform body shape successful handlers reply with: a human-readable
//! message next to the payload.

use vstd::prelude::*;

verus! {

pub struct ResponseBody<T> {
    pub message: String,
    pub data: T,
}

impl<T> ResponseBody<T> {
    pub fn new(message: &str, data: T) -> (r: ResponseBody<T>)
        ensures
            r.message@ == message@,
            r.data == data,
    {
        Self { message: message.to_owned(), data }
    }
}

} // verus!
