//! The error every operation of the library reports: a message.

use vstd::prelude::*;

verus! {

/// An error of the Concord client, carrying its message.
#[derive(Debug)]
pub struct ApiError {
    pub message: String,
}

impl ApiError {
    /// An error with the given message.
    pub fn simple(message: &str) -> (res: ApiError)
        ensures
            res.message@ == message@,
    {
        ApiError { message: String::from_str(message) }
    }

    /// An error whose message is `prefix` followed by `detail`, as the
    /// client writes "<what failed>: <why>".
    pub fn with_detail(prefix: &str, detail: &str) -> (res: ApiError)
        ensures
            res.message@ == prefix@ + detail@,
    {
        let mut message = String::from_str(prefix);
        message.append(detail);
        ApiError { message }
    }

    /// The message, as `Display` writes it.
    pub fn to_string(&self) -> (res: String)
        ensures
            res@ == self.message@,
    {
        self.message.clone()
    }
}

} // verus!
