//! Errors of request building.
use vstd::prelude::*;

verus! {

/// Why a request could not be built.
#[derive(Debug)]
pub enum Error {
    /// The `http` crate refused the request (a URI or header it cannot parse).
    HttpError(http::Error),
    /// The parameters break a rule of the API; the message says which.
    RequestValidation(String),
}

/// Whether `r` is the validation error with message `msg`.
pub open spec fn refused_with<T>(r: Result<T, Error>, msg: Seq<char>) -> bool {
    match r {
        Err(Error::RequestValidation(m)) => m@ == msg,
        _ => false,
    }
}

/// The validation error with message `msg`.
pub fn refuse<T>(msg: &str) -> (r: Result<T, Error>)
    ensures
        refused_with(r, msg@),
{
    Err(Error::RequestValidation(String::from_str(msg)))
}

} // verus!
