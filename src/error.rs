//! Errors of the library.
use vstd::prelude::*;

verus! {

/// What can go wrong when talking to the services or building a request.
#[derive(Debug, Clone, PartialEq)]
pub enum Error {
    /// The API key was not found in the environment.
    APIKeyNotFound(String),
    /// The service answered with an error; the text is its answer.
    RequestFailed(String),
    /// The request could not be sent or its answer not read.
    ReqwestError(String),
    /// A request parameter is not acceptable.
    InvalidParameter(String),
}

/// How an error reads.
pub open spec fn error_message(e: Error) -> Seq<char> {
    match e {
        Error::APIKeyNotFound(s) => s@,
        Error::RequestFailed(s) => s@,
        Error::ReqwestError(s) => s@,
        Error::InvalidParameter(s) => "Invalid parameter: "@ + s@,
    }
}

impl Error {
    /// How the error reads.
    pub fn message(&self) -> (r: String)
        ensures
            r@ == error_message(*self),
    {
        match self {
            Error::APIKeyNotFound(s) => s.clone(),
            Error::RequestFailed(s) => s.clone(),
            Error::ReqwestError(s) => s.clone(),
            Error::InvalidParameter(s) => {
                let mut m = String::from_str("Invalid parameter: ");
                m.append(s.as_str());
                m
            },
        }
    }
}

/// Result of the library's fallible operations.
pub type Result<T> = core::result::Result<T, Error>;

} // verus!
