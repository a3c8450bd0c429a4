//! The errors that the API answers with.

use vstd::prelude::*;

verus! {

/// An error answered to the client; the variant decides the HTTP status.
#[derive(Debug)]
pub enum AppError {
    /// The request is malformed (400).
    BadRequest(String),
    /// The request needs a connected wallet (401).
    Unauthorized(String),
    /// The caller's tier does not allow the request (403).
    Forbidden(String),
    /// The requested resource does not exist (404).
    NotFound(String),
    /// The client has used up its generation quota (429).
    RateLimited(String),
    /// Something failed on the server's side (500).
    Internal(String),
}

/// The HTTP status of each kind of error.
pub open spec fn spec_error_status(e: AppError) -> u16 {
    match e {
        AppError::BadRequest(_) => 400,
        AppError::Unauthorized(_) => 401,
        AppError::Forbidden(_) => 403,
        AppError::NotFound(_) => 404,
        AppError::RateLimited(_) => 429,
        AppError::Internal(_) => 500,
    }
}

/// The message an error carries.
pub open spec fn spec_error_message(e: AppError) -> Seq<char> {
    match e {
        AppError::BadRequest(m) => m@,
        AppError::Unauthorized(m) => m@,
        AppError::Forbidden(m) => m@,
        AppError::NotFound(m) => m@,
        AppError::RateLimited(m) => m@,
        AppError::Internal(m) => m@,
    }
}

impl AppError {
    /// The HTTP status the error is answered with.
    pub fn status(&self) -> (s: u16)
        ensures
            s == spec_error_status(*self),
    {
        match self {
            AppError::BadRequest(_) => 400,
            AppError::Unauthorized(_) => 401,
            AppError::Forbidden(_) => 403,
            AppError::NotFound(_) => 404,
            AppError::RateLimited(_) => 429,
            AppError::Internal(_) => 500,
        }
    }

    /// The message the error is answered with.
    pub fn message(&self) -> (m: &str)
        ensures
            m@ == spec_error_message(*self),
    {
        match self {
            AppError::BadRequest(m) => m.as_str(),
            AppError::Unauthorized(m) => m.as_str(),
            AppError::Forbidden(m) => m.as_str(),
            AppError::NotFound(m) => m.as_str(),
            AppError::RateLimited(m) => m.as_str(),
            AppError::Internal(m) => m.as_str(),
        }
    }
}

} // verus!
