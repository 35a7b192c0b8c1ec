//! How a refused request is answered: a code a client can branch on, and a
//! message for the log.

use vstd::prelude::*;

verus! {

/// What kind of refusal an error is.
#[derive(Debug, Clone, Copy, PartialEq, Eq, Structural)]
pub enum ErrorCode {
    InvalidInput,
    NotFound,
    Unsupported,
    Internal,
    Conflict,
    SourceAuthExpired,
    /// The daemon went away mid-call.
    DaemonGone,
}

/// A refused request.
#[derive(Debug, Clone, PartialEq, Eq)]
pub struct ApiError {
    pub code: ErrorCode,
    pub message: String,
}

impl ApiError {
    pub fn new(code: ErrorCode, message: &str) -> (e: ApiError)
        ensures
            e.code == code,
            e.message@ == message@,
    {
        ApiError { code, message: message.to_owned() }
    }

    pub fn invalid_input(message: &str) -> (e: ApiError)
        ensures
            e.code == ErrorCode::InvalidInput,
            e.message@ == message@,
    {
        ApiError::new(ErrorCode::InvalidInput, message)
    }

    pub fn not_found(message: &str) -> (e: ApiError)
        ensures
            e.code == ErrorCode::NotFound,
            e.message@ == message@,
    {
        ApiError::new(ErrorCode::NotFound, message)
    }

    pub fn unsupported(message: &str) -> (e: ApiError)
        ensures
            e.code == ErrorCode::Unsupported,
            e.message@ == message@,
    {
        ApiError::new(ErrorCode::Unsupported, message)
    }

    pub fn internal(message: &str) -> (e: ApiError)
        ensures
            e.code == ErrorCode::Internal,
            e.message@ == message@,
    {
        ApiError::new(ErrorCode::Internal, message)
    }
}

} // verus!
