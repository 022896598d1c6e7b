//! The failure taxonomy of the board core and its user-visible form.

use vstd::prelude::*;

verus! {

/// The kinds of failure the core distinguishes. A `Forbidden`-equivalent
/// outcome (authenticated but insufficient privilege) is surfaced as
/// `Unauthorized`.
#[derive(Clone, Copy, PartialEq, Eq, Structural, Debug)]
pub enum ErrorKind {
    NotFound,
    Conflict,
    Unauthorized,
    BadRequest,
    Internal,
}

impl ErrorKind {
    /// The HTTP status code that a failure of this kind is reported with.
    pub open spec fn status_spec(self) -> u16 {
        match self {
            ErrorKind::NotFound => 404,
            ErrorKind::Conflict => 409,
            ErrorKind::Unauthorized => 401,
            ErrorKind::BadRequest => 400,
            ErrorKind::Internal => 500,
        }
    }
}

/// The structured `{message}` body returned with every user-visible failure.
#[derive(Clone, Debug)]
pub struct ErrorMessage {
    pub message: String,
}

/// A failure of the board core: its kind plus a diagnostic message.
#[derive(Clone, Debug)]
pub struct ApiError {
    pub kind: ErrorKind,
    pub message: String,
}

impl ApiError {
    /// The HTTP status code matching this error's kind.
    pub fn status_code(&self) -> (code: u16)
        ensures
            code == self.kind.status_spec(),
    {
        match self.kind {
            ErrorKind::NotFound => 404,
            ErrorKind::Conflict => 409,
            ErrorKind::Unauthorized => 401,
            ErrorKind::BadRequest => 400,
            ErrorKind::Internal => 500,
        }
    }

    /// The structured body that is sent to the user for this error.
    pub fn to_message(self) -> (m: ErrorMessage)
        ensures
            m.message == self.message,
    {
        ErrorMessage { message: self.message }
    }
}

pub fn internal_server_error(error: String) -> (e: ApiError)
    ensures
        e.kind == ErrorKind::Internal,
        e.message == error,
{
    ApiError { kind: ErrorKind::Internal, message: error }
}

pub fn not_found(error: String) -> (e: ApiError)
    ensures
        e.kind == ErrorKind::NotFound,
        e.message == error,
{
    ApiError { kind: ErrorKind::NotFound, message: error }
}

pub fn unauthorized(error: String) -> (e: ApiError)
    ensures
        e.kind == ErrorKind::Unauthorized,
        e.message == error,
{
    ApiError { kind: ErrorKind::Unauthorized, message: error }
}

pub fn bad_request(error: String) -> (e: ApiError)
    ensures
        e.kind == ErrorKind::BadRequest,
        e.message == error,
{
    ApiError { kind: ErrorKind::BadRequest, message: error }
}

pub fn conflict(error: String) -> (e: ApiError)
    ensures
        e.kind == ErrorKind::Conflict,
        e.message == error,
{
    ApiError { kind: ErrorKind::Conflict, message: error }
}

/// Insufficient privilege is reported as `Unauthorized` in this design.
pub fn forbidden(error: String) -> (e: ApiError)
    ensures
        e.kind == ErrorKind::Unauthorized,
        e.message == error,
{
    ApiError { kind: ErrorKind::Unauthorized, message: error }
}

} // verus!
