//! Errors of the service and how each one is answered over HTTP.

use vstd::prelude::*;
use vstd::string::*;
use anyhow::Error as AnyhowError;

verus! {

/// An error raised by the `anyhow` crate; held opaque and carried through.
#[verifier::external_type_specification]
#[verifier::external_body]
pub struct ExAnyhowError(AnyhowError);

/// The errors a request can end with.
#[derive(Debug)]
pub enum Error {
    /// Answered with `400 Bad Request`.
    BadRequest,
    /// Answered with `401 Unauthorized`.
    Unauthorized,
    /// Answered with `403 Forbidden`.
    Forbidden,
    /// Answered with `413 Content Too Large`.
    PayloadTooLarge,
    /// Answered with `500 Internal Server Error`: a database failure.
    Postgres,
    /// Answered with `500 Internal Server Error`: any other failure.
    Anyhow(AnyhowError),
}

/// The HTTP status code that answers an error.
pub open spec fn status_code_of(e: &Error) -> u16 {
    match e {
        Error::BadRequest => 400,
        Error::Unauthorized => 401,
        Error::Forbidden => 403,
        Error::PayloadTooLarge => 413,
        Error::Postgres => 500,
        Error::Anyhow(_) => 500,
    }
}

/// The human-readable description of an error.
pub open spec fn message_of(e: &Error) -> Seq<char> {
    match e {
        Error::BadRequest => "bad request"@,
        Error::Unauthorized => "authentication required"@,
        Error::Forbidden => "user may not perform that action"@,
        Error::PayloadTooLarge => "Content Too Large"@,
        Error::Postgres => "an error occurred with the database"@,
        Error::Anyhow(_) => "an internal server error occurred"@,
    }
}

/// The body of the response that answers an error.
pub open spec fn response_body_of(e: &Error) -> Seq<char> {
    match e {
        Error::PayloadTooLarge => "Payload too large"@,
        _ => message_of(e),
    }
}

impl Error {
    /// The HTTP status code that answers this error.
    pub fn status_code(&self) -> (code: u16)
        ensures
            code == status_code_of(self),
    {
        match self {
            Error::BadRequest => 400,
            Error::Unauthorized => 401,
            Error::Forbidden => 403,
            Error::PayloadTooLarge => 413,
            Error::Postgres => 500,
            Error::Anyhow(_) => 500,
        }
    }

    /// The description of this error, as its `Display` text reads.
    pub fn message(&self) -> (text: String)
        ensures
            text@ == message_of(self),
    {
        match self {
            Error::BadRequest => String::from_str("bad request"),
            Error::Unauthorized => String::from_str("authentication required"),
            Error::Forbidden => String::from_str("user may not perform that action"),
            Error::PayloadTooLarge => String::from_str("Content Too Large"),
            Error::Postgres => String::from_str("an error occurred with the database"),
            Error::Anyhow(_) => String::from_str("an internal server error occurred"),
        }
    }

    /// The status code and body of the response that answers this error.
    pub fn response_parts(&self) -> (parts: (u16, String))
        ensures
            parts.0 == status_code_of(self),
            parts.1@ == response_body_of(self),
    {
        let code = self.status_code();
        match self {
            Error::PayloadTooLarge => (code, String::from_str("Payload too large")),
            _ => (code, self.message()),
        }
    }
}

/// Only the failures of the service itself are answered with a server
/// error (5xx); every other error is answered with a client error (4xx).
pub proof fn server_errors_are_internal(e: &Error)
    ensures
        status_code_of(e) >= 500 <==> (e is Postgres || e is Anyhow),
        status_code_of(e) < 500 ==> 400 <= status_code_of(e) < 500,
{
}

/// Every error is answered with its description, but for a payload too
/// large, which has a body of its own.
pub proof fn bodies_are_descriptions(e: &Error)
    ensures
        !(e is PayloadTooLarge) ==> response_body_of(e) == message_of(e),
{
}

} // verus!
